//! The grammar of a Keycloak event line: `key="value"` pairs with commas
//! between them.
//!
//! Whitespace may stand before and after every pair, around `=` and `,`, and
//! between the characters of a key. Inside the quotes of a value nothing is
//! skipped; there a backslash must be followed by `"`, `\`, `n`, `r` or `t`.

use crate::grammar::{eat, eat_one, lit, one_of, run_end, scan, Class, Span};
use vstd::prelude::*;

verus! {

/// One `key="value"` pair: where the key stands, and where the text between the
/// quotes stands.
#[derive(Clone, Copy, Debug, PartialEq, Eq, Structural)]
pub struct KeyValue {
    pub key: Span,
    pub value: Span,
}

impl KeyValue {
    /// Key and value lie inside a line of `len` characters.
    pub open spec fn within(self, len: nat) -> bool {
        self.key.within(len) && self.value.within(len)
    }
}

/// Where the whitespace that starts at `at` ends.
pub open spec fn skip(s: Seq<char>, at: usize) -> usize {
    run_end(s, at, Class::Whitespace)
}

/// Where a key goes on to after its second character: further key characters,
/// each with optional whitespace before it.
pub open spec fn key_more(s: Seq<char>, at: usize) -> usize
    decreases s.len() - at,
{
    match one_of(s, skip(s, at), Class::Key) {
        Some(e) => if at < e <= s.len() {
            key_more(s, e)
        } else {
            at
        },
        None => at,
    }
}

/// Where the key that starts at `at` ends. Whitespace after the first character
/// belongs to the key, also where no second character follows it.
pub open spec fn key_end(s: Seq<char>, at: usize) -> Option<usize> {
    match one_of(s, at, Class::Key) {
        None => None,
        Some(a) => {
            let w = skip(s, a);
            match one_of(s, w, Class::Key) {
                Some(b) => Some(key_more(s, b)),
                None => Some(w),
            }
        },
    }
}

/// The characters that may follow a backslash.
pub open spec fn is_escape(c: char) -> bool {
    c == '"' || c == '\\' || c == 'n' || c == 'r' || c == 't'
}

/// Where one character of a quoted value ends: a plain character, or a
/// backslash with the character it escapes.
pub open spec fn value_char(s: Seq<char>, at: usize) -> Option<usize> {
    if at < s.len() && s[at as int] != '"' && s[at as int] != '\\' {
        Some((at + 1) as usize)
    } else if at + 1 < s.len() && s[at as int] == '\\' && is_escape(s[at + 1]) {
        Some((at + 2) as usize)
    } else {
        None
    }
}

/// Where the text between the quotes ends.
pub open spec fn inner_end(s: Seq<char>, at: usize) -> usize
    decreases s.len() - at,
{
    match value_char(s, at) {
        Some(e) => if at < e <= s.len() {
            inner_end(s, e)
        } else {
            at
        },
        None => at,
    }
}

/// The quoted value at `at`: the stretch between the quotes, and where the
/// closing quote ends.
pub open spec fn value_at(s: Seq<char>, at: usize) -> Option<(Span, usize)> {
    match lit(s, at, "\""@) {
        None => None,
        Some(a) => {
            let b = inner_end(s, a);
            match lit(s, b, "\""@) {
                None => None,
                Some(e) => Some((Span { start: a, end: b }, e)),
            }
        },
    }
}

/// The pair at `at`, and where it ends.
pub open spec fn pair_at(s: Seq<char>, at: usize) -> Option<(KeyValue, usize)> {
    match key_end(s, at) {
        None => None,
        Some(a) => match lit(s, skip(s, a), "="@) {
            None => None,
            Some(b) => match value_at(s, skip(s, b)) {
                None => None,
                Some((value, e)) => Some((KeyValue { key: Span { start: at, end: a }, value }, e)),
            },
        },
    }
}

/// A comma and the pair after it.
pub open spec fn next_pair(s: Seq<char>, at: usize) -> Option<(KeyValue, usize)> {
    match lit(s, at, ","@) {
        None => None,
        Some(a) => pair_at(s, skip(s, a)),
    }
}

/// The pairs that follow from `at` on, each after whitespace and a comma, and
/// where the last of them ends.
pub open spec fn more_pairs(s: Seq<char>, at: usize) -> (Seq<KeyValue>, usize)
    decreases s.len() - at,
{
    match next_pair(s, skip(s, at)) {
        Some((kv, e)) => if at < e <= s.len() {
            (seq![kv] + more_pairs(s, e).0, more_pairs(s, e).1)
        } else {
            (Seq::empty(), at)
        },
        None => (Seq::empty(), at),
    }
}

/// The pairs after the first one, which starts at `at` and needs no whitespace
/// before its comma skipped.
pub open spec fn rest_pairs(s: Seq<char>, at: usize) -> (Seq<KeyValue>, usize) {
    match next_pair(s, at) {
        Some((kv, e)) => (seq![kv] + more_pairs(s, e).0, more_pairs(s, e).1),
        None => (Seq::empty(), at),
    }
}

/// The pairs of an event line, in order; `None` where the line is no event line.
pub open spec fn event_log(s: Seq<char>) -> Option<Seq<KeyValue>> {
    match pair_at(s, skip(s, 0)) {
        None => None,
        Some((first, a)) => {
            let (rest, b) = rest_pairs(s, skip(s, a));
            if skip(s, b) == s.len() {
                Some(seq![first] + rest)
            } else {
                None
            }
        },
    }
}

fn parse_key(s: &[char], at: usize) -> (r: Option<usize>)
    requires
        at <= s@.len(),
    ensures
        r == key_end(s@, at),
        r matches Some(e) ==> at < e <= s@.len(),
{
    match eat_one(s, at, Class::Key) {
        None => None,
        Some(a) => {
            let w = scan(s, a, Class::Whitespace);
            match eat_one(s, w, Class::Key) {
                None => Some(w),
                Some(b) => {
                    let mut q: usize = b;
                    loop
                        invariant
                            at < q <= s@.len(),
                            key_more(s@, q) == key_more(s@, b),
                        ensures
                            q == key_more(s@, b),
                        decreases s@.len() - q,
                    {
                        let w2 = scan(s, q, Class::Whitespace);
                        match eat_one(s, w2, Class::Key) {
                            Some(e) => {
                                q = e;
                            },
                            None => {
                                break ;
                            },
                        }
                    }
                    Some(q)
                },
            }
        },
    }
}

fn parse_value(s: &[char], at: usize) -> (r: Option<(Span, usize)>)
    requires
        at <= s@.len(),
    ensures
        r == value_at(s@, at),
        r matches Some((v, e)) ==> v.within(s@.len()) && at < e <= s@.len(),
{
    match eat(s, at, "\"") {
        None => None,
        Some(a) => {
            let n = s.len();
            let mut q: usize = a;
            loop
                invariant
                    n == s@.len(),
                    a <= q <= n,
                    inner_end(s@, q) == inner_end(s@, a),
                ensures
                    a <= q <= n,
                    q == inner_end(s@, a),
                decreases n - q,
            {
                if q < n && s[q] != '"' && s[q] != '\\' {
                    q += 1;
                } else if q < n && n - q > 1 && s[q] == '\\' && (s[q + 1] == '"' || s[q + 1]
                    == '\\' || s[q + 1] == 'n' || s[q + 1] == 'r' || s[q + 1] == 't') {
                    q += 2;
                } else {
                    break ;
                }
            }
            proof {
                reveal_strlit("\"");
            }
            match eat(s, q, "\"") {
                None => None,
                Some(e) => Some((Span { start: a, end: q }, e)),
            }
        },
    }
}

fn parse_pair(s: &[char], at: usize) -> (r: Option<(KeyValue, usize)>)
    requires
        at <= s@.len(),
    ensures
        r == pair_at(s@, at),
        r matches Some((kv, e)) ==> kv.within(s@.len()) && at < e <= s@.len(),
{
    match parse_key(s, at) {
        None => None,
        Some(a) => {
            let w = scan(s, a, Class::Whitespace);
            match eat(s, w, "=") {
                None => None,
                Some(b) => {
                    let w2 = scan(s, b, Class::Whitespace);
                    match parse_value(s, w2) {
                        None => None,
                        Some((value, e)) => Some(
                            (KeyValue { key: Span { start: at, end: a }, value }, e),
                        ),
                    }
                },
            }
        },
    }
}

fn parse_next_pair(s: &[char], at: usize) -> (r: Option<(KeyValue, usize)>)
    requires
        at <= s@.len(),
    ensures
        r == next_pair(s@, at),
        r matches Some((kv, e)) ==> kv.within(s@.len()) && at < e <= s@.len(),
{
    match eat(s, at, ",") {
        None => None,
        Some(a) => {
            let w = scan(s, a, Class::Whitespace);
            parse_pair(s, w)
        },
    }
}

/// Parses an event line into its pairs.
pub fn parse_event_line(s: &[char]) -> (r: Option<Vec<KeyValue>>)
    ensures
        match r {
            Some(pairs) => event_log(s@) == Some(pairs@) && forall|i: int|
                0 <= i < pairs@.len() ==> (#[trigger] pairs@[i]).within(s@.len()),
            None => event_log(s@) is None,
        },
{
    let start = scan(s, 0, Class::Whitespace);
    match parse_pair(s, start) {
        None => None,
        Some((first, a)) => {
            let mut pairs: Vec<KeyValue> = Vec::new();
            pairs.push(first);
            let w = scan(s, a, Class::Whitespace);
            let ghost target = rest_pairs(s@, w);
            let mut q: usize = w;
            match parse_next_pair(s, w) {
                None => {},
                Some((kv, e)) => {
                    pairs.push(kv);
                    q = e;
                    loop
                        invariant
                            q <= s@.len(),
                            pairs@.len() >= 1,
                            pairs@[0] == first,
                            forall|i: int|
                                0 <= i < pairs@.len() ==> (#[trigger] pairs@[i]).within(s@.len()),
                            pairs@.skip(1) + more_pairs(s@, q).0 == target.0,
                            more_pairs(s@, q).1 == target.1,
                        ensures
                            q <= s@.len(),
                            pairs@.len() >= 1,
                            pairs@[0] == first,
                            forall|i: int|
                                0 <= i < pairs@.len() ==> (#[trigger] pairs@[i]).within(s@.len()),
                            pairs@.skip(1) == target.0,
                            q == target.1,
                        decreases s@.len() - q,
                    {
                        let w2 = scan(s, q, Class::Whitespace);
                        match parse_next_pair(s, w2) {
                            Some((kv2, e2)) => {
                                let ghost before = pairs@;
                                pairs.push(kv2);
                                assert(pairs@.skip(1) =~= before.skip(1) + seq![kv2]);
                                assert(pairs@.skip(1) + more_pairs(s@, e2).0 =~= before.skip(1) + (
                                seq![kv2] + more_pairs(s@, e2).0));
                                q = e2;
                            },
                            None => {
                                assert(pairs@.skip(1) + Seq::<KeyValue>::empty() =~= pairs@.skip(
                                    1,
                                ));
                                break ;
                            },
                        }
                    }
                },
            }
            let end = scan(s, q, Class::Whitespace);
            if end == s.len() {
                assert(pairs@ =~= seq![first] + pairs@.skip(1));
                Some(pairs)
            } else {
                None
            }
        },
    }
}

} // verus!
