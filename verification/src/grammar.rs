//! The building blocks of the two line grammars.
//!
//! Both grammars are parsing expression grammars: a sequence matches its parts
//! one after the other, a choice takes the first alternative that matches, and a
//! repetition takes as much as it can and never gives anything back. So every
//! rule is a function from a position in the line to the position where the
//! match ends, if there is one.

pub mod keycloak;
pub mod postfix;

use crate::text::is_prefix_at;
use vstd::prelude::*;

verus! {

/// A stretch of the line, from `start` up to but not including `end`.
#[derive(Clone, Copy, Debug, PartialEq, Eq, Structural)]
pub struct Span {
    pub start: usize,
    pub end: usize,
}

impl Span {
    /// The stretch lies inside a line of `len` characters.
    pub open spec fn within(self, len: nat) -> bool {
        self.start <= self.end <= len
    }

    /// The characters of the stretch.
    pub open spec fn of(self, s: Seq<char>) -> Seq<char> {
        s.subrange(self.start as int, self.end as int)
    }

    /// The characters of the stretch as a `String`.
    pub fn text(&self, s: &[char]) -> (r: String)
        requires
            self.within(s@.len()),
        ensures
            r@ == self.of(s@),
    {
        crate::text::substring(s, self.start, self.end)
    }
}

/// The sets of characters that the grammars repeat over.
#[derive(Clone, Copy, Debug, PartialEq, Eq, Structural)]
pub enum Class {
    /// `0` to `9`.
    Digit,
    /// The space.
    Space,
    /// Everything but the space.
    NotSpace,
    /// Everything but round and square brackets.
    NotBracket,
    /// Everything but the colon.
    NotColon,
    /// ASCII letters and digits.
    AlphaNumeric,
    /// ASCII lower-case letters, `_` and `-`.
    LowerKey,
    /// ASCII letters, `_` and `-`.
    Key,
    /// Everything but the comma and the space.
    PlainValue,
    /// Space, tab, carriage return and line feed.
    Whitespace,
}

impl Class {
    /// Whether `c` belongs to the set.
    pub open spec fn holds(self, c: char) -> bool {
        match self {
            Class::Digit => '0' <= c <= '9',
            Class::Space => c == ' ',
            Class::NotSpace => c != ' ',
            Class::NotBracket => c != '[' && c != ']' && c != '(' && c != ')',
            Class::NotColon => c != ':',
            Class::AlphaNumeric => ('0' <= c <= '9') || ('a' <= c <= 'z') || ('A' <= c <= 'Z'),
            Class::LowerKey => ('a' <= c <= 'z') || c == '_' || c == '-',
            Class::Key => ('a' <= c <= 'z') || ('A' <= c <= 'Z') || c == '_' || c == '-',
            Class::PlainValue => c != ',' && c != ' ',
            Class::Whitespace => c == ' ' || c == '\t' || c == '\r' || c == '\n',
        }
    }

    /// Tells whether `c` belongs to the set.
    pub fn contains(&self, c: char) -> (r: bool)
        ensures
            r == self.holds(c),
    {
        match self {
            Class::Digit => '0' <= c && c <= '9',
            Class::Space => c == ' ',
            Class::NotSpace => c != ' ',
            Class::NotBracket => c != '[' && c != ']' && c != '(' && c != ')',
            Class::NotColon => c != ':',
            Class::AlphaNumeric => ('0' <= c && c <= '9') || ('a' <= c && c <= 'z') || ('A' <= c
                && c <= 'Z'),
            Class::LowerKey => ('a' <= c && c <= 'z') || c == '_' || c == '-',
            Class::Key => ('a' <= c && c <= 'z') || ('A' <= c && c <= 'Z') || c == '_' || c
                == '-',
            Class::PlainValue => c != ',' && c != ' ',
            Class::Whitespace => c == ' ' || c == '\t' || c == '\r' || c == '\n',
        }
    }
}

/// Where the literal `l` ends, if it stands at `at`.
pub open spec fn lit(s: Seq<char>, at: usize, l: Seq<char>) -> Option<usize> {
    if is_prefix_at(s, at as int, l) {
        Some((at + l.len()) as usize)
    } else {
        None
    }
}

/// How many characters of `class` stand in a row from `at` on.
pub open spec fn run_len(s: Seq<char>, at: int, class: Class) -> nat
    decreases s.len() - at,
{
    if 0 <= at < s.len() && class.holds(s[at]) {
        1 + run_len(s, at + 1, class)
    } else {
        0
    }
}

/// Where the longest run of `class` that starts at `at` ends; `at` itself where
/// no such character stands there.
pub open spec fn run_end(s: Seq<char>, at: usize, class: Class) -> usize {
    (at + run_len(s, at as int, class)) as usize
}

/// Where a run of at least one character of `class` ends.
pub open spec fn some_run(s: Seq<char>, at: usize, class: Class) -> Option<usize> {
    if run_end(s, at, class) > at {
        Some(run_end(s, at, class))
    } else {
        None
    }
}

/// The first of two alternatives that matches.
pub open spec fn or<T>(first: Option<T>, second: Option<T>) -> Option<T> {
    match first {
        Some(r) => Some(r),
        None => second,
    }
}

/// Where the rest of the line ends, whatever it holds: at the end of the line.
pub open spec fn rest_end(s: Seq<char>) -> usize {
    s.len() as usize
}

/// Where one character of `class` ends.
pub open spec fn one_of(s: Seq<char>, at: usize, class: Class) -> Option<usize> {
    if at < s.len() && class.holds(s[at as int]) {
        Some((at + 1) as usize)
    } else {
        None
    }
}

/// A run ends inside the line.
pub proof fn lemma_run_len_bound(s: Seq<char>, at: int, class: Class)
    requires
        0 <= at <= s.len(),
    ensures
        at + run_len(s, at, class) <= s.len(),
    decreases s.len() - at,
{
    if at < s.len() && class.holds(s[at]) {
        lemma_run_len_bound(s, at + 1, class);
    }
}

/// Every character of a run belongs to the class, and the character after the
/// run, if there is one, does not.
pub proof fn lemma_run_holds(s: Seq<char>, at: int, class: Class)
    requires
        0 <= at <= s.len(),
    ensures
        forall|i: int| at <= i < at + run_len(s, at, class) ==> class.holds(s[i]),
        at + run_len(s, at, class) < s.len() ==> !class.holds(s[at + run_len(s, at, class)]),
    decreases s.len() - at,
{
    if at < s.len() && class.holds(s[at]) {
        lemma_run_holds(s, at + 1, class);
    }
}

/// A stretch of characters of the class that is followed by none of them is
/// the run.
pub proof fn lemma_run_exact(s: Seq<char>, at: int, end: int, class: Class)
    requires
        0 <= at <= end <= s.len(),
        forall|i: int| at <= i < end ==> class.holds(s[i]),
        end < s.len() ==> !class.holds(s[end]),
    ensures
        run_len(s, at, class) == end - at,
    decreases end - at,
{
    if at < end {
        lemma_run_exact(s, at + 1, end, class);
    }
}

/// Matches the literal `l` at `at`.
pub fn eat(s: &[char], at: usize, l: &str) -> (r: Option<usize>)
    requires
        at <= s@.len(),
    ensures
        r == lit(s@, at, l@),
        r matches Some(e) ==> at <= e <= s@.len() && e == at + l@.len(),
{
    let n = s.len();
    let mut i: usize = at;
    for c in it: l.chars()
        invariant
            n == s@.len(),
            it.seq() == l@,
            i == at + it.index(),
            i <= n,
            forall|j: int| 0 <= j < it.index() ==> s@[at + j] == l@[j],
    {
        if i >= n || s[i] != c {
            proof {
                if is_prefix_at(s@, at as int, l@) {
                    assert(s@.subrange(at as int, at + l@.len())[i - at] == s@[i as int]);
                }
            }
            return None;
        }
        i += 1;
    }
    assert(s@.subrange(at as int, at + l@.len()) =~= l@);
    Some(i)
}

/// Skips the longest run of `class` at `at`.
pub fn scan(s: &[char], at: usize, class: Class) -> (r: usize)
    requires
        at <= s@.len(),
    ensures
        r == run_end(s@, at, class),
        at <= r <= s@.len(),
{
    let n = s.len();
    let mut i: usize = at;
    proof {
        lemma_run_len_bound(s@, at as int, class);
    }
    while i < n && class.contains(s[i])
        invariant
            n == s@.len(),
            at <= i <= n,
            at + run_len(s@, at as int, class) == i + run_len(s@, i as int, class),
        decreases n - i,
    {
        i += 1;
    }
    i
}

/// Skips the rest of the line.
pub fn scan_rest(s: &[char]) -> (r: usize)
    ensures
        r == rest_end(s@),
        r == s@.len(),
{
    s.len()
}

/// Matches a run of at least one character of `class` at `at`.
pub fn scan_some(s: &[char], at: usize, class: Class) -> (r: Option<usize>)
    requires
        at <= s@.len(),
    ensures
        r == some_run(s@, at, class),
        r matches Some(e) ==> at < e <= s@.len(),
{
    let e = scan(s, at, class);
    if e > at {
        Some(e)
    } else {
        None
    }
}

/// Matches one character of `class` at `at`.
pub fn eat_one(s: &[char], at: usize, class: Class) -> (r: Option<usize>)
    requires
        at <= s@.len(),
    ensures
        r == one_of(s@, at, class),
        r matches Some(e) ==> e == at + 1 && e <= s@.len(),
{
    if at < s.len() && class.contains(s[at]) {
        Some(at + 1)
    } else {
        None
    }
}

} // verus!
