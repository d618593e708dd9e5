use fluent_ecs::extract::split_caller;
use fluent_ecs::text::{
    append_texts, chars_of, find_first, find_last, has_prefix_at, one_text, parse_u32, push_text,
    str_eq, substring, two_texts,
};

fn chars(s: &str) -> Vec<char> {
    s.chars().collect()
}

#[test]
fn chars_of_gives_the_characters() {
    assert_eq!(chars_of("añb"), vec!['a', 'ñ', 'b']);
    assert_eq!(chars_of(""), Vec::<char>::new());
}

#[test]
fn substring_cuts_by_characters() {
    let s = chars("héllo wörld");
    assert_eq!(substring(&s, 0, 5), "héllo");
    assert_eq!(substring(&s, 6, 11), "wörld");
    assert_eq!(substring(&s, 3, 3), "");
}

#[test]
fn has_prefix_at_looks_at_one_position() {
    let s = chars("postfix/smtpd");
    assert!(has_prefix_at(&s, 0, &chars("postfix")));
    assert!(has_prefix_at(&s, 8, &chars("smtpd")));
    assert!(has_prefix_at(&s, 13, &chars("")));
    assert!(!has_prefix_at(&s, 1, &chars("postfix")));
    assert!(!has_prefix_at(&s, 8, &chars("smtpd!")));
    assert!(!has_prefix_at(&s, 14, &chars("")));
}

#[test]
fn find_first_and_last_find_the_ends() {
    let s = chars("a@b@c");
    assert_eq!(find_first(&s, '@'), Some(1));
    assert_eq!(find_last(&s, '@'), Some(3));
    assert_eq!(find_first(&s, '#'), None);
    assert_eq!(find_last(&s, '#'), None);
    assert_eq!(find_first(&chars(""), '@'), None);
}

#[test]
fn parse_u32_reads_decimal_numbers() {
    assert_eq!(parse_u32(&chars("0")), Some(0));
    assert_eq!(parse_u32(&chars("007")), Some(7));
    assert_eq!(parse_u32(&chars("1234")), Some(1234));
    assert_eq!(parse_u32(&chars("+42")), Some(42));
    assert_eq!(parse_u32(&chars("4294967295")), Some(4294967295));
}

#[test]
fn parse_u32_rejects_everything_else() {
    assert_eq!(parse_u32(&chars("")), None);
    assert_eq!(parse_u32(&chars("+")), None);
    assert_eq!(parse_u32(&chars("-1")), None);
    assert_eq!(parse_u32(&chars("12a")), None);
    assert_eq!(parse_u32(&chars(" 12")), None);
    assert_eq!(parse_u32(&chars("++1")), None);
    assert_eq!(parse_u32(&chars("4294967296")), None);
    assert_eq!(parse_u32(&chars("99999999999999999999999999")), None);
}

#[test]
fn parse_u32_agrees_with_the_standard_library() {
    for text in ["0", "+0", "17", "4294967295", "4294967296", "", "+", "-", "-0", "1_000", "٣"] {
        assert_eq!(parse_u32(&chars(text)), text.parse::<u32>().ok(), "{}", text);
    }
}

#[test]
fn text_lists_hold_what_was_put_in() {
    assert_eq!(one_text("a"), vec!["a".to_string()]);
    assert_eq!(two_texts("a", "b"), vec!["a".to_string(), "b".to_string()]);
    let mut v = one_text("a");
    push_text(&mut v, "b");
    push_text(&mut v, "a");
    assert_eq!(v, vec!["a".to_string(), "b".to_string(), "a".to_string()]);
    append_texts(&mut v, two_texts("c", "d"));
    append_texts(&mut v, Vec::new());
    assert_eq!(v, vec!["a", "b", "a", "c", "d"]);
}

#[test]
fn split_caller_cuts_at_the_first_colon() {
    assert_eq!(split_caller("etcdserver/server.go:2041"), Some(("etcdserver/server.go".to_string(), 2041)));
    assert_eq!(split_caller(":7"), Some(("".to_string(), 7)));
    assert_eq!(split_caller("a:b:7"), None);
    assert_eq!(split_caller("server.go"), None);
    assert_eq!(split_caller("server.go:"), None);
    assert_eq!(split_caller("server.go:x"), None);
}

#[test]
fn str_eq_compares_character_by_character() {
    assert!(str_eq("", ""));
    assert!(str_eq("etcd", "etcd"));
    assert!(str_eq("ünï", "ünï"));
    assert!(!str_eq("etcd", "etc"));
    assert!(!str_eq("etc", "etcd"));
    assert!(!str_eq("etcd", "etcD"));
    assert!(!str_eq("", "a"));
}
