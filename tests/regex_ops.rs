use std::sync::Arc;

use lune_regex::captures::LuaCaptures;
use lune_regex::matches::LuaMatch;
use lune_regex::pattern::LuaRegex;

fn compile(p: &str) -> LuaRegex {
    match LuaRegex::new(p) {
        Ok(re) => re,
        Err(e) => panic!("pattern {p:?} refused: {}", e.message),
    }
}

#[test]
fn digits_scenario() {
    let re = compile("[0-9]+");
    assert!(re.is_match("a12b345"));
    let m = re.find("a12b345".to_string()).unwrap();
    assert_eq!(m.start(), 2);
    assert_eq!(m.finish(), 3);
    assert_eq!(m.len(), 2);
    assert_eq!(m.text(), "12");
    let all = re.find_all("a12b345".to_string());
    assert_eq!(all.len(), 2);
    assert_eq!(all.get_one_based(2).unwrap().text(), "345");
    assert_eq!(all.get_one_based(1).unwrap().text(), "12");
    assert!(all.get_one_based(0).is_none());
    assert!(all.get_one_based(3).is_none());
    assert_eq!(re.split("a12b345"), vec!["a".to_string(), "b".to_string(), String::new()]);
}

#[test]
fn named_groups_scenario() {
    let re = compile("(?P<year>[0-9]{4})-(?P<month>[0-9]{2})");
    let caps = re.captures("2024-05".to_string()).unwrap();
    assert_eq!(caps.group("year").unwrap().text(), "2024");
    assert_eq!(caps.group("month").unwrap().text(), "05");
    assert!(caps.group("day").is_none());
    assert_eq!(caps.len(), 3);
    assert_eq!(caps.get(0).unwrap().text(), "2024-05");
    assert_eq!(caps.get(2).unwrap().text(), "05");
    assert_eq!(caps.format("${month}/${year}"), "05/2024");
    assert_eq!(caps.format("$1"), "2024");
    assert_eq!(caps.display(), "Captures(3 captures)");
}

#[test]
fn invalid_pattern_is_refused() {
    match LuaRegex::new("(") {
        Ok(_) => panic!("an unclosed group compiled"),
        Err(e) => {
            assert!(!e.message.is_empty());
            assert!(e.message.contains("regex parse error"));
        },
    }
}

#[test]
fn no_match_everywhere() {
    let re = compile("[0-9]+");
    assert!(!re.is_match("abc"));
    assert!(re.find("abc".to_string()).is_none());
    assert_eq!(re.find_all("abc".to_string()).len(), 0);
    assert!(re.captures("abc".to_string()).is_none());
    assert_eq!(re.split("abc"), vec!["abc".to_string()]);
    assert_eq!(re.replace("abc", "#"), "abc");
    assert_eq!(re.replace_all("abc", "#"), "abc");
}

#[test]
fn find_agrees_with_find_all() {
    let re = compile("b+");
    for text in ["", "abba", "bbb", "cab", "xyz"] {
        let first = re.find(text.to_string());
        let all = re.find_all(text.to_string());
        assert_eq!(first.is_none(), !re.is_match(text));
        assert_eq!(first.is_none(), all.len() == 0);
        if let Some(m) = first {
            assert_eq!(m.range(), all.get(0).unwrap().range());
        }
    }
}

#[test]
fn split_then_rejoin_gives_text() {
    let re = compile("[,;]+");
    let text = "a,b;;c,,";
    let pieces = re.split(text);
    let all = re.find_all(text.to_string());
    assert_eq!(pieces.len(), all.len() + 1);
    let mut rebuilt = String::new();
    for (i, piece) in pieces.iter().enumerate() {
        rebuilt.push_str(piece);
        if let Some(m) = all.get(i) {
            rebuilt.push_str(&m.text());
        }
    }
    assert_eq!(rebuilt, text);
    assert_eq!(pieces, vec!["a", "b", "c", ""]);
}

#[test]
fn empty_pattern_splits_between_characters() {
    let re = compile("");
    assert_eq!(re.split("ab"), vec!["", "a", "b", ""]);
}

#[test]
fn replace_is_literal_and_first_only() {
    let re = compile("([0-9]+)");
    assert_eq!(re.replace("a12b345", "#"), "a#b345");
    assert_eq!(re.replace_all("a12b345", "#"), "a#b#");
    assert_eq!(re.replace("a12b345", "$1"), "a$1b345");
    assert_eq!(re.replace_all("a12b345", "<$1>"), "a<$1>b<$1>");
}

#[test]
fn position_convention() {
    let re = compile("[a-z]+");
    let all = re.find_all("12 abc 4 de".to_string());
    for i in 0..all.len() {
        let m = all.get(i).unwrap();
        assert_eq!(m.finish() - (m.start() - 1), m.len());
    }
    let m = all.get(1).unwrap();
    assert_eq!((m.start(), m.finish(), m.len()), (10, 11, 2));
}

#[test]
fn zero_length_match() {
    let re = compile("x*");
    let m = re.find("abc".to_string()).unwrap();
    assert!(m.is_empty());
    assert_eq!(m.len(), 0);
    assert_eq!(m.start(), 1);
    assert_eq!(m.finish(), 0);
    assert_eq!(m.text(), "");
}

#[test]
fn group_zero_is_the_whole_match() {
    let re = compile("([a-z])([0-9])");
    let caps = re.captures("--b7--".to_string()).unwrap();
    let whole = re.find("--b7--".to_string()).unwrap();
    assert_eq!(caps.get(0).unwrap().range(), whole.range());
    assert_eq!(caps.captures()[0], Some((2, 4)));
}

#[test]
fn unmatched_group_gives_none() {
    let re = compile("(a)|(?P<other>b)");
    let caps = re.captures("b".to_string()).unwrap();
    assert!(caps.get(1).is_none());
    assert_eq!(caps.get(2).unwrap().text(), "b");
    assert_eq!(caps.group("other").unwrap().text(), "b");
}

#[test]
fn multibyte_offsets_are_bytes() {
    let re = compile("é+");
    let m = re.find("café!".to_string()).unwrap();
    assert_eq!(m.start(), 4);
    assert_eq!(m.finish(), 5);
    assert_eq!(m.text(), "é");
    assert_eq!(re.replace_all("éaé", "e"), "eae");
}

#[test]
fn labels() {
    let re = compile("[0-9]+");
    assert_eq!(re.display(), "Regex([0-9]+)");
    assert_eq!(re.as_str(), "[0-9]+");
    assert_eq!(re.duplicate().as_str(), "[0-9]+");
    let m = re.find("a12".to_string()).unwrap();
    assert_eq!(m.display(), "Match(12)");
    assert_eq!(re.find_all("1 2 3".to_string()).display(), "Matches(3)");
}

#[test]
fn results_share_one_buffer() {
    let re = compile("[0-9]");
    let all = re.find_all("1a2".to_string());
    let a = all.get(0).unwrap();
    let b = all.get(1).unwrap();
    assert!(Arc::ptr_eq(&a.full_text(), &b.full_text()));
    let caps: LuaCaptures = re.captures("x9".to_string()).unwrap();
    assert!(Arc::ptr_eq(&caps.text(), &caps.get(0).unwrap().full_text()));
}

#[test]
fn match_from_range() {
    let text = Arc::new("hello world".to_string());
    let m = LuaMatch::new(text, &(6..11));
    assert_eq!(m.text(), "world");
    assert_eq!(m.range(), 6..11);
    assert!(!m.is_empty());
}

#[test]
fn starts_strictly_increase_and_groups_nest() {
    let re = compile("(a?)(b?)");
    let all = re.find_all("xabxb".to_string());
    for i in 1..all.len() {
        assert!(all.get(i - 1).unwrap().range().start < all.get(i).unwrap().range().start);
        assert!(all.get(i - 1).unwrap().range().end <= all.get(i).unwrap().range().start);
    }
    let caps = re.captures("xab".to_string()).unwrap();
    let whole = caps.get(0).unwrap().range();
    for n in 1..caps.len() {
        if let Some(g) = caps.get(n) {
            assert!(whole.start <= g.range().start && g.range().end <= whole.end);
        }
    }
    let caps = re.captures("ab".to_string()).unwrap();
    assert_eq!(caps.get(1).unwrap().text(), "a");
    assert_eq!(caps.get(2).unwrap().text(), "b");
    assert_eq!(*caps.text(), "ab");
}
