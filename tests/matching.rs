use pyregex::{MatchError, PyRegex, PyRegexSet};

fn compiled(pattern: &str) -> PyRegex {
    match PyRegex::new(pattern) {
        Ok(m) => m,
        Err(_) => panic!("pattern should compile: {}", pattern),
    }
}

fn s(x: &str) -> String {
    x.to_string()
}

#[test]
fn findall_and_spans_of_noob() {
    let m = compiled("n[o0]*b");
    let text = "Dont say noob say n00b or the bot will ban u";
    assert_eq!(m.findall(text), vec![s("noob"), s("n00b")]);
    assert_eq!(m.matches(text), vec![(9, 13), (18, 22)]);
}

#[test]
fn captures_drop_whole_match() {
    let m = compiled(r"(\d+)-(\d+)");
    assert_eq!(m.captures("12-34"), Some(vec![Some(s("12")), Some(s("34"))]));
}

#[test]
fn captures_absent_without_match() {
    let m = compiled(r"(\d+)-(\d+)");
    assert_eq!(m.captures("no numbers"), None);
    assert_eq!(m.all_captures("no numbers"), Vec::<Vec<Option<String>>>::new());
}

#[test]
fn set_reports_matching_indices() {
    let set = match PyRegexSet::new(&["ab+", "cd+", "ef+"]) {
        Ok(set) => set,
        Err(_) => panic!("set should compile"),
    };
    assert_eq!(set.find("aabbccddee"), vec![0, 1]);
    assert!(set.is_match("aabbccddee"));
    assert!(!set.is_match("xyz"));
    assert_eq!(set.find("xyz"), Vec::<usize>::new());
}

#[test]
fn malformed_pattern_is_refused() {
    match PyRegex::new("(abc") {
        Err(MatchError::Compile { message }) => assert!(!message.is_empty()),
        _ => panic!("an unbalanced group must not compile"),
    }
}

#[test]
fn malformed_pattern_in_set_refuses_set() {
    match PyRegexSet::new(&["ab+", "(cd"]) {
        Err(MatchError::Compile { message }) => assert!(!message.is_empty()),
        _ => panic!("a set with a malformed pattern must not compile"),
    }
}

#[test]
fn is_match_agrees_with_find() {
    let m = compiled("n[o0]*b");
    assert!(m.is_match("say n00b"));
    assert_eq!(m.find("say n00b"), Some(s("n00b")));
    assert!(!m.is_match("nothing here"));
    assert_eq!(m.find("nothing here"), None);
}

#[test]
fn empty_text_has_no_matches() {
    let m = compiled("a+");
    assert_eq!(m.findall(""), Vec::<String>::new());
    assert_eq!(m.matches(""), Vec::<(usize, usize)>::new());
    assert_eq!(m.find(""), None);
}

#[test]
fn spans_are_byte_offsets() {
    let m = compiled("b+");
    let text = "ébb é bbb";
    assert_eq!(m.matches(text), vec![(2, 4), (8, 11)]);
    assert_eq!(m.findall(text), vec![s("bb"), s("bbb")]);
    for (start, end) in m.matches(text) {
        assert!(text[start..end].chars().all(|c| c == 'b'));
    }
}

#[test]
fn one_capture_set_per_match() {
    let m = compiled(r"(\d+)-(\d+)");
    let text = "1-2 and 30-40, 500-6";
    let all = m.all_captures(text);
    assert_eq!(all.len(), m.findall(text).len());
    assert_eq!(
        all,
        vec![
            vec![Some(s("1")), Some(s("2"))],
            vec![Some(s("30")), Some(s("40"))],
            vec![Some(s("500")), Some(s("6"))],
        ]
    );
}

#[test]
fn unmatched_group_is_absent() {
    let m = compiled(r"(a)|(b)");
    assert_eq!(m.captures("b"), Some(vec![None, Some(s("b"))]));
    assert_eq!(
        m.all_captures("ab"),
        vec![vec![Some(s("a")), None], vec![None, Some(s("b"))]]
    );
}

#[test]
fn single_group_gives_single_entry() {
    let m = compiled(r"x(\d)");
    let c = m.captures("ax7");
    assert_eq!(c, Some(vec![Some(s("7"))]));
}

#[test]
fn is_match_at_sees_context() {
    let m = compiled(r"\bchew\b");
    assert!(m.is_match("eschew chew"));
    assert!(matches!(m.is_match_at("eschew", 2), Ok(false)));
    assert!(matches!(m.is_match_at("eschew chew", 6), Ok(true)));
    assert!(matches!(m.is_match_at("chew", 4), Ok(false)));
}

#[test]
fn is_match_at_refuses_bad_offsets() {
    let m = compiled("a");
    assert!(matches!(m.is_match_at("abc", 4), Err(MatchError::InvalidOffset { offset: 4 })));
    assert!(matches!(m.is_match_at("éa", 1), Err(MatchError::InvalidOffset { offset: 1 })));
    assert!(matches!(m.is_match_at("éa", 2), Ok(true)));
}

#[test]
fn free_matches_function() {
    match pyregex::matcher::matches("n[o0]*b", "Dont say noob say n00b or the bot will ban u") {
        Ok(spans) => assert_eq!(spans, vec![(9, 13), (18, 22)]),
        Err(_) => panic!("pattern should compile"),
    }
    assert!(matches!(pyregex::matcher::matches("(", "x"), Err(MatchError::Compile { .. })));
}

#[test]
fn set_indices_agree_with_single_patterns() {
    let patterns = ["a", "b", "^c", "d$", "z"];
    let set = match PyRegexSet::new(&patterns) {
        Ok(set) => set,
        Err(_) => panic!("set should compile"),
    };
    let text = "abcd";
    let expected: Vec<usize> = (0..patterns.len())
        .filter(|&i| compiled(patterns[i]).is_match(text))
        .collect();
    assert_eq!(set.find(text), expected);
    assert_eq!(expected, vec![0, 1, 3]);
}
