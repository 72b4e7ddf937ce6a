use ssh_gen_rs::pattern::Pattern;
use ssh_gen_rs::text::{abbreviate_two_tokens, extract_base64_from_openssh_string,
    make_suffix_filesystem_safe};

#[test]
fn suffix_match_exact_tail() {
    let p = Pattern::new("ab".to_string()).unwrap();
    assert!(p.matches_string("xyzab"));
    assert!(!p.matches_string("xyzabc"));
}

#[test]
fn suffix_match_is_case_sensitive() {
    let p = Pattern::new("ab".to_string()).unwrap();
    assert!(!p.matches_string("xyzAB"));
    let q = Pattern::new("AB".to_string()).unwrap();
    assert!(q.matches_string("xyzAB"));
    assert!(!q.matches_string("xyzab"));
}

#[test]
fn suffix_match_edge_lengths() {
    let p = Pattern::new("ab".to_string()).unwrap();
    assert!(p.matches_string("ab"));
    assert!(!p.matches_string("b"));
    assert!(!p.matches_string(""));
    let empty = Pattern::new(String::new()).unwrap();
    assert!(empty.matches_string(""));
    assert!(empty.matches_string("anything"));
}

#[test]
fn non_delimited_input_always_becomes_suffix() {
    for input in ["hello", "", "a/b", "/", "ends/", "/starts", "AAaa00++"] {
        let p = Pattern::new(input.to_string()).unwrap();
        assert_eq!(p.text(), input);
        assert_eq!(p.description(), format!("Suffix: {}", input));
    }
}

#[test]
fn delimited_input_becomes_regex_when_interior_compiles() {
    let p = Pattern::new("/^AB/".to_string()).unwrap();
    assert_eq!(p.text(), "^AB");
    assert_eq!(p.description(), "Regex: ^AB");
}

#[test]
fn malformed_regex_yields_parse_error() {
    let r = Pattern::new("/[/".to_string());
    assert!(r.is_err());
    let e = match r {
        Err(e) => e,
        Ok(_) => panic!("expected a parse error"),
    };
    assert!(!e.message.is_empty());
}

#[test]
fn anchored_regex_matches_only_at_start() {
    let p = Pattern::new("/^AB/".to_string()).unwrap();
    assert!(p.matches_string("ABxyz"));
    assert!(p.matches_string("AB"));
    assert!(!p.matches_string("xyAB"));
}

#[test]
fn unanchored_regex_matches_anywhere() {
    let p = Pattern::new("/AB/".to_string()).unwrap();
    assert!(p.matches_string("xyABz"));
    assert!(p.matches_string("ABz"));
    assert!(p.matches_string("xyAB"));
    assert!(!p.matches_string("xyab"));
}

#[test]
fn expected_attempts_is_64_to_the_suffix_length() {
    let p = Pattern::new("ab".to_string()).unwrap();
    assert_eq!(p.expected_attempts(), Some(4096));
    let one = Pattern::new("a".to_string()).unwrap();
    assert_eq!(one.expected_attempts(), Some(64));
    let empty = Pattern::new(String::new()).unwrap();
    assert_eq!(empty.expected_attempts(), Some(1));
    let re = Pattern::new("/ab/".to_string()).unwrap();
    assert_eq!(re.expected_attempts(), None);
}

#[test]
fn probability_is_reciprocal_of_expected_attempts() {
    let p = Pattern::new("abc".to_string()).unwrap();
    let expected = p.expected_attempts().unwrap() as f64;
    let probability = 1.0 / expected;
    assert!((probability - 64f64.powi(-3)).abs() < 1e-18);
}

#[test]
fn estimate_time_divides_expected_attempts_by_rate() {
    let p = Pattern::new("ab".to_string()).unwrap();
    // 4096 attempts at 100 keys per second: 40 whole seconds.
    assert_eq!(p.estimate_time(100).unwrap(), "40s");
    assert_eq!(p.estimate_time(4096).unwrap(), "1s");
}

#[test]
fn estimate_time_reports_unbounded_cases() {
    let p = Pattern::new("ab".to_string()).unwrap();
    assert_eq!(p.estimate_time(0).unwrap(), "∞");
    let giant = Pattern::new("a".repeat(30)).unwrap();
    assert_eq!(giant.estimate_time(1_000_000).unwrap(), "∞");
}

#[test]
fn estimate_time_is_unknown_for_regex() {
    let p = Pattern::new("/ab/".to_string()).unwrap();
    assert_eq!(p.estimate_time(100), None);
}

#[test]
fn filename_for_suffix_appends_timestamp() {
    let p = Pattern::new("ab".to_string()).unwrap();
    assert_eq!(p.filename_for_timestamp(123), "ab_123");
    assert_eq!(p.filename_for_timestamp(0), "ab_0");
}

#[test]
fn filename_for_regex_sanitizes_and_truncates() {
    let p = Pattern::new("/a+b!/".to_string()).unwrap();
    assert_eq!(p.filename_for_timestamp(5), "regex_a_b__5");
    let long = Pattern::new("/abcdefghijklmnopqrstuvwxyz/".to_string()).unwrap();
    assert_eq!(long.filename_for_timestamp(7), "regex_abcdefghijklmnopqrst_7");
}

#[test]
fn to_filename_uses_the_clock() {
    let p = Pattern::new("ab".to_string()).unwrap();
    let name = p.to_filename();
    assert!(name.starts_with("ab_"));
    let ts: u64 = name["ab_".len()..].parse().unwrap();
    assert!(ts > 1_600_000_000);
}

#[test]
fn patterns_compare_by_rule_and_text() {
    let a = Pattern::new("ab".to_string()).unwrap();
    let b = Pattern::new("ab".to_string()).unwrap();
    let c = Pattern::new("ac".to_string()).unwrap();
    let r = Pattern::new("/ab/".to_string()).unwrap();
    let r2 = Pattern::new("/ab/".to_string()).unwrap();
    assert!(a == b);
    assert!(a != c);
    assert!(a != r);
    assert!(r == r2);
    assert!(a == a.clone());
    assert!(r == r.clone());
}

#[test]
fn second_token_extraction() {
    assert_eq!(
        extract_base64_from_openssh_string("ssh-ed25519 AAAAC3Nz comment"),
        "AAAAC3Nz"
    );
    assert_eq!(extract_base64_from_openssh_string("ssh-ed25519 AAAA"), "AAAA");
    assert_eq!(extract_base64_from_openssh_string("one"), "");
    assert_eq!(extract_base64_from_openssh_string(""), "");
    assert_eq!(extract_base64_from_openssh_string("  lead  mid  tail"), "mid");
}

#[test]
fn abbreviation_keeps_the_first_two_tokens() {
    assert_eq!(abbreviate_two_tokens("2years 3months 10days"), "2years 3months");
    assert_eq!(abbreviate_two_tokens("40s"), "40s");
    assert_eq!(abbreviate_two_tokens(""), "");
    assert_eq!(abbreviate_two_tokens("  a  b  c"), "a b");
}

#[test]
fn estimate_time_agrees_with_humantime() {
    // A four-character suffix at one key per second: 64^4 whole seconds.
    let p = Pattern::new("abcd".to_string()).unwrap();
    let expected =
        humantime::format_duration(std::time::Duration::from_secs(16_777_216)).to_string();
    assert_eq!(p.estimate_time(1).unwrap(), expected);
}

#[test]
fn filesystem_safe_replaces_special_characters() {
    assert_eq!(make_suffix_filesystem_safe("a/b!c_d-9"), "a_b_c_d-9");
    assert_eq!(make_suffix_filesystem_safe("AZaz09_-"), "AZaz09_-");
    assert_eq!(make_suffix_filesystem_safe(""), "");
    assert_eq!(make_suffix_filesystem_safe("+/="), "___");
}
