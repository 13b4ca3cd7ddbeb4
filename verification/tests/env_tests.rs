use askreditor::env::get_env_var;

fn get(content: &str, key: &str) -> Option<String> {
    get_env_var(content, key)
}

#[test]
fn reads_plain_assignment() {
    assert_eq!(get("SUPABASE_URL=https://x.supabase.co", "SUPABASE_URL"), Some("https://x.supabase.co".to_string()));
}

#[test]
fn reads_second_line_and_strips_quotes_and_slash() {
    let env = "SUPABASE_URL=\"https://x.supabase.co/\"\nSUPABASE_ANON_KEY='abc'\n";
    assert_eq!(get(env, "SUPABASE_URL"), Some("https://x.supabase.co".to_string()));
    assert_eq!(get(env, "SUPABASE_ANON_KEY"), Some("abc".to_string()));
}

#[test]
fn skips_comments_and_blank_lines() {
    let env = "# SUPABASE_URL=commented\n\n   \n  #KEY=x\nSUPABASE_URL=real\n";
    assert_eq!(get(env, "SUPABASE_URL"), Some("real".to_string()));
}

#[test]
fn first_definition_wins() {
    assert_eq!(get("K=first\nK=second", "K"), Some("first".to_string()));
}

#[test]
fn other_names_and_lines_without_equals_are_skipped() {
    assert_eq!(get("OTHER=1\nno equals here\nK=2", "K"), Some("2".to_string()));
}

#[test]
fn trims_name_and_value() {
    assert_eq!(get("  K  =   value   ", "K"), Some("value".to_string()));
}

#[test]
fn handles_crlf_line_endings() {
    assert_eq!(get("K=val\r\nL=other\r\n", "K"), Some("val".to_string()));
    assert_eq!(get("K=val\r\nL=other\r\n", "L"), Some("other".to_string()));
}

#[test]
fn missing_name_gives_none() {
    assert_eq!(get("A=1\nB=2\n", "C"), None);
    assert_eq!(get("", "A"), None);
}

#[test]
fn name_is_compared_trimmed_but_key_is_not() {
    assert_eq!(get("K=1", " K"), None);
}

#[test]
fn splits_at_first_equals() {
    assert_eq!(get("K=a=b", "K"), Some("a=b".to_string()));
}

#[test]
fn strips_every_trailing_slash() {
    assert_eq!(get("U=http://a///", "U"), Some("http://a".to_string()));
}

#[test]
fn empty_value() {
    assert_eq!(get("K=", "K"), Some(String::new()));
    assert_eq!(get("K=\"\"", "K"), Some(String::new()));
}

#[test]
fn whitespace_inside_quotes_is_removed() {
    assert_eq!(get("K=\"  spaced  \"", "K"), Some("spaced".to_string()));
    assert_eq!(get("K=\" a\"", "K"), Some("a".to_string()));
}

#[test]
fn quote_before_slash_is_removed() {
    assert_eq!(get("K=\"abc\"/", "K"), Some("abc".to_string()));
    assert_eq!(get("K=' \"x/ \"' /", "K"), Some("x".to_string()));
}

#[test]
fn inner_characters_are_kept() {
    assert_eq!(get("K=/a \"b\" c/d", "K"), Some("/a \"b\" c/d".to_string()));
    assert_eq!(get("K=\"/\"", "K"), Some(String::new()));
}

#[test]
fn later_lines_never_override() {
    assert_eq!(get("K=1\nJ=2\nK=3\n", "K"), Some("1".to_string()));
    assert_eq!(get("J=2\n# K=0\nK=3\n", "K"), Some("3".to_string()));
}

#[test]
fn unicode_whitespace_is_trimmed() {
    assert_eq!(get("\u{3000}K\u{a0}=\u{2003}v\u{85}", "K"), Some("v".to_string()));
}

#[test]
fn empty_name_line() {
    assert_eq!(get("=v", ""), Some("v".to_string()));
}

#[test]
fn non_ascii_value() {
    assert_eq!(get("名前=値/", "名前"), Some("値".to_string()));
}
