use watchcrab::util::parse_command;
use watchcrab::util::replace_all;
use watchcrab::util::str_eq;

#[test]
fn test_parse_command_simple() {
    let command = vec![
        "echo".to_string(),
        "Path:".to_string(),
        "{path}".to_string(),
        "Kind:".to_string(),
        "{kind}".to_string(),
    ];
    let path = "/tmp";
    let kind = "Create";
    let expected = vec![
        "echo".to_string(),
        "Path:".to_string(),
        "/tmp".to_string(),
        "Kind:".to_string(),
        "Create".to_string(),
    ];
    assert_eq!(parse_command(&command, path, kind), expected);
}

#[test]
fn test_parse_command_compound() {
    let command = vec![
        "echo".to_string(),
        "/path/to/other/thing/{path}".to_string(),
    ];
    let path = "tmp";
    let kind = "Create";
    let expected = vec!["echo".to_string(), "/path/to/other/thing/tmp".to_string()];
    assert_eq!(parse_command(&command, path, kind), expected);
}

#[test]
fn parse_command_handles_both_placeholders_in_one_argument() {
    let command = vec!["{kind}:{path}".to_string()];
    let parsed = parse_command(&command, "/a/b", "Modify");
    assert_eq!(parsed, vec!["Modify:/a/b".to_string()]);
}

#[test]
fn parse_command_substitutes_every_occurrence() {
    let command = vec!["{path}{path}".to_string(), "x".to_string()];
    let parsed = parse_command(&command, "p", "K");
    assert_eq!(parsed, vec!["pp".to_string(), "x".to_string()]);
}

#[test]
fn parse_command_path_value_is_rescanned_for_kind() {
    // The path placeholder is substituted first, so a kind placeholder that
    // the path value itself brings in is substituted afterwards.
    let command = vec!["{path}".to_string()];
    let parsed = parse_command(&command, "x{kind}y", "K");
    assert_eq!(parsed, vec!["xKy".to_string()]);
}

#[test]
fn parse_command_empty_command_stays_empty() {
    let command: Vec<String> = vec![];
    let parsed = parse_command(&command, "/tmp", "Create");
    assert!(parsed.is_empty());
}

#[test]
fn replace_all_replaces_non_overlapping_left_to_right() {
    assert_eq!(replace_all("aaa", "aa", "b"), "ba".to_string());
    assert_eq!(replace_all("hello", "l", "L"), "heLLo".to_string());
    assert_eq!(replace_all("none here", "xyz", "!"), "none here".to_string());
    assert_eq!(replace_all("tail a", "a", ""), "til ".to_string());
}

#[test]
fn replace_all_empty_pattern_keeps_string() {
    assert_eq!(replace_all("abc", "", "zz"), "abc".to_string());
}

#[test]
fn replace_all_does_not_rescan_replacement() {
    assert_eq!(replace_all("ab", "ab", "abab"), "abab".to_string());
}

#[test]
fn str_eq_compares_contents() {
    assert!(str_eq("", ""));
    assert!(str_eq("watch", "watch"));
    assert!(!str_eq("watch", "watch "));
    assert!(!str_eq("watch", "wa+ch"));
}
