use panpan::manifest::detect_crate_name;

#[test]
fn reads_name_from_manifest() {
    let toml = "[package]\nname = \"demo_game\"\nversion = \"0.1.0\"\nedition = \"2021\"\n";
    assert_eq!(detect_crate_name(toml), Some("demo_game".to_string()));
}

#[test]
fn tolerates_leading_whitespace() {
    let toml = "[package]\n   name = \"indented\"\n";
    assert_eq!(detect_crate_name(toml), Some("indented".to_string()));
}

#[test]
fn takes_first_name_line() {
    let toml = "name = \"first\"\nname = \"second\"\n";
    assert_eq!(detect_crate_name(toml), Some("first".to_string()));
}

#[test]
fn skips_name_line_without_equals() {
    let toml = "name only here\nname = \"real\"\n";
    assert_eq!(detect_crate_name(toml), Some("real".to_string()));
}

#[test]
fn value_stops_at_second_equals() {
    let toml = "name = \"odd\" = rest\n";
    assert_eq!(detect_crate_name(toml), Some("odd".to_string()));
}

#[test]
fn unquoted_value_is_kept() {
    let toml = "name = bare_name\n";
    assert_eq!(detect_crate_name(toml), Some("bare_name".to_string()));
}

#[test]
fn none_when_no_name_line() {
    let toml = "[package]\nversion = \"0.1.0\"\n";
    assert_eq!(detect_crate_name(toml), None);
}

#[test]
fn none_on_empty_manifest() {
    assert_eq!(detect_crate_name(""), None);
}

#[test]
fn handles_carriage_returns() {
    let toml = "[package]\r\nname = \"windows_style\"\r\n";
    assert_eq!(detect_crate_name(toml), Some("windows_style".to_string()));
}
