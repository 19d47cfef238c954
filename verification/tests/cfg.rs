//! Tests for parsing and formatting single configuration lines.

use cargo_rustc_cfg::Cfg;

#[test]
fn bare_line_parses_to_name() {
    let cfg = Cfg::from_str("unix");
    assert!(cfg.is_name());
    assert!(!cfg.is_key_pair());
    assert_eq!(cfg.name(), Some("unix"));
    assert_eq!(cfg.key_pair(), None);
    assert_eq!(cfg.key(), None);
    assert_eq!(cfg.value(), None);
    assert_eq!(cfg, Cfg::Name(String::from("unix")));
}

#[test]
fn bare_line_keeps_whole_text() {
    let cfg = Cfg::from_str("debug_assertions");
    assert_eq!(cfg.name(), Some("debug_assertions"));
}

#[test]
fn empty_line_parses_to_empty_name() {
    let cfg = Cfg::from_str("");
    assert_eq!(cfg, Cfg::Name(String::new()));
}

#[test]
fn quoted_value_has_quotes_stripped() {
    let cfg = Cfg::from_str("target_os=\"linux\"");
    assert!(cfg.is_key_pair());
    assert!(!cfg.is_name());
    assert_eq!(cfg.key_pair(), Some(("target_os", "linux")));
    assert_eq!(cfg.key(), Some("target_os"));
    assert_eq!(cfg.value(), Some("linux"));
    assert_eq!(cfg.name(), None);
}

#[test]
fn unquoted_value_is_kept_unchanged() {
    let cfg = Cfg::from_str("key=value");
    assert_eq!(cfg.key_pair(), Some(("key", "value")));
}

#[test]
fn line_splits_at_first_equal_sign_only() {
    let cfg = Cfg::from_str("a=b=c");
    assert_eq!(cfg.key_pair(), Some(("a", "b=c")));
}

#[test]
fn empty_quoted_value_becomes_empty() {
    let cfg = Cfg::from_str("target_env=\"\"");
    assert_eq!(cfg.key_pair(), Some(("target_env", "")));
}

#[test]
fn lone_quote_value_is_not_stripped() {
    let cfg = Cfg::from_str("k=\"");
    assert_eq!(cfg.key_pair(), Some(("k", "\"")));
}

#[test]
fn only_one_pair_of_quotes_is_stripped() {
    let cfg = Cfg::from_str("k=\"\"v\"\"");
    assert_eq!(cfg.key_pair(), Some(("k", "\"v\"")));
}

#[test]
fn empty_key_is_preserved() {
    let cfg = Cfg::from_str("=\"v\"");
    assert_eq!(cfg.key_pair(), Some(("", "v")));
}

#[test]
fn into_name_consumes_name() {
    assert_eq!(
        Cfg::from_str("windows").into_name(),
        Some(String::from("windows"))
    );
    assert_eq!(Cfg::from_str("a=\"b\"").into_name(), None);
}

#[test]
fn into_key_pair_consumes_pair() {
    assert_eq!(
        Cfg::from_str("target_arch=\"x86_64\"").into_key_pair(),
        Some((String::from("target_arch"), String::from("x86_64")))
    );
    assert_eq!(Cfg::from_str("unix").into_key_pair(), None);
}

#[test]
fn key_pair_formats_with_quotes() {
    let cfg = Cfg::KeyPair(String::from("target_os"), String::from("linux"));
    assert_eq!(cfg.to_line(), "target_os=\"linux\"");
}

#[test]
fn name_formats_as_itself() {
    let cfg = Cfg::Name(String::from("unix"));
    assert_eq!(cfg.to_line(), "unix");
}

#[test]
fn key_pair_round_trips_through_text() {
    let cfg = Cfg::KeyPair(String::from("target_vendor"), String::from("pc"));
    let reparsed = Cfg::from_str(cfg.to_line().as_str());
    assert_eq!(reparsed, cfg);
}

#[test]
fn name_round_trips_through_text() {
    let cfg = Cfg::Name(String::from("debug_assertions"));
    let reparsed = Cfg::from_str(cfg.to_line().as_str());
    assert_eq!(reparsed, cfg);
}

#[test]
fn value_with_equal_sign_round_trips() {
    let cfg = Cfg::KeyPair(String::from("k"), String::from("a=b"));
    let reparsed = Cfg::from_str(cfg.to_line().as_str());
    assert_eq!(reparsed, cfg);
}
