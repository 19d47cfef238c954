//! Tests for the per-target configuration container and its lookups.

use cargo_rustc_cfg::Cfg;
use cargo_rustc_cfg::RustcTargetCfg;

const LINUX_BLOCK: &str = "debug_assertions\n\
target_arch=\"x86_64\"\n\
target_endian=\"little\"\n\
target_env=\"gnu\"\n\
target_family=\"unix\"\n\
target_os=\"linux\"\n\
target_pointer_width=\"64\"\n\
target_vendor=\"unknown\"\n\
unix\n";

#[test]
fn block_parses_line_by_line() {
    let cfg = RustcTargetCfg::from_str(LINUX_BLOCK);
    assert_eq!(cfg.iter().len(), 9);
    assert_eq!(cfg.iter()[0], Cfg::Name(String::from("debug_assertions")));
    assert_eq!(
        cfg.iter()[1],
        Cfg::KeyPair(String::from("target_arch"), String::from("x86_64"))
    );
    assert_eq!(cfg.iter()[8], Cfg::Name(String::from("unix")));
}

#[test]
fn get_returns_value_for_key_and_name_for_name() {
    let cfg = RustcTargetCfg::from_str(LINUX_BLOCK);
    assert_eq!(cfg.get("debug_assertions"), Some("debug_assertions"));
    assert_eq!(cfg.get("target_arch"), Some("x86_64"));
    assert_eq!(cfg.get("target_endian"), Some("little"));
    assert_eq!(cfg.get("target_env"), Some("gnu"));
    assert_eq!(cfg.get("target_family"), Some("unix"));
    assert_eq!(cfg.get("target_os"), Some("linux"));
    assert_eq!(cfg.get("target_pointer_width"), Some("64"));
    assert_eq!(cfg.get("target_vendor"), Some("unknown"));
    assert_eq!(cfg.get("unix"), Some("unix"));
    assert_eq!(cfg.get("windows"), None);
    assert_eq!(cfg.get("linux"), None);
}

#[test]
fn get_takes_the_first_matching_entry() {
    let cfg = RustcTargetCfg::from_str("k=\"a\"\nk=\"b\"");
    assert_eq!(cfg.get("k"), Some("a"));
}

#[test]
fn has_matches_names_keys_and_values() {
    let cfg = RustcTargetCfg::from_str(LINUX_BLOCK);
    assert!(cfg.has("unix"));
    assert!(cfg.has("target_os"));
    assert!(cfg.has("linux"));
    assert!(cfg.has("x86_64"));
    assert!(!cfg.has("windows"));
    assert!(!cfg.has("msvc"));
}

#[test]
fn empty_text_has_no_entries() {
    let cfg = RustcTargetCfg::from_str("");
    assert_eq!(cfg.iter().len(), 0);
    assert_eq!(cfg.get("anything"), None);
    assert!(!cfg.has("anything"));
}

#[test]
fn carriage_return_line_endings_are_handled() {
    let cfg = RustcTargetCfg::from_str("target_os=\"windows\"\r\nwindows\r\n");
    assert_eq!(cfg.iter().len(), 2);
    assert_eq!(cfg.get("target_os"), Some("windows"));
    assert_eq!(cfg.get("windows"), Some("windows"));
}
