//! Tests for whole-output parsing and outcome interpretation.

use cargo_rustc_cfg::interpret_output;
use cargo_rustc_cfg::parse_output;
use cargo_rustc_cfg::Error;

#[test]
fn output_without_blank_line_is_one_block() {
    let cfgs = parse_output("target_os=\"linux\"\nunix\n");
    assert_eq!(cfgs.len(), 1);
    assert_eq!(cfgs[0].iter().len(), 2);
    assert_eq!(cfgs[0].get("target_os"), Some("linux"));
}

#[test]
fn empty_output_is_one_empty_block() {
    let cfgs = parse_output("");
    assert_eq!(cfgs.len(), 1);
    assert_eq!(cfgs[0].iter().len(), 0);
}

#[test]
fn blank_line_separates_two_blocks() {
    let stdout = "target_os=\"windows\"\nwindows\n\ntarget_os=\"linux\"\nunix\n";
    let cfgs = parse_output(stdout);
    assert_eq!(cfgs.len(), 2);
    assert_eq!(cfgs[0].iter().len(), 2);
    assert_eq!(cfgs[1].iter().len(), 2);
    assert_eq!(cfgs[0].get("target_os"), Some("windows"));
    assert!(cfgs[0].has("windows"));
    assert!(!cfgs[0].has("unix"));
    assert_eq!(cfgs[1].get("target_os"), Some("linux"));
    assert!(cfgs[1].has("unix"));
    assert!(!cfgs[1].has("windows"));
}

#[test]
fn two_blank_lines_leave_an_empty_block_between() {
    let cfgs = parse_output("a\n\n\nb\n");
    assert_eq!(cfgs.len(), 3);
    assert_eq!(cfgs[0].iter().len(), 1);
    assert_eq!(cfgs[1].iter().len(), 0);
    assert_eq!(cfgs[2].iter().len(), 1);
}

#[test]
fn success_parses_the_standard_output() {
    let r = interpret_output(true, "target_arch=\"x86_64\"\n", "");
    let cfgs = r.expect("configurations");
    assert_eq!(cfgs.len(), 1);
    assert_eq!(cfgs[0].get("target_arch"), Some("x86_64"));
}

#[test]
fn failure_reports_the_standard_error_text() {
    let r = interpret_output(false, "target_arch=\"x86_64\"\n", "no such subcommand");
    let err = r.expect_err("command failure");
    assert_eq!(err, Error::Command(String::from("no such subcommand")));
    assert!(err.message().contains("no such subcommand"));
}

#[test]
fn failure_ignores_any_standard_output() {
    let r = interpret_output(false, "", "boom");
    assert_eq!(r.expect_err("command failure"), Error::Command(String::from("boom")));
    let r = interpret_output(false, "a\n\nb\n", "boom");
    assert_eq!(r.expect_err("command failure"), Error::Command(String::from("boom")));
}
