//! Tests for the command line builder.

use cargo_rustc_cfg::CargoRustcPrintCfg;
use cargo_rustc_cfg::CargoTarget;

fn strings(parts: &[&str]) -> Vec<String> {
    parts.iter().map(|s| String::from(*s)).collect()
}

#[test]
fn default_command_asks_about_the_host() {
    let line = CargoRustcPrintCfg::default().command_line();
    assert_eq!(line, strings(&["cargo", "rustc", "--print", "cfg"]));
}

#[test]
fn toolchain_selector_follows_the_program_name() {
    let line = CargoRustcPrintCfg::default()
        .cargo_toolchain(String::from("nightly"))
        .command_line();
    assert_eq!(line, strings(&["cargo", "+nightly", "rustc", "--print", "cfg"]));
}

#[test]
fn cargo_arguments_follow_the_subcommand() {
    let line = CargoRustcPrintCfg::default()
        .cargo_args(strings(&["-Z", "unstable-options"]))
        .command_line();
    assert_eq!(
        line,
        strings(&["cargo", "rustc", "-Z", "unstable-options", "--print", "cfg"])
    );
}

#[test]
fn one_target_adds_one_target_pair() {
    let line = CargoRustcPrintCfg::default()
        .rustc_target(String::from("x86_64-unknown-linux-gnu"))
        .command_line();
    assert_eq!(
        line,
        strings(&[
            "cargo",
            "rustc",
            "--target",
            "x86_64-unknown-linux-gnu",
            "--print",
            "cfg"
        ])
    );
}

#[test]
fn several_targets_add_the_multitarget_flag() {
    let line = CargoRustcPrintCfg::default()
        .rustc_targets(strings(&["i686-pc-windows-msvc", "i686-pc-windows-gnu"]))
        .command_line();
    assert_eq!(
        line,
        strings(&[
            "cargo",
            "rustc",
            "--target",
            "i686-pc-windows-msvc",
            "--target",
            "i686-pc-windows-gnu",
            "-Z",
            "multitarget",
            "--print",
            "cfg"
        ])
    );
}

#[test]
fn single_targets_accumulate() {
    let line = CargoRustcPrintCfg::default()
        .rustc_target(String::from("a"))
        .rustc_target(String::from("b"))
        .command_line();
    assert_eq!(
        line,
        strings(&[
            "cargo", "rustc", "--target", "a", "--target", "b", "-Z", "multitarget", "--print",
            "cfg"
        ])
    );
}

#[test]
fn manifest_path_is_passed_through() {
    let line = CargoRustcPrintCfg::default()
        .manifest_path(String::from("path/to/Cargo.toml"))
        .command_line();
    assert_eq!(
        line,
        strings(&[
            "cargo",
            "rustc",
            "--manifest-path",
            "path/to/Cargo.toml",
            "--print",
            "cfg"
        ])
    );
}

#[test]
fn rustc_arguments_follow_the_separator() {
    let line = CargoRustcPrintCfg::default()
        .rustc_args(strings(&["--cfg", "feature=\"x\""]))
        .command_line();
    assert_eq!(
        line,
        strings(&["cargo", "rustc", "--print", "cfg", "--", "--cfg", "feature=\"x\""])
    );
}

#[test]
fn every_knob_lands_in_its_place() {
    let line = CargoRustcPrintCfg::default()
        .cargo_toolchain(String::from("nightly"))
        .cargo_args(strings(&["--quiet"]))
        .cargo_target(CargoTarget::Bin(String::from("tool")))
        .manifest_path(String::from("Cargo.toml"))
        .rustc_target(String::from("x86_64-apple-darwin"))
        .rustc_args(strings(&["-C", "target-cpu=native"]))
        .command_line();
    assert_eq!(
        line,
        strings(&[
            "cargo",
            "+nightly",
            "rustc",
            "--quiet",
            "--bin",
            "tool",
            "--manifest-path",
            "Cargo.toml",
            "--target",
            "x86_64-apple-darwin",
            "--print",
            "cfg",
            "--",
            "-C",
            "target-cpu=native"
        ])
    );
}

#[test]
fn cargo_target_selectors_convert_to_flag_pairs() {
    assert_eq!(CargoTarget::Lib.to_args(), strings(&["--lib"]));
    assert_eq!(
        CargoTarget::Bin(String::from("b")).to_args(),
        strings(&["--bin", "b"])
    );
    assert_eq!(
        CargoTarget::Test(String::from("t")).to_args(),
        strings(&["--test", "t"])
    );
    assert_eq!(
        CargoTarget::Bench(String::from("m")).to_args(),
        strings(&["--bench", "m"])
    );
    assert_eq!(
        CargoTarget::Example(String::from("e")).to_args(),
        strings(&["--example", "e"])
    );
}

#[test]
fn builder_knobs_are_recorded() {
    let cfg = CargoRustcPrintCfg::default()
        .cargo_toolchain(String::from("beta"))
        .rustc_target(String::from("t1"));
    assert_eq!(cfg.cargo_toolchain, Some(String::from("beta")));
    assert_eq!(cfg.rustc_targets, strings(&["t1"]));
    assert_eq!(cfg.cargo_args, Vec::<String>::new());
    assert_eq!(cfg.cargo_target, None);
    assert_eq!(cfg.manifest_path, None);
    assert_eq!(cfg.rustc_args, Vec::<String>::new());
}
