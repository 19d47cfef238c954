//! Access to the Rust compiler configuration that is active for a Cargo
//! project, obtained by running the `cargo rustc --print cfg` command and
//! parsing its line-oriented output.
//!
//! The verified core of the crate is the output parser and the command
//! builder. The parser turns the captured standard output into [`Cfg`]
//! entries, grouped per compiler target into [`RustcTargetCfg`] values, and
//! optionally into the typed [`Target`] view with named fields for the
//! well-known `target_*` keys. The builder, [`CargoRustcPrintCfg`], assembles
//! the argument list for the external command; running the command itself is
//! left to the caller, which hands the captured output back to
//! [`interpret_output`].

use vstd::prelude::*;

pub mod cfg;
pub mod command;
pub mod error;
pub mod output;
pub mod target;
pub mod target_cfg;
pub mod text;

pub use cfg::Cfg;
pub use cfg::CfgView;
pub use command::CargoRustcPrintCfg;
pub use command::CargoTarget;
pub use error::Error;
pub use output::interpret_output;
pub use output::parse_output;
pub use target::Target;
pub use target_cfg::RustcTargetCfg;

verus! {

/// The command line name of the Cargo application.
pub const CARGO: &'static str = "cargo";

/// The environment variable name for the Cargo application.
pub const CARGO_VARIABLE: &'static str = "CARGO";

/// The command line name of the Rust compiler subcommand for Cargo.
pub const RUSTC: &'static str = "rustc";

} // verus!
