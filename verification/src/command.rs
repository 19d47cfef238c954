//! The builder for the `cargo rustc --print cfg` command line.
//!
//! The builder assembles the ordered argument list, beginning with the
//! program name, from its configuration knobs: a toolchain, extra Cargo
//! arguments, a Cargo build target, a manifest path, one or more compiler
//! targets, and compiler arguments passed through after the `--` separator.
//! Construction never fails; running the command and capturing its output
//! is the caller's part, and [`crate::interpret_output`] takes it from
//! there.

use vstd::prelude::*;

use crate::text::lemma_string_views_push;
use crate::text::string_views;

verus! {

/// The part of a package whose configuration the command asks about:
/// the library, or a binary, test, benchmark, or example by name.
#[derive(Clone, Debug, PartialEq)]
pub enum CargoTarget {
    /// The package's library.
    Lib,
    /// A binary of the package, by name.
    Bin(String),
    /// A test of the package, by name.
    Test(String),
    /// A benchmark of the package, by name.
    Bench(String),
    /// An example of the package, by name.
    Example(String),
}

impl CargoTarget {
    /// The command line arguments selecting this part of the package.
    pub open spec fn spec_args(&self) -> Seq<Seq<char>> {
        match self {
            CargoTarget::Lib => seq!["--lib"@],
            CargoTarget::Bin(name) => seq!["--bin"@, name@],
            CargoTarget::Test(name) => seq!["--test"@, name@],
            CargoTarget::Bench(name) => seq!["--bench"@, name@],
            CargoTarget::Example(name) => seq!["--example"@, name@],
        }
    }

    /// Converts the selector to its command line flag, with the name of the
    /// selected binary, test, benchmark, or example after it.
    pub fn to_args(&self) -> (r: Vec<String>)
        ensures
            string_views(r@) == self.spec_args(),
    {
        let mut args: Vec<String> = Vec::new();
        match self {
            CargoTarget::Lib => {
                args.push(String::from_str("--lib"));
            }
            CargoTarget::Bin(name) => {
                args.push(String::from_str("--bin"));
                args.push(name.clone());
            }
            CargoTarget::Test(name) => {
                args.push(String::from_str("--test"));
                args.push(name.clone());
            }
            CargoTarget::Bench(name) => {
                args.push(String::from_str("--bench"));
                args.push(name.clone());
            }
            CargoTarget::Example(name) => {
                args.push(String::from_str("--example"));
                args.push(name.clone());
            }
        }
        proof {
            assert(string_views(args@) =~= self.spec_args());
        }
        args
    }
}

/// The `--target <triple>` argument pairs for the given triples, in order.
pub open spec fn target_args(ts: Seq<Seq<char>>) -> Seq<Seq<char>>
    decreases ts.len(),
{
    if ts.len() == 0 {
        Seq::empty()
    } else {
        target_args(ts.drop_last()) + seq!["--target"@, ts.last()]
    }
}

/// The toolchain selector argument: `+` followed by the toolchain name,
/// when one is set.
pub open spec fn toolchain_args(t: Option<String>) -> Seq<Seq<char>> {
    match t {
        Some(tc) => seq![seq!['+'] + tc@],
        None => Seq::empty(),
    }
}

/// The Cargo build target selection arguments, when a selector is set.
pub open spec fn cargo_target_args(t: Option<CargoTarget>) -> Seq<Seq<char>> {
    match t {
        Some(ct) => ct.spec_args(),
        None => Seq::empty(),
    }
}

/// The `--manifest-path <path>` argument pair, when a path is set.
pub open spec fn manifest_args(p: Option<String>) -> Seq<Seq<char>> {
    match p {
        Some(m) => seq!["--manifest-path"@, m@],
        None => Seq::empty(),
    }
}

/// The trailing compiler arguments after the `--` separator, when there are
/// any.
pub open spec fn trailing_args(ra: Seq<Seq<char>>) -> Seq<Seq<char>> {
    if ra.len() > 0 {
        seq!["--"@] + ra
    } else {
        Seq::empty()
    }
}

/// A builder type for the `cargo rustc --print cfg` command.
///
/// For reference, the default command signature is:
///
/// ```text
/// cargo rustc --print cfg
/// ```
///
/// and the more generic command signature represented by this type is:
///
/// ```text
/// cargo +<TOOLCHAIN> rustc <CARGO_ARGS> <CARGO_TARGET> --manifest-path <PATH>
///       --target <RUSTC_TARGET>... --print cfg -- <RUSTC_ARGS>
/// ```
///
/// When more than one compiler target is set, the unstable `-Z multitarget`
/// flag is included before `--print cfg`.
#[derive(Clone, Debug, PartialEq)]
pub struct CargoRustcPrintCfg {
    /// Extra arguments for Cargo, after the `rustc` subcommand.
    pub cargo_args: Vec<String>,
    /// The part of the package to select, when not the default.
    pub cargo_target: Option<CargoTarget>,
    /// The toolchain to run Cargo with, without the leading `+`.
    pub cargo_toolchain: Option<String>,
    /// The path of the package's manifest, when not the current directory's.
    pub manifest_path: Option<String>,
    /// Compiler arguments, passed through after the `--` separator.
    pub rustc_args: Vec<String>,
    /// The compiler target triples to ask about; the host when empty.
    pub rustc_targets: Vec<String>,
}

impl CargoRustcPrintCfg {
    /// The full command line: the program name followed by the arguments,
    /// in order.
    pub open spec fn spec_command_line(&self) -> Seq<Seq<char>> {
        seq!["cargo"@] + toolchain_args(self.cargo_toolchain) + seq!["rustc"@] + string_views(
            self.cargo_args@,
        ) + cargo_target_args(self.cargo_target) + manifest_args(self.manifest_path) + target_args(
            string_views(self.rustc_targets@),
        ) + (if self.rustc_targets@.len() > 1 {
            seq!["-Z"@, "multitarget"@]
        } else {
            Seq::empty()
        }) + seq!["--print"@, "cfg"@] + trailing_args(string_views(self.rustc_args@))
    }

    /// Adds arguments to the Cargo command after the `rustc` subcommand but
    /// before any target selection.
    pub fn cargo_args(self, args: Vec<String>) -> (r: Self)
        ensures
            r == (CargoRustcPrintCfg { cargo_args: args, ..self }),
    {
        CargoRustcPrintCfg { cargo_args: args, ..self }
    }

    /// Selects the part of the package to ask about: the library, or a
    /// binary, test, benchmark, or example by name. When unset, the
    /// command selects nothing and Cargo's own default, the library,
    /// applies.
    pub fn cargo_target(self, target: CargoTarget) -> (r: Self)
        ensures
            r == (CargoRustcPrintCfg { cargo_target: Some(target), ..self }),
    {
        CargoRustcPrintCfg { cargo_target: Some(target), ..self }
    }

    /// Specifies a toolchain to use.
    ///
    /// The plus sign, `+`, is prepended automatically. Please do not include
    /// it as part of the toolchain value.
    pub fn cargo_toolchain(self, toolchain: String) -> (r: Self)
        ensures
            r == (CargoRustcPrintCfg { cargo_toolchain: Some(toolchain), ..self }),
    {
        CargoRustcPrintCfg { cargo_toolchain: Some(toolchain), ..self }
    }

    /// Sets the path to a package's manifest (Cargo.toml) to determine the
    /// compiler configuration for a project outside of the current working
    /// directory.
    pub fn manifest_path(self, path: String) -> (r: Self)
        ensures
            r == (CargoRustcPrintCfg { manifest_path: Some(path), ..self }),
    {
        CargoRustcPrintCfg { manifest_path: Some(path), ..self }
    }

    /// Adds compiler arguments to the command after the `--` separator.
    pub fn rustc_args(self, args: Vec<String>) -> (r: Self)
        ensures
            r == (CargoRustcPrintCfg { rustc_args: args, ..self }),
    {
        CargoRustcPrintCfg { rustc_args: args, ..self }
    }

    /// Adds one Rust compiler (rustc) target via a target triple.
    ///
    /// The `--target` argument is prepended automatically. Please do not
    /// include it as part of the target triple value.
    pub fn rustc_target(self, triple: String) -> (r: Self)
        ensures
            r.rustc_targets@ == self.rustc_targets@.push(triple),
            r.cargo_args == self.cargo_args,
            r.cargo_target == self.cargo_target,
            r.cargo_toolchain == self.cargo_toolchain,
            r.manifest_path == self.manifest_path,
            r.rustc_args == self.rustc_args,
    {
        let mut r = self;
        r.rustc_targets.push(triple);
        r
    }

    /// Adds multiple Rust compiler (rustc) targets via target triples,
    /// after any targets already set.
    ///
    /// The `--target` argument is prepended automatically. Please do not
    /// include it as part of the target triple values.
    pub fn rustc_targets(self, triples: Vec<String>) -> (r: Self)
        ensures
            r.rustc_targets@ == self.rustc_targets@ + triples@,
            r.cargo_args == self.cargo_args,
            r.cargo_target == self.cargo_target,
            r.cargo_toolchain == self.cargo_toolchain,
            r.manifest_path == self.manifest_path,
            r.rustc_args == self.rustc_args,
    {
        let mut r = self;
        let mut ts = triples;
        r.rustc_targets.append(&mut ts);
        r
    }

    /// Assembles the full command line for this configuration: the program
    /// name, `cargo`, followed by the arguments in order, ready to hand to
    /// a process execution primitive.
    pub fn command_line(&self) -> (r: Vec<String>)
        ensures
            string_views(r@) == self.spec_command_line(),
    {
        let mut args: Vec<String> = Vec::new();
        args.push(String::from_str("cargo"));
        let ghost part1 = seq!["cargo"@];
        proof {
            assert(string_views(args@) =~= part1);
        }
        if let Some(toolchain) = &self.cargo_toolchain {
            let selector = String::from_str("+").concat(toolchain.as_str());
            proof {
                reveal_strlit("+");
                assert(selector@ == seq!['+'] + toolchain@);
            }
            args.push(selector);
        }
        let ghost part2 = part1 + toolchain_args(self.cargo_toolchain);
        proof {
            assert(string_views(args@) =~= part2);
        }
        args.push(String::from_str("rustc"));
        let ghost part3 = part2 + seq!["rustc"@];
        proof {
            assert(string_views(args@) =~= part3);
        }
        let mut i: usize = 0;
        while i < self.cargo_args.len()
            invariant
                0 <= i <= self.cargo_args@.len(),
                string_views(args@) == part3 + string_views(self.cargo_args@).take(i as int),
            decreases self.cargo_args@.len() - i,
        {
            let ghost pre = args@;
            args.push(self.cargo_args[i].clone());
            proof {
                assert(args@ == pre.push(args@.last()));
                lemma_string_views_push(pre, args@.last());
                assert(args@.last()@ == self.cargo_args@[i as int]@);
                assert(string_views(self.cargo_args@).take(i + 1) =~= string_views(
                    self.cargo_args@,
                ).take(i as int).push(self.cargo_args@[i as int]@));
                assert(string_views(args@) =~= part3 + string_views(self.cargo_args@).take(
                    i + 1,
                ));
            }
            i = i + 1;
        }
        let ghost part4 = part3 + string_views(self.cargo_args@);
        proof {
            assert(string_views(self.cargo_args@).take(self.cargo_args@.len() as int)
                =~= string_views(self.cargo_args@));
        }
        if let Some(cargo_target) = &self.cargo_target {
            let mut selection = cargo_target.to_args();
            args.append(&mut selection);
            proof {
                assert(string_views(args@) =~= part4 + cargo_target.spec_args());
            }
        }
        let ghost part5 = part4 + cargo_target_args(self.cargo_target);
        proof {
            assert(string_views(args@) =~= part5);
        }
        if let Some(manifest_path) = &self.manifest_path {
            args.push(String::from_str("--manifest-path"));
            args.push(manifest_path.clone());
        }
        let ghost part6 = part5 + manifest_args(self.manifest_path);
        proof {
            assert(string_views(args@) =~= part6);
        }
        let ghost triples = string_views(self.rustc_targets@);
        let mut j: usize = 0;
        while j < self.rustc_targets.len()
            invariant
                0 <= j <= self.rustc_targets@.len(),
                triples == string_views(self.rustc_targets@),
                triples.len() == self.rustc_targets@.len(),
                string_views(args@) == part6 + target_args(triples.take(j as int)),
            decreases self.rustc_targets@.len() - j,
        {
            let ghost pre = args@;
            args.push(String::from_str("--target"));
            let ghost mid = args@;
            args.push(self.rustc_targets[j].clone());
            proof {
                assert(mid == pre.push(mid.last()));
                lemma_string_views_push(pre, mid.last());
                assert(args@ == mid.push(args@.last()));
                lemma_string_views_push(mid, args@.last());
                assert(args@.last()@ == triples[j as int]);
                assert(triples.take(j + 1).drop_last() =~= triples.take(j as int));
                assert(triples.take(j + 1).last() == triples[j as int]);
                assert(target_args(triples.take(j + 1)) == target_args(triples.take(j as int))
                    + seq!["--target"@, triples[j as int]]);
                assert(string_views(args@) =~= part6 + target_args(triples.take(j + 1)));
            }
            j = j + 1;
        }
        let ghost part7 = part6 + target_args(triples);
        proof {
            assert(triples.take(triples.len() as int) =~= triples);
        }
        if self.rustc_targets.len() > 1 {
            args.push(String::from_str("-Z"));
            args.push(String::from_str("multitarget"));
        }
        let ghost part8 = part7 + (if self.rustc_targets@.len() > 1 {
            seq!["-Z"@, "multitarget"@]
        } else {
            Seq::<Seq<char>>::empty()
        });
        proof {
            assert(string_views(args@) =~= part8);
        }
        args.push(String::from_str("--print"));
        args.push(String::from_str("cfg"));
        let ghost part9 = part8 + seq!["--print"@, "cfg"@];
        proof {
            assert(string_views(args@) =~= part9);
        }
        if self.rustc_args.len() > 0 {
            args.push(String::from_str("--"));
            let mut k: usize = 0;
            while k < self.rustc_args.len()
                invariant
                    0 <= k <= self.rustc_args@.len(),
                    string_views(args@) == part9 + seq!["--"@] + string_views(
                        self.rustc_args@,
                    ).take(k as int),
                decreases self.rustc_args@.len() - k,
            {
                let ghost pre = args@;
                args.push(self.rustc_args[k].clone());
                proof {
                    assert(args@ == pre.push(args@.last()));
                    lemma_string_views_push(pre, args@.last());
                    assert(args@.last()@ == self.rustc_args@[k as int]@);
                    assert(string_views(self.rustc_args@).take(k + 1) =~= string_views(
                        self.rustc_args@,
                    ).take(k as int).push(self.rustc_args@[k as int]@));
                    assert(string_views(args@) =~= part9 + seq!["--"@] + string_views(
                        self.rustc_args@,
                    ).take(k + 1));
                }
                k = k + 1;
            }
            proof {
                assert(string_views(self.rustc_args@).take(self.rustc_args@.len() as int)
                    =~= string_views(self.rustc_args@));
            }
        }
        proof {
            assert(string_views(args@) =~= self.spec_command_line());
        }
        args
    }
}

impl Default for CargoRustcPrintCfg {
    /// The default configuration: no toolchain, no extra arguments, no
    /// selection, no manifest path, and no compiler target, so that the
    /// command asks about the host.
    fn default() -> (r: Self)
        ensures
            r.cargo_args@ == Seq::<String>::empty(),
            r.cargo_target is None,
            r.cargo_toolchain is None,
            r.manifest_path is None,
            r.rustc_args@ == Seq::<String>::empty(),
            r.rustc_targets@ == Seq::<String>::empty(),
    {
        CargoRustcPrintCfg {
            cargo_args: Vec::new(),
            cargo_target: None,
            cargo_toolchain: None,
            manifest_path: None,
            rustc_args: Vec::new(),
            rustc_targets: Vec::new(),
        }
    }
}

} // verus!
