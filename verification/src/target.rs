//! The typed view of one compiler target's configuration: named fields for
//! the well-known `target_*` keys, with every other line kept verbatim.

use vstd::prelude::*;

use crate::cfg::parse_line;
use crate::cfg::Cfg;
use crate::cfg::CfgView;
use crate::error::Error;
use crate::text::spec_lines;
use crate::text::split_lines;
use crate::text::str_eq;
use crate::text::string_views;

verus! {

/// The view of an optional string.
pub open spec fn opt_view(o: Option<String>) -> Option<Seq<char>> {
    match o {
        Some(s) => Some(s@),
        None => None,
    }
}

/// An optional value with the empty value collapsed to absence: a line that
/// is present with an empty string value counts the same as a missing line.
pub open spec fn collapse_empty(o: Option<Seq<char>>) -> Option<Seq<char>> {
    match o {
        Some(v) => if v.len() == 0 {
            None
        } else {
            Some(v)
        },
        None => None,
    }
}

/// The state of a scan over the lines of one target's block: the last value
/// seen for each well-known key, the accumulated feature values, and the
/// unrecognized lines kept verbatim.
#[verifier::ext_equal]
pub ghost struct TargetScan {
    pub arch: Option<Seq<char>>,
    pub endian: Option<Seq<char>>,
    pub env: Option<Seq<char>>,
    pub family: Option<Seq<char>>,
    pub features: Seq<Seq<char>>,
    pub os: Option<Seq<char>>,
    pub pointer_width: Option<Seq<char>>,
    pub vendor: Option<Seq<char>>,
    pub extras: Seq<Seq<char>>,
}

/// The scan state before any line: nothing seen.
pub open spec fn scan_init() -> TargetScan {
    TargetScan {
        arch: None,
        endian: None,
        env: None,
        family: None,
        features: Seq::empty(),
        os: None,
        pointer_width: None,
        vendor: None,
        extras: Seq::empty(),
    }
}

/// One line folded into the scan state: a key-value line with a well-known
/// `target_*` key routes its value into the named field, `target_feature`
/// values accumulate in order, and any other line, bare name or unknown
/// key, is kept verbatim among the extras.
pub open spec fn scan_line(m: TargetScan, line: Seq<char>) -> TargetScan {
    match parse_line(line) {
        CfgView::KeyPair(k, v) => {
            if k == "target_arch"@ {
                TargetScan { arch: Some(v), ..m }
            } else if k == "target_endian"@ {
                TargetScan { endian: Some(v), ..m }
            } else if k == "target_env"@ {
                TargetScan { env: Some(v), ..m }
            } else if k == "target_family"@ {
                TargetScan { family: Some(v), ..m }
            } else if k == "target_feature"@ {
                TargetScan { features: m.features.push(v), ..m }
            } else if k == "target_os"@ {
                TargetScan { os: Some(v), ..m }
            } else if k == "target_pointer_width"@ {
                TargetScan { pointer_width: Some(v), ..m }
            } else if k == "target_vendor"@ {
                TargetScan { vendor: Some(v), ..m }
            } else {
                TargetScan { extras: m.extras.push(line), ..m }
            }
        }
        CfgView::Name(_) => TargetScan { extras: m.extras.push(line), ..m },
    }
}

/// The scan state after all lines, folded in input order.
pub open spec fn scan_lines(lines: Seq<Seq<char>>) -> TargetScan
    decreases lines.len(),
{
    if lines.len() == 0 {
        scan_init()
    } else {
        scan_line(scan_lines(lines.drop_last()), lines.last())
    }
}

/// The values of the `target_feature` lines, in input order.
pub open spec fn feature_values(lines: Seq<Seq<char>>) -> Seq<Seq<char>>
    decreases lines.len(),
{
    if lines.len() == 0 {
        Seq::empty()
    } else {
        let prev = feature_values(lines.drop_last());
        match parse_line(lines.last()) {
            CfgView::KeyPair(k, v) => if k == "target_feature"@ {
                prev.push(v)
            } else {
                prev
            },
            CfgView::Name(_) => prev,
        }
    }
}

/// Repeated `target_feature` lines accumulate into the feature list in
/// input order: the scan's feature list is exactly the sequence of the
/// `target_feature` values of the lines.
pub proof fn lemma_features_in_order(lines: Seq<Seq<char>>)
    ensures
        scan_lines(lines).features == feature_values(lines),
    decreases lines.len(),
{
    if lines.len() == 0 {
        assert(scan_lines(lines).features =~= feature_values(lines));
    } else {
        lemma_features_in_order(lines.drop_last());
        let prev = scan_lines(lines.drop_last());
        assert(scan_lines(lines) == scan_line(prev, lines.last()));
        match parse_line(lines.last()) {
            CfgView::KeyPair(k, v) => {
                if k == "target_feature"@ {
                    reveal_strlit("target_arch");
                    reveal_strlit("target_endian");
                    reveal_strlit("target_env");
                    reveal_strlit("target_family");
                    reveal_strlit("target_feature");
                    assert("target_feature"@.len() == 14);
                    assert("target_feature"@ != "target_arch"@);
                    assert("target_feature"@ != "target_endian"@);
                    assert("target_feature"@ != "target_env"@);
                    assert("target_feature"@ != "target_family"@);
                    assert(scan_line(prev, lines.last()).features == prev.features.push(v));
                    assert(feature_values(lines) == feature_values(lines.drop_last()).push(v));
                } else {
                    assert(scan_line(prev, lines.last()).features == prev.features);
                }
            }
            CfgView::Name(_) => {
                assert(scan_line(prev, lines.last()).features == prev.features);
            }
        }
    }
}

/// The typed compiler target configuration: named fields for the well-known
/// `target_*` keys of one target's `cargo rustc --print cfg` block.
///
/// The architecture, endianness, operating system, and pointer width are
/// always present; construction fails when their lines are missing. The
/// environment, family, and vendor are absent when their lines are missing
/// or hold an empty value. Features accumulate in input order, and every
/// line that is not a recognized `target_*` key-value pair is kept verbatim
/// in `extras`.
#[derive(Clone, Debug, PartialEq)]
pub struct Target {
    /// The value of the `target_arch` line, such as `x86_64`.
    pub arch: String,
    /// The value of the `target_endian` line, such as `little`.
    pub endian: String,
    /// The value of the `target_env` line, such as `msvc` or `gnu`, when
    /// present and non-empty.
    pub env: Option<String>,
    /// The value of the `target_family` line, such as `unix` or `windows`,
    /// when present and non-empty.
    pub family: Option<String>,
    /// The values of the `target_feature` lines, in input order.
    pub features: Vec<String>,
    /// The value of the `target_os` line, such as `linux`.
    pub os: String,
    /// The value of the `target_pointer_width` line, such as `64`.
    pub pointer_width: String,
    /// The value of the `target_vendor` line, such as `pc`, when present and
    /// non-empty.
    pub vendor: Option<String>,
    /// The lines that are neither recognized `target_*` key-value pairs nor
    /// blank, kept verbatim with their original quoting.
    pub extras: Vec<String>,
}

impl Target {
    /// Parses the output block of one compiler target into the typed view.
    ///
    /// Each line is classified as under [`scan_line`]; when one of the four
    /// mandatory lines (`target_arch`, `target_endian`, `target_os`,
    /// `target_pointer_width`) is missing, the result is a missing-output
    /// error naming the first absent key, in that order.
    pub fn from_str(s: &str) -> (r: Result<Target, Error>)
        ensures
            ({
                let m = scan_lines(spec_lines(s@));
                match r {
                    Ok(t) => m.arch is Some && m.endian is Some && m.os is Some
                        && m.pointer_width is Some && t.arch@ == m.arch->0 && t.endian@
                        == m.endian->0 && opt_view(t.env) == collapse_empty(m.env) && opt_view(
                        t.family,
                    ) == collapse_empty(m.family) && string_views(t.features@) == m.features
                        && t.os@ == m.os->0 && t.pointer_width@ == m.pointer_width->0 && opt_view(
                        t.vendor,
                    ) == collapse_empty(m.vendor) && string_views(t.extras@) == m.extras,
                    Err(e) => e matches Error::MissingOutput(key) && ((m.arch is None && key@
                        == "target_arch"@) || (m.arch is Some && m.endian is None && key@
                        == "target_endian"@) || (m.arch is Some && m.endian is Some && m.os is None
                        && key@ == "target_os"@) || (m.arch is Some && m.endian is Some
                        && m.os is Some && m.pointer_width is None && key@
                        == "target_pointer_width"@)),
                }
            }),
    {
        let ghost lv = spec_lines(s@);
        let lines = split_lines(s);
        let mut arch: Option<String> = None;
        let mut endian: Option<String> = None;
        let mut env: Option<String> = None;
        let mut family: Option<String> = None;
        let mut features: Vec<String> = Vec::new();
        let mut os: Option<String> = None;
        let mut pointer_width: Option<String> = None;
        let mut vendor: Option<String> = None;
        let mut extras: Vec<String> = Vec::new();
        let mut i: usize = 0;
        proof {
            assert(lv.take(0) =~= Seq::<Seq<char>>::empty());
            assert(string_views(features@) =~= scan_lines(lv.take(0)).features);
            assert(string_views(extras@) =~= scan_lines(lv.take(0)).extras);
        }
        while i < lines.len()
            invariant
                0 <= i <= lines.len(),
                lines@.len() == lv.len(),
                forall|j: int| 0 <= j < lv.len() ==> lines@[j]@ == lv[j],
                opt_view(arch) == scan_lines(lv.take(i as int)).arch,
                opt_view(endian) == scan_lines(lv.take(i as int)).endian,
                opt_view(env) == scan_lines(lv.take(i as int)).env,
                opt_view(family) == scan_lines(lv.take(i as int)).family,
                string_views(features@) == scan_lines(lv.take(i as int)).features,
                opt_view(os) == scan_lines(lv.take(i as int)).os,
                opt_view(pointer_width) == scan_lines(lv.take(i as int)).pointer_width,
                opt_view(vendor) == scan_lines(lv.take(i as int)).vendor,
                string_views(extras@) == scan_lines(lv.take(i as int)).extras,
            decreases lines.len() - i,
        {
            proof {
                assert(lv.take(i + 1).drop_last() =~= lv.take(i as int));
                assert(lv.take(i + 1).last() == lv[i as int]);
            }
            let ghost pre_features = features@;
            let ghost pre_extras = extras@;
            let entry = Cfg::from_str(lines[i].as_str());
            match entry {
                Cfg::KeyPair(k, v) => {
                    if str_eq(k.as_str(), "target_arch") {
                        arch = Some(v);
                    } else if str_eq(k.as_str(), "target_endian") {
                        endian = Some(v);
                    } else if str_eq(k.as_str(), "target_env") {
                        env = Some(v);
                    } else if str_eq(k.as_str(), "target_family") {
                        family = Some(v);
                    } else if str_eq(k.as_str(), "target_feature") {
                        features.push(v);
                        proof {
                            assert(string_views(features@) =~= string_views(pre_features).push(
                                features@.last()@,
                            ));
                        }
                    } else if str_eq(k.as_str(), "target_os") {
                        os = Some(v);
                    } else if str_eq(k.as_str(), "target_pointer_width") {
                        pointer_width = Some(v);
                    } else if str_eq(k.as_str(), "target_vendor") {
                        vendor = Some(v);
                    } else {
                        extras.push(lines[i].clone());
                        proof {
                            assert(string_views(extras@) =~= string_views(pre_extras).push(
                                extras@.last()@,
                            ));
                        }
                    }
                }
                Cfg::Name(_) => {
                    extras.push(lines[i].clone());
                    proof {
                        assert(string_views(extras@) =~= string_views(pre_extras).push(
                            extras@.last()@,
                        ));
                    }
                }
            }
            i = i + 1;
        }
        proof {
            assert(lv.take(lines@.len() as int) =~= lv);
        }
        let arch = match arch {
            Some(a) => a,
            None => {
                return Err(Error::MissingOutput(String::from_str("target_arch")));
            }
        };
        let endian = match endian {
            Some(e) => e,
            None => {
                return Err(Error::MissingOutput(String::from_str("target_endian")));
            }
        };
        let os = match os {
            Some(o) => o,
            None => {
                return Err(Error::MissingOutput(String::from_str("target_os")));
            }
        };
        let pointer_width = match pointer_width {
            Some(p) => p,
            None => {
                return Err(Error::MissingOutput(String::from_str("target_pointer_width")));
            }
        };
        let env = match env {
            Some(e) => if e.as_str().unicode_len() == 0 {
                None
            } else {
                Some(e)
            },
            None => None,
        };
        let family = match family {
            Some(f) => if f.as_str().unicode_len() == 0 {
                None
            } else {
                Some(f)
            },
            None => None,
        };
        let vendor = match vendor {
            Some(v) => if v.as_str().unicode_len() == 0 {
                None
            } else {
                Some(v)
            },
            None => None,
        };
        Ok(
            Target {
                arch,
                endian,
                env,
                family,
                features,
                os,
                pointer_width,
                vendor,
                extras,
            },
        )
    }
}

} // verus!
