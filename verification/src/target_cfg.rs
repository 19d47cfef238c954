//! The compiler configurations of a single compiler target: the parsed
//! entries of one block of `cargo rustc --print cfg` output, in input order.

use vstd::prelude::*;

use crate::cfg::parse_line;
use crate::cfg::Cfg;
use crate::cfg::CfgView;
use crate::text::spec_lines;
use crate::text::split_lines;
use crate::text::str_eq;

verus! {

/// The views of a sequence of configuration entries.
pub open spec fn cfg_views(s: Seq<Cfg>) -> Seq<CfgView> {
    s.map_values(|c: Cfg| c@)
}

/// Whether the entry answers a lookup for `id`: a name matches when it
/// equals `id`; a key-value pair matches when its key equals `id`.
pub open spec fn matches_id(c: CfgView, id: Seq<char>) -> bool {
    match c {
        CfgView::Name(n) => n == id,
        CfgView::KeyPair(k, _v) => k == id,
    }
}

/// The value a matching entry yields: the name itself for a name entry, and
/// the value for a key-value entry.
pub open spec fn value_of(c: CfgView) -> Seq<char> {
    match c {
        CfgView::Name(n) => n,
        CfgView::KeyPair(_k, v) => v,
    }
}

/// Whether the entry mentions `id`: a name matches when it equals `id`; a
/// key-value pair matches when its key or its value equals `id`.
pub open spec fn mentions_id(c: CfgView, id: Seq<char>) -> bool {
    match c {
        CfgView::Name(n) => n == id,
        CfgView::KeyPair(k, v) => k == id || v == id,
    }
}

/// A container for the compiler (rustc) configurations for a specific
/// compiler target.
#[derive(Clone, Debug, PartialEq)]
pub struct RustcTargetCfg(pub Vec<Cfg>);

impl View for RustcTargetCfg {
    type V = Seq<CfgView>;

    open spec fn view(&self) -> Seq<CfgView> {
        cfg_views(self.0@)
    }
}

impl RustcTargetCfg {
    /// The compiler configurations for the compiler (rustc) target, in the
    /// order their lines stood in the output.
    pub fn iter(&self) -> (r: &Vec<Cfg>)
        ensures
            cfg_views(r@) == self@,
    {
        &self.0
    }

    /// Parses the output block for one compiler target: every line becomes
    /// one configuration entry, in input order.
    pub fn from_str(s: &str) -> (r: RustcTargetCfg)
        ensures
            r@.len() == spec_lines(s@).len(),
            forall|i: int| 0 <= i < r@.len() ==> r@[i] == parse_line(spec_lines(s@)[i]),
    {
        let lines = split_lines(s);
        let mut entries: Vec<Cfg> = Vec::new();
        let mut i: usize = 0;
        while i < lines.len()
            invariant
                0 <= i <= lines.len(),
                lines@.len() == spec_lines(s@).len(),
                forall|j: int| 0 <= j < lines@.len() ==> lines@[j]@ == spec_lines(s@)[j],
                entries@.len() == i,
                forall|j: int| 0 <= j < i ==> entries@[j]@ == parse_line(spec_lines(s@)[j]),
            decreases lines.len() - i,
        {
            entries.push(Cfg::from_str(lines[i].as_str()));
            i = i + 1;
        }
        RustcTargetCfg(entries)
    }

    /// Returns a reference to the compiler configuration value with the
    /// corresponding identifier (ID).
    ///
    /// In the case of a name compiler configuration, the name is the value.
    /// If the compiler configuration is a key-value pair, the value will be
    /// returned if the key matches the ID. The first matching entry decides.
    pub fn get<'a>(&'a self, id: &str) -> (r: Option<&'a str>)
        ensures
            match r {
                Some(v) => exists|i: int|
                    0 <= i < self@.len() && matches_id(self@[i], id@) && v@ == value_of(self@[i])
                        && (forall|j: int| 0 <= j < i ==> !matches_id(self@[j], id@)),
                None => forall|i: int| 0 <= i < self@.len() ==> !matches_id(self@[i], id@),
            },
    {
        let n = self.0.len();
        let mut i: usize = 0;
        while i < n
            invariant
                0 <= i <= n,
                n == self@.len(),
                forall|j: int| 0 <= j < i ==> !matches_id(self@[j], id@),
            decreases n - i,
        {
            match &self.0[i] {
                Cfg::Name(name) => {
                    if str_eq(name.as_str(), id) {
                        proof {
                            assert(matches_id(self@[i as int], id@));
                        }
                        return Some(name.as_str());
                    }
                }
                Cfg::KeyPair(k, v) => {
                    if str_eq(k.as_str(), id) {
                        proof {
                            assert(matches_id(self@[i as int], id@));
                        }
                        return Some(v.as_str());
                    }
                }
            }
            i = i + 1;
        }
        None
    }

    /// Returns `true` if a compiler configuration matches the corresponding
    /// identifier (ID).
    ///
    /// In the case of a name compiler configuration, the name is the ID. If
    /// the compiler configuration is a key-value pair, then this will return
    /// `true` if either the key or the value match the ID.
    pub fn has(&self, id: &str) -> (r: bool)
        ensures
            r == exists|i: int| 0 <= i < self@.len() && mentions_id(self@[i], id@),
    {
        let n = self.0.len();
        let mut i: usize = 0;
        while i < n
            invariant
                0 <= i <= n,
                n == self@.len(),
                forall|j: int| 0 <= j < i ==> !mentions_id(self@[j], id@),
            decreases n - i,
        {
            match &self.0[i] {
                Cfg::Name(name) => {
                    if str_eq(name.as_str(), id) {
                        proof {
                            assert(mentions_id(self@[i as int], id@));
                        }
                        return true;
                    }
                }
                Cfg::KeyPair(k, v) => {
                    if str_eq(k.as_str(), id) || str_eq(v.as_str(), id) {
                        proof {
                            assert(mentions_id(self@[i as int], id@));
                        }
                        return true;
                    }
                }
            }
            i = i + 1;
        }
        false
    }
}

} // verus!
