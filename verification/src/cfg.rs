//! A single compiler configuration line: either a bare name such as `unix`,
//! or a key-value pair such as `target_os="linux"`.

use vstd::prelude::*;

use crate::text::contains_char;
use crate::text::find_char;
use crate::text::first_index_of;
use crate::text::lemma_first_index_of_contains;
use crate::text::lemma_first_index_of_is;

verus! {

/// The mathematical model of a configuration line.
#[verifier::ext_equal]
pub ghost enum CfgView {
    /// A bare configuration name.
    Name(Seq<char>),
    /// A key and a value, with surrounding double quotes already removed
    /// from the value.
    KeyPair(Seq<char>, Seq<char>),
}

/// A compiler (rustc) configuration statement, or line, from the output of
/// the `cargo rustc --print cfg` command.
///
/// A compiler configuration is either a `Name` configuration, like `unix` or
/// `debug_assertions`, or a `KeyPair` configuration, like
/// `target_os="windows"`.
#[derive(Clone, Debug, PartialEq)]
pub enum Cfg {
    /// A compiler configuration like `unix`, `windows`, `debug_assertions`,
    /// etc.
    Name(String),
    /// A compiler configuration with a key and value separated by the equal
    /// sign, `=`, like `target_arch="x86_64"`, etc. The surrounding double
    /// quotes are removed from the value.
    KeyPair(String, String),
}

impl View for Cfg {
    type V = CfgView;

    open spec fn view(&self) -> CfgView {
        match self {
            Cfg::Name(n) => CfgView::Name(n@),
            Cfg::KeyPair(k, v) => CfgView::KeyPair(k@, v@),
        }
    }
}

/// One pair of surrounding double quotes removed from `v`, when the first
/// and last characters are both double quotes; `v` unchanged otherwise.
pub open spec fn strip_quotes(v: Seq<char>) -> Seq<char> {
    if v.len() >= 2 && v[0] == '"' && v[v.len() - 1] == '"' {
        v.subrange(1, v.len() - 1)
    } else {
        v
    }
}

/// The model of parsing one line: a line without `=` is a bare name; a line
/// with `=` is split at the first `=`, the left part is the key and the
/// right part, quote-stripped, is the value.
pub open spec fn parse_line(s: Seq<char>) -> CfgView {
    let i = first_index_of(s, '=');
    if 0 <= i < s.len() {
        CfgView::KeyPair(s.subrange(0, i), strip_quotes(s.subrange(i + 1, s.len() as int)))
    } else {
        CfgView::Name(s)
    }
}

/// The text of one entry: a bare name is its name; a key-value pair is
/// written `key="value"`.
pub open spec fn format_line(c: CfgView) -> Seq<char> {
    match c {
        CfgView::Name(t) => t,
        CfgView::KeyPair(k, v) => k + seq!['='] + seq!['"'] + v + seq!['"'],
    }
}

/// A line without `=` parses to a bare name carrying the whole line.
pub proof fn lemma_parse_bare_name(s: Seq<char>)
    requires
        !contains_char(s, '='),
    ensures
        parse_line(s) == CfgView::Name(s),
{
    lemma_first_index_of_contains(s, '=');
}

/// A line `k="v"` parses to the pair of `k` and `v` with the quotes
/// stripped, and a line `k=v` whose value does not look quoted parses to the
/// pair of `k` and `v` unchanged, whenever the key contains no `=`.
pub proof fn lemma_parse_key_value(k: Seq<char>, v: Seq<char>, quoted: bool)
    requires
        !contains_char(k, '='),
    ensures
        quoted ==> parse_line(k + seq!['='] + seq!['"'] + v + seq!['"']) == CfgView::KeyPair(k, v),
        !quoted && !(v.len() >= 2 && v[0] == '"' && v[v.len() - 1] == '"') ==> parse_line(
            k + seq!['='] + v,
        ) == CfgView::KeyPair(k, v),
{
    if quoted {
        let s = k + seq!['='] + seq!['"'] + v + seq!['"'];
        assert forall|j: int| 0 <= j < k.len() implies s[j] != '=' by {
            assert(s[j] == k[j]);
            if s[j] == '=' {
                assert(contains_char(k, '='));
            }
        }
        assert(s[k.len() as int] == '=');
        lemma_first_index_of_is(s, '=', k.len() as int);
        let raw = s.subrange(k.len() as int + 1, s.len() as int);
        assert(raw =~= seq!['"'] + v + seq!['"']);
        assert(raw[0] == '"');
        assert(raw[raw.len() - 1] == '"');
        assert(strip_quotes(raw) =~= v);
        assert(s.subrange(0, k.len() as int) =~= k);
    } else {
        let s = k + seq!['='] + v;
        assert forall|j: int| 0 <= j < k.len() implies s[j] != '=' by {
            assert(s[j] == k[j]);
            if s[j] == '=' {
                assert(contains_char(k, '='));
            }
        }
        assert(s[k.len() as int] == '=');
        lemma_first_index_of_is(s, '=', k.len() as int);
        let raw = s.subrange(k.len() as int + 1, s.len() as int);
        assert(raw =~= v);
        assert(s.subrange(0, k.len() as int) =~= k);
    }
}

/// Round trip: formatting an entry and parsing the text again yields the
/// entry back, as long as a bare name contains no `=` and the key of a pair
/// contains no `=`. The value of a pair is unconstrained: the quotes written
/// around it keep any `=` inside it to the right of the first `=` of the
/// line, and quote stripping removes exactly the written pair.
pub proof fn lemma_round_trip(c: CfgView)
    requires
        c matches CfgView::Name(t) ==> !contains_char(t, '='),
        c matches CfgView::KeyPair(k, v) ==> !contains_char(k, '='),
    ensures
        parse_line(format_line(c)) == c,
{
    match c {
        CfgView::Name(t) => {
            lemma_parse_bare_name(t);
        }
        CfgView::KeyPair(k, v) => {
            lemma_parse_key_value(k, v, true);
        }
    }
}

impl Cfg {
    /// Parses one line of `cargo rustc --print cfg` output.
    ///
    /// A line without an equal sign, `=`, is a name configuration. A line
    /// with an equal sign is split at its first equal sign into the key and
    /// the value, and one pair of double quotes surrounding the value is
    /// removed. Parsing never fails: every line is one or the other.
    pub fn from_str(s: &str) -> (r: Cfg)
        ensures
            r@ == parse_line(s@),
    {
        let n = s.unicode_len();
        let i = find_char(s, '=', 0);
        proof {
            lemma_first_index_of_is(s@, '=', i as int);
        }
        if i == n {
            Cfg::Name(String::from_str(s))
        } else {
            let key = s.substring_char(0, i);
            let quoted = n - (i + 1) >= 2 && s.get_char(i + 1) == '"' && s.get_char(n - 1) == '"';
            let value = if quoted {
                s.substring_char(i + 2, n - 1)
            } else {
                s.substring_char(i + 1, n)
            };
            proof {
                let raw = s@.subrange(i + 1, n as int);
                if quoted {
                    assert(raw[0] == s@[i + 1]);
                    assert(raw[raw.len() - 1] == s@[n - 1]);
                    assert(strip_quotes(raw) =~= s@.subrange(i + 2, n - 1));
                } else {
                    if raw.len() >= 2 && raw[0] == '"' && raw[raw.len() - 1] == '"' {
                        assert(s@[i + 1] == raw[0]);
                        assert(s@[n - 1] == raw[raw.len() - 1]);
                    }
                    assert(strip_quotes(raw) == raw);
                }
            }
            Cfg::KeyPair(String::from_str(key), String::from_str(value))
        }
    }

    /// Formats the configuration back to one line of text: a name is written
    /// as it is, and a key-value pair is written `key="value"`.
    pub fn to_line(&self) -> (r: String)
        ensures
            r@ == format_line(self@),
    {
        match self {
            Cfg::Name(n) => n.clone(),
            Cfg::KeyPair(k, v) => {
                let mut s = k.clone();
                s.append("=\"");
                s.append(v.as_str());
                s.append("\"");
                proof {
                    reveal_strlit("=\"");
                    reveal_strlit("\"");
                    assert(s@ =~= format_line(self@));
                }
                s
            }
        }
    }

    /// Gets the name configuration.
    ///
    /// This will return `None` if the configuration is not a name
    /// configuration.
    pub fn name(&self) -> (r: Option<&str>)
        ensures
            match r {
                Some(n) => self@ matches CfgView::Name(t) && n@ == t,
                None => self@ is KeyPair,
            },
    {
        match self {
            Cfg::Name(n) => Some(n.as_str()),
            Cfg::KeyPair(..) => None,
        }
    }

    /// Gets the key-value pair configuration.
    ///
    /// This will return `None` if the configuration is not a key-value pair
    /// configuration.
    pub fn key_pair(&self) -> (r: Option<(&str, &str)>)
        ensures
            match r {
                Some(p) => self@ matches CfgView::KeyPair(k, v) && p.0@ == k && p.1@ == v,
                None => self@ is Name,
            },
    {
        match self {
            Cfg::Name(..) => None,
            Cfg::KeyPair(k, v) => Some((k.as_str(), v.as_str())),
        }
    }

    /// Gets the key part of the key-value pair configuration.
    ///
    /// This will return `None` if the configuration is not a key-value pair
    /// configuration.
    pub fn key(&self) -> (r: Option<&str>)
        ensures
            match r {
                Some(s) => self@ matches CfgView::KeyPair(k, _v) && s@ == k,
                None => self@ is Name,
            },
    {
        match self {
            Cfg::Name(..) => None,
            Cfg::KeyPair(k, ..) => Some(k.as_str()),
        }
    }

    /// Gets the value part of the key-value pair configuration.
    ///
    /// This will return `None` if the configuration is not a key-value pair
    /// configuration.
    pub fn value(&self) -> (r: Option<&str>)
        ensures
            match r {
                Some(s) => self@ matches CfgView::KeyPair(_k, v) && s@ == v,
                None => self@ is Name,
            },
    {
        match self {
            Cfg::Name(..) => None,
            Cfg::KeyPair(.., v) => Some(v.as_str()),
        }
    }

    /// Checks if this is a name configuration.
    ///
    /// Returns `true` if this is a name configuration; otherwise, this
    /// returns `false`.
    pub fn is_name(&self) -> (r: bool)
        ensures
            r == (self@ is Name),
    {
        match self {
            Cfg::Name(..) => true,
            Cfg::KeyPair(..) => false,
        }
    }

    /// Checks if this is a key-value pair configuration.
    ///
    /// Returns `true` if this is a key-value pair configuration; otherwise,
    /// this returns `false`.
    pub fn is_key_pair(&self) -> (r: bool)
        ensures
            r == (self@ is KeyPair),
    {
        match self {
            Cfg::Name(..) => false,
            Cfg::KeyPair(..) => true,
        }
    }

    /// Gets the name configuration.
    ///
    /// This will return `None` if this is not a name configuration.
    /// Regardless, it will consume this configuration.
    pub fn into_name(self) -> (r: Option<String>)
        ensures
            match r {
                Some(n) => self@ matches CfgView::Name(t) && n@ == t,
                None => self@ is KeyPair,
            },
    {
        match self {
            Cfg::Name(n) => Some(n),
            Cfg::KeyPair(..) => None,
        }
    }

    /// Gets the key-value pair configuration.
    ///
    /// This will return `None` if this is not a key-value pair
    /// configuration. Regardless, it will consume this configuration.
    pub fn into_key_pair(self) -> (r: Option<(String, String)>)
        ensures
            match r {
                Some(p) => self@ matches CfgView::KeyPair(k, v) && p.0@ == k && p.1@ == v,
                None => self@ is Name,
            },
    {
        match self {
            Cfg::Name(..) => None,
            Cfg::KeyPair(k, v) => Some((k, v)),
        }
    }
}

} // verus!
