//! Configuration layers: typed environment variables, environment-value
//! coercion, configuration-file discovery, and the configuration-file layer.

use vstd::prelude::*;
use vstd::string::StrSliceExecFns;
use vstd::string::StringExecFns;

use crate::resolve::RawLayer;

verus! {

/// Typed values of the fizzy environment variables, one per configuration
/// field: `fizzy_cfg`, `fizzy_verbosity` and `fizzy_simulate`.
#[derive(Debug, Clone, PartialEq, Eq)]
pub struct FizzyEnvVars {
    pub cfg_file_path: String,
    pub verbosity_level: Option<u64>,
    pub simulate: Option<bool>,
}

/// The configuration-file layer: every field optional, absent meaning the
/// file expresses no opinion.
#[derive(Debug, Clone, PartialEq, Eq)]
pub struct FizzyCfg {
    pub cfg_file_path: Option<String>,
    pub verbosity_level: Option<u64>,
    pub simulate: Option<bool>,
}

impl FizzyEnvVars {
    /// The environment layer these variables amount to: every variable that
    /// was set supplies its value, the others express no opinion.
    pub fn into_layer(self) -> (r: RawLayer)
        ensures
            r.cfg_file_path == Some(self.cfg_file_path),
            r.verbosity_level == self.verbosity_level,
            r.simulate == self.simulate,
    {
        RawLayer {
            cfg_file_path: Some(self.cfg_file_path),
            verbosity_level: self.verbosity_level,
            simulate: self.simulate,
        }
    }
}

impl FizzyCfg {
    /// The file layer as input for the resolver, field for field.
    pub fn into_layer(self) -> (r: RawLayer)
        ensures
            r.cfg_file_path == self.cfg_file_path,
            r.verbosity_level == self.verbosity_level,
            r.simulate == self.simulate,
    {
        RawLayer {
            cfg_file_path: self.cfg_file_path,
            verbosity_level: self.verbosity_level,
            simulate: self.simulate,
        }
    }
}

/// Whether `c` is a decimal digit.
pub open spec fn is_dec_digit(c: char) -> bool {
    '0' as int <= c as int && c as int <= '9' as int
}

/// The value of the decimal digit `c`.
pub open spec fn dec_digit_val(c: char) -> int {
    c as int - '0' as int
}

/// Whether every character of `s` is a decimal digit.
pub open spec fn all_dec_digits(s: Seq<char>) -> bool {
    forall|i: int| 0 <= i < s.len() ==> is_dec_digit(s[i])
}

/// The number that the digit string `s` denotes in base ten.
pub open spec fn dec_value(s: Seq<char>) -> int
    decreases s.len(),
{
    if s.len() == 0 {
        0
    } else {
        dec_value(s.drop_last()) * 10 + dec_digit_val(s.last())
    }
}

/// A digit string denotes a non-negative number.
proof fn lemma_dec_value_nonneg(s: Seq<char>)
    requires
        all_dec_digits(s),
    ensures
        dec_value(s) >= 0,
    decreases s.len(),
{
    if s.len() > 0 {
        lemma_dec_value_nonneg(s.drop_last());
    }
}

/// A prefix of a digit string denotes at most what the whole string denotes.
proof fn lemma_dec_value_prefix_le(s: Seq<char>, i: int)
    requires
        all_dec_digits(s),
        0 <= i <= s.len(),
    ensures
        dec_value(s.subrange(0, i)) <= dec_value(s),
    decreases s.len() - i,
{
    if i < s.len() {
        let shorter = s.subrange(0, i);
        let longer = s.subrange(0, i + 1);
        assert(longer.drop_last() =~= shorter);
        lemma_dec_value_nonneg(shorter);
        lemma_dec_value_prefix_le(s, i + 1);
    } else {
        assert(s.subrange(0, i) =~= s);
    }
}

/// What coercing an environment value to the verbosity level yields: the
/// denoted number when `s` is all decimal digits, non-empty, and in range;
/// otherwise nothing.
pub open spec fn spec_parse_verbosity(s: Seq<char>) -> Option<u64> {
    if s.len() > 0 && all_dec_digits(s) && dec_value(s) <= u64::MAX {
        Some(dec_value(s) as u64)
    } else {
        None
    }
}

/// Coerce an environment value to a verbosity level: the string must be
/// non-empty, all decimal digits, and denote a number that fits in `u64`;
/// any other value is malformed and yields `None`.
pub fn parse_verbosity(s: &str) -> (r: Option<u64>)
    ensures
        r == spec_parse_verbosity(s@),
{
    let n = s.unicode_len();
    if n == 0 {
        return None;
    }
    let mut acc: u64 = 0;
    let mut i: usize = 0;
    while i < n
        invariant
            0 < n == s@.len(),
            i <= n,
            all_dec_digits(s@.subrange(0, i as int)),
            acc == dec_value(s@.subrange(0, i as int)),
        decreases n - i,
    {
        let c = s.get_char(i);
        let code = c as u32;
        if code < 48 || code > 57 {
            proof {
                assert(!is_dec_digit(s@[i as int]));
            }
            return None;
        }
        let d = (code - 48) as u64;
        proof {
            assert(s@.subrange(0, i as int + 1).drop_last() =~= s@.subrange(0, i as int));
            assert(s@.subrange(0, i as int + 1).last() == s@[i as int]);
        }
        let widened = match acc.checked_mul(10) {
            Some(t) => t,
            None => {
                proof {
                    if all_dec_digits(s@) {
                        lemma_dec_value_prefix_le(s@, i as int + 1);
                    }
                }
                return None;
            },
        };
        acc = match widened.checked_add(d) {
            Some(v) => v,
            None => {
                proof {
                    if all_dec_digits(s@) {
                        lemma_dec_value_prefix_le(s@, i as int + 1);
                    }
                }
                return None;
            },
        };
        i += 1;
    }
    proof {
        assert(s@.subrange(0, n as int) =~= s@);
    }
    Some(acc)
}

/// Whether the character sequences `a` and `b` are the same.
pub fn str_equal(a: &str, b: &str) -> (r: bool)
    ensures
        r <==> a@ == b@,
{
    let na = a.unicode_len();
    let nb = b.unicode_len();
    if na != nb {
        return false;
    }
    let mut i: usize = 0;
    while i < na
        invariant
            na == a@.len(),
            nb == b@.len(),
            na == nb,
            i <= na,
            forall|j: int| 0 <= j < i ==> a@[j] == b@[j],
        decreases na - i,
    {
        let ca = a.get_char(i);
        let cb = b.get_char(i);
        if ca != cb {
            return false;
        }
        i += 1;
    }
    proof {
        assert(a@ =~= b@);
    }
    true
}

/// What coercing an environment value to the simulate flag yields: exactly
/// `"true"` and `"false"` are well-formed; every other value yields nothing.
pub open spec fn spec_parse_bool(s: Seq<char>) -> Option<bool> {
    if s == "true"@ {
        Some(true)
    } else if s == "false"@ {
        Some(false)
    } else {
        None
    }
}

/// Coerce an environment value to the simulate flag: `"true"` and `"false"`
/// are the only well-formed values; any other value is malformed and yields
/// `None`.
pub fn parse_bool_flag(s: &str) -> (r: Option<bool>)
    ensures
        r == spec_parse_bool(s@),
{
    if str_equal(s, "true") {
        Some(true)
    } else if str_equal(s, "false") {
        Some(false)
    } else {
        None
    }
}

/// The environment layer, from the raw values of the three fizzy environment
/// variables (`None` where the variable is unset).
///
/// Type coercion failures are recovered per field: a malformed value makes
/// that field absent in the layer, so resolution falls through to
/// lower-precedence layers or the defaults, and never fails. The caller can
/// diagnose a malformed field as one that was set but came back absent.
pub fn env_layer_from_raw(
    cfg_file_path: Option<String>,
    verbosity_level: Option<String>,
    simulate: Option<String>,
) -> (r: RawLayer)
    ensures
        r.cfg_file_path == cfg_file_path,
        r.verbosity_level == (match verbosity_level {
            Some(s) => spec_parse_verbosity(s@),
            None => None::<u64>,
        }),
        r.simulate == (match simulate {
            Some(s) => spec_parse_bool(s@),
            None => None::<bool>,
        }),
{
    let verbosity = match &verbosity_level {
        Some(s) => parse_verbosity(s.as_str()),
        None => None,
    };
    let sim = match &simulate {
        Some(s) => parse_bool_flag(s.as_str()),
        None => None,
    };
    RawLayer { cfg_file_path, verbosity_level: verbosity, simulate: sim }
}

/// The extension probed at position `k` of the canonical discovery order.
pub open spec fn spec_ext(k: int) -> Seq<char> {
    if k == 0 {
        "json"@
    } else if k == 1 {
        "toml"@
    } else if k == 2 {
        "yaml"@
    } else {
        "yml"@
    }
}

/// The path of discovery candidate `k` for the base path `base`.
pub open spec fn spec_candidate(base: Seq<char>, k: int) -> Seq<char> {
    base + "."@ + spec_ext(k)
}

/// The supported configuration-file extensions, in the canonical discovery
/// order: JSON before TOML before YAML, and `yaml` before `yml`.
pub fn cfg_extensions() -> (r: Vec<&'static str>)
    ensures
        r@.len() == 4,
        forall|k: int| 0 <= k < 4 ==> r@[k]@ == spec_ext(k),
{
    let mut v: Vec<&'static str> = Vec::new();
    v.push("json");
    v.push("toml");
    v.push("yaml");
    v.push("yml");
    v
}

/// The discovery candidate for `base` and the extension `ext`: the base path
/// with a dot and the extension appended.
pub fn candidate_path(base: &str, ext: &str) -> (r: String)
    ensures
        r@ == base@ + "."@ + ext@,
{
    let mut p = base.to_owned();
    p.append(".");
    p.append(ext);
    p
}

/// The position of the first `true` in `present`, if any.
pub fn first_present(present: &Vec<bool>) -> (r: Option<usize>)
    ensures
        r is None <==> (forall|j: int| 0 <= j < present@.len() ==> !present@[j]),
        r matches Some(i) ==> i < present@.len() && present@[i as int] && (forall|j: int|
            0 <= j < i ==> !present@[j]),
{
    let n = present.len();
    let mut i: usize = 0;
    while i < n
        invariant
            n == present@.len(),
            i <= n,
            forall|j: int| 0 <= j < i ==> !present@[j],
        decreases n - i,
    {
        if present[i] {
            return Some(i);
        }
        i += 1;
    }
    None
}

/// Discover the configuration file for the base path `base`.
///
/// The candidates are `base` with each supported extension appended, in the
/// canonical order of [`cfg_extensions`]; `present[k]` says whether candidate
/// `k` names an existing file. The first existing candidate wins, so when
/// both the JSON and the TOML candidate exist, the JSON candidate is chosen,
/// every time. When no candidate exists the file layer is simply absent,
/// which is not an error.
pub fn discover_cfg_path(base: &str, present: &Vec<bool>) -> (r: Option<String>)
    requires
        present@.len() == 4,
    ensures
        r is None <==> (forall|j: int| 0 <= j < 4 ==> !present@[j]),
        r matches Some(p) ==> (exists|k: int|
            0 <= k < 4 && present@[k] && (forall|j: int| 0 <= j < k ==> !present@[j])
                && p@ == spec_candidate(base@, k)),
        present@[0] ==> (r matches Some(p) && p@ == spec_candidate(base@, 0)),
{
    let exts = cfg_extensions();
    match first_present(present) {
        Some(i) => {
            let p = candidate_path(base, exts[i]);
            proof {
                assert(p@ == spec_candidate(base@, i as int));
            }
            Some(p)
        },
        None => None,
    }
}

/// Read fizzy configuration from `file_path` (default: guess the file path).
///
/// No configuration-file format is parsed here, so the file layer
/// expresses no opinion on any field, which is not an error.
pub fn read_fizzy_cfg(file_path: Option<String>) -> (r: FizzyCfg)
    ensures
        r.cfg_file_path is None,
        r.verbosity_level is None,
        r.simulate is None,
{
    let _ = file_path;
    FizzyCfg { cfg_file_path: None, verbosity_level: None, simulate: None }
}

} // verus!
