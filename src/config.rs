use vstd::prelude::*;

use crate::error::Error;
use crate::metrics::strings_view;
use crate::text::{lemma_lex_total, lemma_lex_transitive, lex_lt, str_lt};

verus! {

/// Paths of the TLS key and certificate of the metrics endpoint.
#[derive(Debug)]
pub struct TLS {
    pub key: String,
    pub cert: String,
}

/// The TLS settings: both paths, or none.
pub fn tls_config(key: Option<String>, cert: Option<String>) -> (r: Option<TLS>)
    ensures
        (key is Some && cert is Some) ==> r == Some(TLS { key: key->Some_0, cert: cert->Some_0 }),
        (key is None || cert is None) ==> r is None,
{
    match (key, cert) {
        (Some(key), Some(cert)) => Some(TLS { key, cert }),
        _ => None,
    }
}

/// How much the exporter logs.
#[derive(PartialEq, Eq, Structural, Clone, Copy, Debug)]
pub enum LogLevel {
    Trace,
    Debug,
    Info,
    Warn,
}

/// The log level from the number of debug flags, the quiet flag, and
/// whether this is a debug build: two debug flags give tracing, a debug
/// build or one flag debugging, the quiet flag warnings only.
pub fn log_level(debug_flags: u64, quiet: bool, debug_build: bool) -> (r: LogLevel)
    ensures
        r == (if debug_flags >= 2 {
            LogLevel::Trace
        } else if debug_build || debug_flags == 1 {
            LogLevel::Debug
        } else if quiet {
            LogLevel::Warn
        } else {
            LogLevel::Info
        }),
{
    if debug_flags >= 2 {
        LogLevel::Trace
    } else if debug_build || debug_flags == 1 {
        LogLevel::Debug
    } else if quiet {
        LogLevel::Warn
    } else {
        LogLevel::Info
    }
}

/// Each item comes strictly before the next ones.
pub open spec fn strictly_sorted(s: Seq<Seq<char>>) -> bool {
    forall|i: int, j: int| 0 <= i < j < s.len() ==> lex_lt(#[trigger] s[i], #[trigger] s[j])
}

fn insert_sorted(out: &mut Vec<String>, x: String)
    requires
        strictly_sorted(strings_view(old(out)@)),
    ensures
        strictly_sorted(strings_view(final(out)@)),
        forall|t: Seq<char>|
            strings_view(final(out)@).contains(t) <==> (strings_view(old(out)@).contains(t) || t == x@),
{
    let ghost before = strings_view(out@);
    let mut i: usize = 0;
    while i < out.len() && str_lt(out[i].as_str(), x.as_str())
        invariant
            i <= out@.len(),
            out@ == old(out)@,
            before == strings_view(out@),
            forall|k: int| 0 <= k < i ==> lex_lt(#[trigger] before[k], x@),
        decreases out.len() - i,
    {
        i = i + 1;
    }
    if i < out.len() && out[i] == x {
        assert forall|t: Seq<char>| before.contains(t) <==> (before.contains(t) || t == x@) by {
            if t == x@ {
                assert(before[i as int] == t);
            }
        }
        return;
    }
    proof {
        if i < out@.len() {
            lemma_lex_total(x@, before[i as int]);
            assert forall|j: int| i <= j < before.len() implies lex_lt(x@, #[trigger] before[j]) by {
                if j > i {
                    lemma_lex_transitive(x@, before[i as int], before[j]);
                }
            }
        }
    }
    out.insert(i, x);
    proof {
        let after = strings_view(out@);
        assert(after =~= before.insert(i as int, x@));
        assert forall|a: int, b: int| 0 <= a < b < after.len() implies lex_lt(#[trigger] after[a], #[trigger] after[b]) by {
            if a < i && i < b {
                lemma_lex_transitive(after[a], x@, after[b]);
            }
        }
        assert forall|t: Seq<char>| after.contains(t) <==> (before.contains(t) || t == x@) by {
            if after.contains(t) {
                let k = choose|k: int| 0 <= k < after.len() && after[k] == t;
                if k < i {
                    assert(before[k] == t);
                } else if k > i {
                    assert(before[k - 1] == t);
                }
            }
            if before.contains(t) {
                let k = choose|k: int| 0 <= k < before.len() && before[k] == t;
                if k < i {
                    assert(after[k] == t);
                } else {
                    assert(after[k + 1] == t);
                }
            }
            if t == x@ {
                assert(after[i as int] == t);
            }
        }
    }
}

/// The items of `v` in the order of `String`, each once.
pub fn sorted_unique(v: Vec<String>) -> (r: Vec<String>)
    ensures
        strictly_sorted(strings_view(r@)),
        forall|t: Seq<char>| strings_view(r@).contains(t) <==> strings_view(v@).contains(t),
{
    let mut out: Vec<String> = Vec::new();
    let mut i: usize = 0;
    while i < v.len()
        invariant
            i <= v@.len(),
            strictly_sorted(strings_view(out@)),
            forall|t: Seq<char>|
                strings_view(out@).contains(t) <==> strings_view(v@).subrange(0, i as int).contains(t),
        decreases v.len() - i,
    {
        insert_sorted(&mut out, v[i].clone());
        proof {
            let vs = strings_view(v@);
            assert(vs.subrange(0, i + 1) =~= vs.subrange(0, i as int).push(vs[i as int]));
            assert forall|t: Seq<char>|
                vs.subrange(0, i + 1).contains(t) <==> (vs.subrange(0, i as int).contains(t) || t == vs[i as int]) by {
                if vs.subrange(0, i as int).contains(t) {
                    let k = choose|k: int| 0 <= k < i && vs.subrange(0, i as int)[k] == t;
                    assert(vs.subrange(0, i + 1)[k] == t);
                }
                if t == vs[i as int] {
                    assert(vs.subrange(0, i + 1)[i as int] == t);
                }
            }
        }
        i = i + 1;
    }
    assert(strings_view(v@).subrange(0, i as int) =~= strings_view(v@));
    out
}

/// The region filter: the given regions and the `global` pseudo-region,
/// sorted, each once.
pub fn normalize_regions(regions: Vec<String>) -> (r: Vec<String>)
    ensures
        strictly_sorted(strings_view(r@)),
        forall|t: Seq<char>|
            strings_view(r@).contains(t) <==> (strings_view(regions@).contains(t) || t == "global"@),
{
    let mut all = regions;
    let ghost given = strings_view(all@);
    all.push(String::from_str("global"));
    proof {
        let vs = strings_view(all@);
        assert(vs =~= given.push("global"@));
        assert forall|t: Seq<char>| vs.contains(t) <==> (given.contains(t) || t == "global"@) by {
            if given.contains(t) {
                let k = choose|k: int| 0 <= k < given.len() && given[k] == t;
                assert(vs[k] == t);
            }
            if t == "global"@ {
                assert(vs[given.len() as int] == t);
            }
        }
    }
    sorted_unique(all)
}

/// The service filter: the given services, sorted, each once.
pub fn normalize_services(services: Vec<String>) -> (r: Vec<String>)
    ensures
        strictly_sorted(strings_view(r@)),
        forall|t: Seq<char>| strings_view(r@).contains(t) <==> strings_view(services@).contains(t),
{
    sorted_unique(services)
}

/// What rusoto's `Region::from_str` gives for a name: `Ok` for a region it
/// knows, else the text of its `ParseRegionError`.
pub uninterp spec fn region_parse(name: Seq<char>) -> Result<(), Seq<char>>;

/// Relies on rusoto_signature's `Region::from_str`, which accepts the names
/// of the regions it knows, and on the `Display` of its `ParseRegionError`,
/// which writes the error's message.
#[verifier::external_body]
fn parse_region(name: &str) -> (r: Result<(), String>)
    ensures
        match r {
            Ok(_) => region_parse(name@) is Ok,
            Err(m) => region_parse(name@) == Err::<(), Seq<char>>(m@),
        },
{
    match <rusoto_signature::region::Region as std::str::FromStr>::from_str(name) {
        Ok(_) => Ok(()),
        Err(e) => Err(e.to_string()),
    }
}

/// Accepts `all` and the names of known regions; for any other name, the
/// parser's message.
pub fn validate_region(region: String) -> (r: Result<(), String>)
    ensures
        region@ == "all"@ ==> r is Ok,
        region@ != "all"@ ==> match r {
            Ok(_) => region_parse(region@) is Ok,
            Err(m) => region_parse(region@) == Err::<(), Seq<char>>(m@),
        },
{
    if region == String::from_str("all") {
        return Ok(());
    }
    parse_region(region.as_str())
}

/// A region that a role-assumption endpoint is asked for, as the scraper
/// checks it: an unknown name is an `InvalidRegion`.
pub fn check_region(region: &String) -> (r: Result<(), Error>)
    ensures
        region_parse(region@) is Ok ==> r is Ok,
        region_parse(region@) is Err ==> r is Err && r->Err_0 is InvalidRegion
            && region_parse(region@) == Err::<(), Seq<char>>(r->Err_0->InvalidRegion_0@),
{
    match parse_region(region.as_str()) {
        Ok(()) => Ok(()),
        Err(m) => Err(Error::InvalidRegion(m)),
    }
}

/// The form that an IAM role ARN must contain, in any case.
pub const ROLE_ARN_PATTERN: &'static str = r"(?i:arn:aws:iam::\d{12}:role/.*)";

/// What the regex crate reports for `pattern` searched for in `text`: none
/// when the pattern does not compile, else whether it matches anywhere in
/// the text.
pub uninterp spec fn regex_search(pattern: Seq<char>, text: Seq<char>) -> Option<bool>;

/// Relies on regex's `Regex::new`, which compiles a pattern or refuses it,
/// and on `Regex::is_match`, which tells whether the compiled pattern
/// matches anywhere in a text.
#[verifier::external_body]
fn search(pattern: &str, text: &str) -> (r: Option<bool>)
    ensures
        r == regex_search(pattern@, text@),
{
    match regex::Regex::new(pattern) {
        Ok(re) => Some(re.is_match(text)),
        Err(_) => None,
    }
}

pub open spec fn short_arn_message() -> Seq<char> {
    "Must have length greater than or equal to 20"@
}

pub open spec fn arn_form_message() -> Seq<char> {
    "must be of the form `arn:aws:iam::123456789012:role/something`"@
}

pub open spec fn arn_pattern_message() -> Seq<char> {
    "the role ARN pattern does not compile"@
}

/// The verdict on a role ARN of at least 20 bytes, given the search for
/// the ARN form in it.
pub open spec fn role_arn_verdict_spec(found: Option<bool>) -> Result<(), Seq<char>> {
    match found {
        Some(true) => Ok(()),
        Some(false) => Err(arn_form_message()),
        None => Err(arn_pattern_message()),
    }
}

/// The text of a verdict.
pub open spec fn verdict_view(r: Result<(), String>) -> Result<(), Seq<char>> {
    match r {
        Ok(()) => Ok(()),
        Err(m) => Err(m@),
    }
}

pub fn role_arn_verdict(found: Option<bool>) -> (r: Result<(), String>)
    ensures
        verdict_view(r) == role_arn_verdict_spec(found),
{
    match found {
        Some(true) => Ok(()),
        Some(false) => Err(String::from_str("must be of the form `arn:aws:iam::123456789012:role/something`")),
        None => Err(String::from_str("the role ARN pattern does not compile")),
    }
}

/// Checks that a role ARN is at least 20 bytes long and holds the form
/// `arn:aws:iam::<12 digits>:role/<name>`.
pub fn validate_role_arn(role_arn: String) -> (r: Result<(), String>)
    ensures
        vstd::utf8::encode_utf8(role_arn@).len() < 20 ==> verdict_view(r) == Err::<(), Seq<char>>(
            short_arn_message(),
        ),
        vstd::utf8::encode_utf8(role_arn@).len() >= 20 ==> verdict_view(r) == role_arn_verdict_spec(
            regex_search(ROLE_ARN_PATTERN@, role_arn@),
        ),
{
    if role_arn.as_str().as_bytes().len() < 20 {
        return Err(String::from_str("Must have length greater than or equal to 20"));
    }
    role_arn_verdict(search(ROLE_ARN_PATTERN, role_arn.as_str()))
}

/// Relies on std's `Path::is_file`: whether a regular file stands at the
/// path. The answer depends on the disk, so nothing is stated of it.
#[verifier::external_body]
fn path_is_file(path: &str) -> bool {
    std::path::Path::new(path).is_file()
}

/// The verdict on a path, given whether a file stands there.
pub fn file_path_verdict(file_path: &String, is_file: bool) -> (r: Result<(), String>)
    ensures
        is_file ==> r is Ok,
        !is_file ==> r is Err && r->Err_0@ == file_path@ + " is not a file"@,
{
    if is_file {
        Ok(())
    } else {
        Err(file_path.clone().concat(" is not a file"))
    }
}

/// Checks that a file stands at `file_path`.
pub fn validate_file_path(file_path: String) -> (r: Result<(), String>)
    ensures
        r is Err ==> r->Err_0@ == file_path@ + " is not a file"@,
{
    let found = path_is_file(file_path.as_str());
    file_path_verdict(&file_path, found)
}

} // verus!
