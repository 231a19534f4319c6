use vstd::prelude::*;
use vstd::string::*;
use crate::region_cache::{RegionCache, stored};

verus! {

/// The region used for a bucket behind an endpoint of its own, when none is configured.
pub open spec fn fallback_region() -> Seq<char> {
    "us-east-1"@
}

/// The text of the first capture group of the first match of a regular expression in a
/// text; `None` where the expression is invalid or does not match.
pub uninterp spec fn first_capture(pattern: Seq<char>, text: Seq<char>) -> Option<Seq<char>>;

/// The text that a sequence of bytes spells in UTF-8, if it is valid UTF-8.
pub uninterp spec fn utf8_text(bytes: Seq<u8>) -> Option<Seq<char>>;

/// The host of the URL that `url::Url::parse` makes of a text, if it parses and has one.
pub uninterp spec fn url_host(s: Seq<char>) -> Option<Seq<char>>;

/// Relies on `regex::Regex::new` and `Regex::captures`: the outcome depends on the
/// pattern and the text alone.
#[verifier::external_body]
fn capture_group(pattern: &str, text: &str) -> (r: Option<String>)
    ensures
        r matches Some(v) ==> first_capture(pattern@, text@) == Some(v@),
        r is None ==> first_capture(pattern@, text@) is None,
{
    let re = regex::Regex::new(pattern).ok()?;
    let caps = re.captures(text)?;
    caps.get(1).map(|m| m.as_str().to_string())
}

/// Relies on `std::str::from_utf8`: the outcome depends on the bytes alone.
#[verifier::external_body]
fn decode_utf8(bytes: &[u8]) -> (r: Option<String>)
    ensures
        r matches Some(v) ==> utf8_text(bytes@) == Some(v@),
        r is None ==> utf8_text(bytes@) is None,
{
    std::str::from_utf8(bytes).ok().map(|s| s.to_string())
}

/// Relies on `url::Url::parse` and `Url::host_str`: the outcome depends on the text alone.
#[verifier::external_body]
fn host_of(s: &str) -> (r: Option<String>)
    ensures
        r matches Some(v) ==> url_host(s@) == Some(v@),
        r is None ==> url_host(s@) is None,
{
    url::Url::parse(s).ok()?.host_str().map(|h| h.to_string())
}

/// The bucket that an S3 URL addresses: its host.
pub fn bucket_of(url: &str) -> (r: Option<String>)
    ensures
        r matches Some(b) ==> url_host(url@) == Some(b@),
        r is None ==> url_host(url@) is None,
{
    host_of(url)
}

/// The S3 settings that the assembly of a client reads or fills in.
#[derive(Debug, Clone, Copy, PartialEq, Eq, Structural)]
pub enum S3Setting {
    Region,
    DefaultRegion,
    AccessKeyId,
    SecretAccessKey,
    Endpoint,
}

/// A pattern whose first capture group gives the value of a setting.
pub struct CredentialRule {
    pub pattern: String,
    pub target: S3Setting,
}

/// A file, under the home directory (`~`), and the settings that it may supply.
pub struct CredentialFile {
    pub path: String,
    pub rules: Vec<CredentialRule>,
}

fn rule(pattern: &str, target: S3Setting) -> (r: CredentialRule)
    ensures
        r.pattern@ == pattern@,
        r.target == target,
{
    CredentialRule { pattern: String::from_str(pattern), target }
}

/// The files that fill in S3 settings left unset: the region from `~/.aws/config`, the
/// key pair from `~/.aws/credentials`.
pub fn aws_credential_files() -> (r: Vec<CredentialFile>)
    ensures
        r@.len() == 2,
        r@[0].path@ == "~/.aws/config"@,
        r@[0].rules@.len() == 1,
        r@[0].rules@[0].pattern@ == "region = (.*)\n"@,
        r@[0].rules@[0].target == S3Setting::Region,
        r@[1].path@ == "~/.aws/credentials"@,
        r@[1].rules@.len() == 2,
        r@[1].rules@[0].pattern@ == "aws_access_key_id = (.*)\n"@,
        r@[1].rules@[0].target == S3Setting::AccessKeyId,
        r@[1].rules@[1].pattern@ == "aws_secret_access_key = (.*)\n"@,
        r@[1].rules@[1].target == S3Setting::SecretAccessKey,
{
    let config = CredentialFile {
        path: String::from_str("~/.aws/config"),
        rules: vec![rule("region = (.*)\n", S3Setting::Region)],
    };
    let credentials = CredentialFile {
        path: String::from_str("~/.aws/credentials"),
        rules: vec![
            rule("aws_access_key_id = (.*)\n", S3Setting::AccessKeyId),
            rule("aws_secret_access_key = (.*)\n", S3Setting::SecretAccessKey),
        ],
    };
    vec![config, credentials]
}

/// Whether a credential file has to be read: not when every setting that its rules
/// target is set already (`set[i]` for the i-th rule).
pub fn file_needed(set: &Vec<bool>) -> (r: bool)
    ensures
        r == exists|i: int| 0 <= i < set@.len() && !set@[i],
{
    let mut i: usize = 0;
    while i < set.len()
        invariant
            i <= set@.len(),
            forall|j: int| 0 <= j < i ==> set@[j],
        decreases set@.len() - i,
    {
        if !set[i] {
            return true;
        }
        i = i + 1;
    }
    false
}

/// `values` is what reading a credential file with contents `text` gives, for rules with
/// `patterns`, of which those with `set[i]` target a setting that is set already: rule
/// by rule, nothing for a set one, else the pattern's capture; a pattern that captures
/// nothing ends the reading there, and `values` is shorter than the rules.
pub open spec fn fallback_read(
    text: Seq<char>,
    patterns: Seq<Seq<char>>,
    set: Seq<bool>,
    values: Seq<Option<Seq<char>>>,
) -> bool {
    &&& values.len() <= patterns.len()
    &&& forall|i: int| 0 <= i < values.len() ==> (#[trigger] values[i]) == if set[i] {
        None
    } else {
        first_capture(patterns[i], text)
    }
    &&& forall|i: int| 0 <= i < values.len() && !set[i] ==> (#[trigger] values[i]) is Some
    &&& values.len() < patterns.len() ==> !set[values.len() as int] && first_capture(
        patterns[values.len() as int],
        text,
    ) is None
}

/// The patterns of a list of rules, as text.
pub open spec fn patterns_of(rules: Seq<CredentialRule>) -> Seq<Seq<char>> {
    Seq::new(rules.len(), |i: int| rules[i].pattern@)
}

/// The text of an optional string.
pub open spec fn opt_text(v: Option<String>) -> Option<Seq<char>> {
    match v {
        Some(s) => Some(s@),
        None => None,
    }
}

/// The texts of a list of optional strings.
pub open spec fn opt_texts(vs: Seq<Option<String>>) -> Seq<Option<Seq<char>>> {
    Seq::new(vs.len(), |i: int| opt_text(vs[i]))
}

/// Reads the values of the rules of a credential file from its contents.
pub fn read_credentials(text: &str, rules: &Vec<CredentialRule>, set: &Vec<bool>) -> (r: Vec<
    Option<String>,
>)
    requires
        set@.len() == rules@.len(),
    ensures
        fallback_read(text@, patterns_of(rules@), set@, opt_texts(r@)),
{
    let ghost pats = patterns_of(rules@);
    let mut out: Vec<Option<String>> = Vec::new();
    let mut i: usize = 0;
    while i < rules.len()
        invariant
            set@.len() == rules@.len(),
            pats == patterns_of(rules@),
            i <= rules@.len(),
            out@.len() == i,
            forall|j: int| 0 <= j < i ==> ((#[trigger] out@[j]) matches Some(s) ==> (!set@[j]
                && first_capture(pats[j], text@) == Some(s@))),
            forall|j: int| 0 <= j < i ==> (#[trigger] out@[j]) is None ==> set@[j],
        ensures
            out@.len() <= rules@.len(),
            forall|j: int| 0 <= j < out@.len() ==> ((#[trigger] out@[j]) matches Some(s) ==> (!set@[j]
                && first_capture(pats[j], text@) == Some(s@))),
            forall|j: int| 0 <= j < out@.len() ==> (#[trigger] out@[j]) is None ==> set@[j],
            out@.len() < rules@.len() ==> !set@[out@.len() as int] && first_capture(
                pats[out@.len() as int],
                text@,
            ) is None,
        decreases rules@.len() - i,
    {
        if set[i] {
            out.push(None);
        } else {
            match capture_group(rules[i].pattern.as_str(), text) {
                Some(v) => out.push(Some(v)),
                None => {
                    break;
                },
            }
        }
        i = i + 1;
    }
    let ghost vals = opt_texts(out@);
    assert forall|j: int| 0 <= j < vals.len() implies (#[trigger] vals[j]) == if set@[j] {
        None
    } else {
        first_capture(pats[j], text@)
    } by {
        assert(out@[j] matches Some(s) ==> (!set@[j]));
    }
    assert forall|j: int| 0 <= j < vals.len() && !set@[j] implies (#[trigger] vals[j]) is Some by {
        assert(out@[j] is None ==> set@[j]);
    }
    out
}

/// What to do about the region of an S3 bucket while a client is assembled.
#[derive(Debug, Clone, PartialEq, Eq)]
pub enum RegionStep {
    /// A region is configured: nothing to do.
    Configured,
    /// The cache knows the bucket's region.
    Cached(String),
    /// An endpoint of its own is configured: use this fixed region.
    Fallback(String),
    /// Ask the provider: a metadata request to this URL, whose response names the region.
    Probe(String),
}

/// The URL whose response names the region of an S3 bucket.
pub open spec fn probe_url_of(bucket: Seq<char>) -> Seq<char> {
    "https://"@ + bucket + ".s3.amazonaws.com"@
}

/// Decides where the region of `bucket` comes from: a configured region wins, then the
/// cache, then the fallback for a custom endpoint; only when none applies is the provider
/// asked.
pub fn region_step(region_set: bool, endpoint_set: bool, bucket: &str, cache: &RegionCache) -> (r:
    RegionStep)
    ensures
        region_set ==> r == RegionStep::Configured,
        !region_set && cache.entries().contains_key(bucket@) ==> (r matches RegionStep::Cached(v)
            && v@ == cache.entries()[bucket@]),
        !region_set && !cache.entries().contains_key(bucket@) && endpoint_set ==> (r matches RegionStep::Fallback(v)
            && v@ == fallback_region()),
        !region_set && !cache.entries().contains_key(bucket@) && !endpoint_set ==> (r matches RegionStep::Probe(u)
            && u@ == probe_url_of(bucket@)),
{
    if region_set {
        return RegionStep::Configured;
    }
    match cache.get(bucket) {
        Some(v) => RegionStep::Cached(v),
        None => {
            if endpoint_set {
                let v = String::from_str("us-east-1");
                proof {
                    reveal_strlit("us-east-1");
                }
                RegionStep::Fallback(v)
            } else {
                let u = String::from_str("https://").concat(bucket).concat(".s3.amazonaws.com");
                proof {
                    reveal_strlit("https://");
                    reveal_strlit(".s3.amazonaws.com");
                }
                RegionStep::Probe(u)
            }
        },
    }
}

/// Takes the region header of a probe's response, if it came: a region in UTF-8 is
/// stored for the bucket and returned; anything else gives no region.
pub fn region_from_probe(cache: &mut RegionCache, bucket: String, header: Option<Vec<u8>>) -> (r:
    Option<String>)
    requires
        old(cache).wf(),
    ensures
        r matches Some(v) ==> (header matches Some(h) && utf8_text(h@) == Some(v@) && stored(
            *old(cache),
            *final(cache),
            bucket@,
            v@,
        )),
        r is None ==> (*final(cache) == *old(cache) && (header matches Some(h) ==> utf8_text(h@) is None)),
{
    match header {
        Some(h) => match decode_utf8(h.as_slice()) {
            Some(region) => {
                cache.insert(bucket, region.clone());
                Some(region)
            },
            None => None,
        },
        None => None,
    }
}

} // verus!
