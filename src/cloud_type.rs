use vstd::prelude::*;
use vstd::string::*;
use crate::error::CloudError;
use crate::text::{occurs_at, occurs_in, same_text, contains_text};

verus! {

/// The storage provider that a URL addresses.
#[derive(Debug, Clone, Copy, PartialEq, Eq, Structural)]
pub enum CloudType {
    Aws,
    Azure,
    File,
    Gcp,
    Http,
}

/// The provider that a URL scheme selects; `None` for a scheme that is not known.
pub open spec fn scheme_kind(scheme: Seq<char>) -> Option<CloudType> {
    if scheme == "s3"@ || scheme == "s3a"@ {
        Some(CloudType::Aws)
    } else if scheme == "az"@ || scheme == "azure"@ || scheme == "adl"@ || scheme == "abfs"@
        || scheme == "abfss"@ {
        Some(CloudType::Azure)
    } else if scheme == "gs"@ || scheme == "gcp"@ || scheme == "gcs"@ {
        Some(CloudType::Gcp)
    } else if scheme == "file"@ {
        Some(CloudType::File)
    } else if scheme == "http"@ || scheme == "https"@ {
        Some(CloudType::Http)
    } else {
        None
    }
}

/// `k` is the position of the first `:` in `t`, or its length where it has none.
pub open spec fn is_scheme_end(t: Seq<char>, k: int) -> bool {
    &&& 0 <= k <= t.len()
    &&& forall|j: int| 0 <= j < k ==> t[j] != ':'
    &&& k < t.len() ==> t[k] == ':'
}

/// The scheme of a serialized URL: the text before its first `:`.
pub open spec fn scheme_of(t: Seq<char>) -> Seq<char> {
    t.subrange(0, choose|k: int| is_scheme_end(t, k))
}

/// The serialization of the URL that `url::Url::parse` makes of a text, if it parses.
pub uninterp spec fn url_parsed(s: Seq<char>) -> Option<Seq<char>>;

/// The serialization of the `file:` URL that `url::Url::from_file_path` makes of a path,
/// if it accepts the path.
pub uninterp spec fn file_url(p: Seq<char>) -> Option<Seq<char>>;

/// Relies on `url::Url::parse` and `Url::as_str`: the serialized URL depends on the
/// text alone, and a serialized URL parses back to itself (`Url::check_invariants`).
#[verifier::external_body]
fn parse_absolute(s: &str) -> (r: Option<String>)
    ensures
        r matches Some(t) ==> url_parsed(s@) == Some(t@) && url_parsed(t@) == Some(t@),
        r is None ==> url_parsed(s@) is None,
{
    url::Url::parse(s).ok().map(String::from)
}

/// The longest path, in characters, that is turned into a `file:` URL: the URL's
/// length must fit in a `u32`, and percent-encoding makes up to twelve bytes of a character.
pub const MAX_PATH_CHARS: usize = 0x100_0000;

/// Relies on `url::Url::from_file_path`: on unix a path is accepted exactly when it
/// starts at the root, and the serialization starts with `file://` (see its source).
#[verifier::external_body]
fn file_path_url(p: &str) -> (r: Option<String>)
    requires
        p@.len() < MAX_PATH_CHARS,
    ensures
        r matches Some(t) ==> {
            &&& file_url(p@) == Some(t@)
            &&& t@.len() >= 7
            &&& t@.subrange(0, 7) == "file://"@
        },
        r is None ==> file_url(p@) is None,
        r is Some <==> (p@.len() > 0 && p@[0] == '/'),
{
    url::Url::from_file_path(p).ok().map(String::from)
}

/// A path that does not start at the root.
pub open spec fn is_relative_path(p: Seq<char>) -> bool {
    p.len() == 0 || p[0] != '/'
}

/// `p` appended to the directory `base`, with one separator between them.
pub open spec fn joined_path(base: Seq<char>, p: Seq<char>) -> Seq<char> {
    if base.len() > 0 && base.last() == '/' {
        base + p
    } else {
        base + "/"@ + p
    }
}

/// The absolute path that `p` names when the working directory is `cwd`.
pub open spec fn absolute_path(p: Seq<char>, cwd: Seq<char>) -> Seq<char> {
    if is_relative_path(p) {
        joined_path(cwd, p)
    } else {
        p
    }
}

/// A path that the local-file branch turns into a URL: it starts at the root and is not
/// longer than `MAX_PATH_CHARS`.
pub open spec fn local_path_accepted(p: Seq<char>) -> bool {
    p.len() > 0 && p[0] == '/' && p.len() < MAX_PATH_CHARS
}

/// The URL that a path or URL text stands for: a text with `://` is parsed as a URL,
/// any other text is a file path, made absolute against `cwd`, and refused when longer
/// than `MAX_PATH_CHARS`.
pub open spec fn location_of(input: Seq<char>, cwd: Seq<char>) -> Option<Seq<char>> {
    if occurs_in(input, "://"@) {
        url_parsed(input)
    } else if absolute_path(input, cwd).len() < MAX_PATH_CHARS {
        file_url(absolute_path(input, cwd))
    } else {
        None
    }
}

/// The provider of a path or URL text, with `cwd` as the working directory.
pub open spec fn classify(input: Seq<char>, cwd: Seq<char>) -> Option<CloudType> {
    match location_of(input, cwd) {
        Some(t) => scheme_kind(scheme_of(t)),
        None => None,
    }
}

/// The provider that a URL scheme selects.
pub fn kind_of_scheme(scheme: &str) -> (r: Option<CloudType>)
    ensures
        r == scheme_kind(scheme@),
{
    if same_text(scheme, "s3") || same_text(scheme, "s3a") {
        Some(CloudType::Aws)
    } else if same_text(scheme, "az") || same_text(scheme, "azure") || same_text(scheme, "adl")
        || same_text(scheme, "abfs") || same_text(scheme, "abfss") {
        Some(CloudType::Azure)
    } else if same_text(scheme, "gs") || same_text(scheme, "gcp") || same_text(scheme, "gcs") {
        Some(CloudType::Gcp)
    } else if same_text(scheme, "file") {
        Some(CloudType::File)
    } else if same_text(scheme, "http") || same_text(scheme, "https") {
        Some(CloudType::Http)
    } else {
        None
    }
}

/// The scheme of a serialized URL.
pub fn url_scheme(t: &str) -> (r: &str)
    ensures
        r@ == scheme_of(t@),
{
    let n = t.unicode_len();
    let mut k: usize = 0;
    while k < n && t.get_char(k) != ':'
        invariant
            n == t@.len(),
            k <= n,
            forall|j: int| 0 <= j < k ==> t@[j] != ':',
        decreases n - k,
    {
        k = k + 1;
    }
    assert(is_scheme_end(t@, k as int));
    proof {
        let c = choose|c: int| is_scheme_end(t@, c);
        assert(c == k) by {
            if c < k {
                assert(t@[c] == ':');
            } else if k < c {
                assert(t@[k as int] == ':');
            }
        }
    }
    t.substring_char(0, k)
}

/// Turns a path or URL text into a serialized URL: a text with `://` is parsed as a
/// URL; any other is a file path, made absolute against the working directory `cwd`.
pub fn parse_url(input: &str, cwd: &str) -> (r: Result<String, CloudError>)
    ensures
        r matches Ok(t) ==> location_of(input@, cwd@) == Some(t@),
        r matches Err(e) ==> location_of(input@, cwd@) is None && e is InvalidInput,
        !occurs_in(input@, "://"@) && local_path_accepted(absolute_path(input@, cwd@)) ==> (r matches Ok(t)
            && t@.len() >= 7 && t@.subrange(0, 7) == "file://"@),
{
    if contains_text(input, "://") {
        match parse_absolute(input) {
            Some(t) => Ok(t),
            None => Err(CloudError::InvalidInput(String::from_str(input))),
        }
    } else {
        let n = input.unicode_len();
        let relative = n == 0 || input.get_char(0) != '/';
        let path = if relative {
            let m = cwd.unicode_len();
            let base = String::from_str(cwd);
            if m > 0 && cwd.get_char(m - 1) == '/' {
                base.concat(input)
            } else {
                base.concat("/").concat(input)
            }
        } else {
            String::from_str(input)
        };
        proof {
            reveal_strlit("/");
            assert(path@ =~= absolute_path(input@, cwd@));
        }
        if path.unicode_len() >= MAX_PATH_CHARS {
            return Err(CloudError::InvalidInput(String::from_str(input)));
        }
        match file_path_url(path.as_str()) {
            Some(t) => Ok(t),
            None => Err(CloudError::InvalidInput(String::from_str(input))),
        }
    }
}

/// A path without a scheme that does not start at the root is resolved against the
/// working directory and turned into a `file:` URL.
pub proof fn lemma_relative_path_location(input: Seq<char>, cwd: Seq<char>)
    requires
        !occurs_in(input, "://"@),
        is_relative_path(input),
        joined_path(cwd, input).len() < MAX_PATH_CHARS,
    ensures
        location_of(input, cwd) == file_url(joined_path(cwd, input)),
{
}

/// A URL that starts with `file://` has the scheme `file`, which names a local file, and
/// holds the scheme separator, so that classifying it again parses it as a URL.
pub proof fn lemma_file_url_scheme(t: Seq<char>)
    requires
        t.len() >= 7,
        t.subrange(0, 7) == "file://"@,
    ensures
        occurs_in(t, "://"@),
        scheme_of(t) == "file"@,
        scheme_kind(scheme_of(t)) == Some(CloudType::File),
{
    reveal_strlit("file://");
    reveal_strlit("://");
    reveal_strlit("file");
    assert(t[4] == t.subrange(0, 7)[4]);
    assert forall|j: int| 0 <= j < 3 implies t.subrange(4, 7)[j] == "://"@[j] by {
        assert(t.subrange(4, 7)[j] == t.subrange(0, 7)[j + 4]);
    }
    assert(t.subrange(4, 7) =~= "://"@);
    assert(occurs_at(t, "://"@, 4));
    assert forall|j: int| 0 <= j < 4 implies t[j] != ':' by {
        assert(t[j] == t.subrange(0, 7)[j]);
    }
    assert(is_scheme_end(t, 4));
    let c = choose|c: int| is_scheme_end(t, c);
    assert(c == 4) by {
        if c < 4 {
            assert(t[c] == ':');
        } else if 4 < c {
            assert(t[4] == ':');
        }
    }
    assert(t.subrange(0, 4) =~= "file"@) by {
        assert forall|j: int| 0 <= j < 4 implies t.subrange(0, 4)[j] == "file"@[j] by {
            assert(t[j] == t.subrange(0, 7)[j]);
        }
    }
    assert(scheme_kind("file"@) == Some(CloudType::File)) by {
        reveal_strlit("s3");
        reveal_strlit("s3a");
        reveal_strlit("az");
        reveal_strlit("azure");
        reveal_strlit("adl");
        reveal_strlit("abfs");
        reveal_strlit("abfss");
        reveal_strlit("gs");
        reveal_strlit("gcp");
        reveal_strlit("gcs");
        assert("file"@ != "abfs"@) by {
            assert("file"@[0] != "abfs"@[0]);
        }
    }
}

/// A `file://` URL that parses back to itself is taken as it is when classified again,
/// whatever the working directory, and names a local file.
pub proof fn lemma_file_url_reclassifies(t: Seq<char>, cwd: Seq<char>)
    requires
        t.len() >= 7,
        t.subrange(0, 7) == "file://"@,
        url_parsed(t) == Some(t),
    ensures
        location_of(t, cwd) == Some(t),
        classify(t, cwd) == Some(CloudType::File),
{
    lemma_file_url_scheme(t);
}

impl CloudType {
    /// The provider of a serialized URL; an unknown scheme is `InvalidInput`.
    pub fn from_url(parsed: &str) -> (r: Result<CloudType, CloudError>)
        ensures
            r matches Ok(k) ==> scheme_kind(scheme_of(parsed@)) == Some(k),
            r matches Err(e) ==> scheme_kind(scheme_of(parsed@)) is None && e is InvalidInput,
    {
        match kind_of_scheme(url_scheme(parsed)) {
            Some(k) => Ok(k),
            None => Err(CloudError::InvalidInput(String::from_str(parsed))),
        }
    }

    /// The provider of a path or URL text, with `cwd` as the working directory.
    pub fn from_str(url: &str, cwd: &str) -> (r: Result<CloudType, CloudError>)
        ensures
            r matches Ok(k) ==> classify(url@, cwd@) == Some(k),
            r matches Err(e) ==> classify(url@, cwd@) is None && e is InvalidInput,
            !occurs_in(url@, "://"@) && local_path_accepted(absolute_path(url@, cwd@)) ==> r
                == Ok::<CloudType, CloudError>(CloudType::File),
    {
        let t = parse_url(url, cwd)?;
        proof {
            if !occurs_in(url@, "://"@) && local_path_accepted(absolute_path(url@, cwd@)) {
                lemma_file_url_scheme(t@);
            }
        }
        CloudType::from_url(t.as_str())
    }
}

} // verus!
