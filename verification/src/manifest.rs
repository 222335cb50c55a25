use vstd::prelude::*;

use crate::errors::DlError;
use crate::identity::{RepoIdentity, RepoIdentityView};

verus! {

/// `s` with every '/' replaced by '_', making a path pair safe to use as
/// a single file name.
pub open spec fn sanitized(s: Seq<char>) -> Seq<char> {
    Seq::new(s.len(), |i: int| if s[i] == '/' { '_' } else { s[i] })
}

/// The cache file name for a repository at a revision: the
/// "owner/project" pair with '/' replaced by '_', an underscore, the
/// revision, and a ".json" suffix.
pub open spec fn cache_name_of(id: RepoIdentityView) -> Seq<char> {
    sanitized(id.owner + "/"@ + id.project) + "_"@ + id.revision + ".json"@
}

/// The remote listing endpoint for the file tree of a repository at a
/// revision.
pub open spec fn listing_url_of(id: RepoIdentityView) -> Seq<char> {
    "https://api.github.com/repos/"@ + id.owner + "/"@ + id.project + "/git/tree-file-list/"@
        + id.revision
}

/// Replaces every '/' in `s` with '_'.
pub fn sanitize(s: &str) -> (r: String)
    ensures
        r@ == sanitized(s@),
{
    let n: usize = s.unicode_len();
    let mut out = String::new();
    let mut i: usize = 0;
    while i < n
        invariant
            i <= n,
            n == s@.len(),
            out@ == sanitized(s@.take(i as int)),
        decreases n - i,
    {
        let c = s.get_char(i);
        if c == '/' {
            out.append("_");
            proof {
                reveal_strlit("_");
            }
        } else {
            let piece = s.substring_char(i, i + 1);
            out.append(piece);
        }
        proof {
            assert(out@ =~= sanitized(s@.take(i + 1 as int)));
        }
        i = i + 1;
    }
    proof {
        assert(s@.take(n as int) =~= s@);
    }
    out
}

/// Builds the cache file name for `id`.
pub fn cache_file_name(id: &RepoIdentity) -> (r: String)
    ensures
        r@ == cache_name_of(id@),
{
    let mut pair = id.owner.clone();
    pair.append("/");
    pair.append(id.project.as_str());
    let mut out = sanitize(pair.as_str());
    out.append("_");
    out.append(id.revision.as_str());
    out.append(".json");
    out
}

/// Builds the remote listing URL for `id`.
pub fn listing_url(id: &RepoIdentity) -> (r: String)
    ensures
        r@ == listing_url_of(id@),
{
    let mut out = String::from_str("https://api.github.com/repos/");
    out.append(id.owner.as_str());
    out.append("/");
    out.append(id.project.as_str());
    out.append("/git/tree-file-list/");
    out.append(id.revision.as_str());
    out
}

/// The list of paths a manifest text denotes, where the text is a JSON
/// array of strings.  A pure function of the text.
pub uninterp spec fn json_path_list_of(s: Seq<char>) -> Option<Seq<Seq<char>>>;

/// The JSON encoding of a list of paths, as a JSON array of strings.  A
/// pure function of the list.
pub uninterp spec fn json_encoding_of(paths: Seq<Seq<char>>) -> Seq<char>;

/// Relies on `serde_json::from_str` for `Vec<String>`: deserialization
/// succeeds exactly when the text is a JSON array of strings, and its
/// result depends on the text alone.
#[verifier::external_body]
fn parse_path_list(s: &str) -> (r: Option<Vec<String>>)
    ensures
        r is Some <==> json_path_list_of(s@) is Some,
        r matches Some(v) ==> json_path_list_of(s@) == Some(v.deep_view()),
{
    serde_json::from_str::<Vec<String>>(s).ok()
}

/// Relies on `serde_json::to_string` for `Vec<String>`: serializing a
/// vector of strings cannot fail, depends on the vector alone, and
/// `serde_json::from_str` reads the encoding back to an equal vector.
#[verifier::external_body]
fn encode_path_list(paths: &Vec<String>) -> (r: String)
    ensures
        r@ == json_encoding_of(paths.deep_view()),
        json_path_list_of(r@) == Some(paths.deep_view()),
{
    serde_json::to_string(paths).unwrap()
}

/// Decodes a cached manifest record.  Succeeds exactly when the text is
/// a JSON array of strings; fails with `Parse` otherwise.
pub fn decode_manifest(text: &str) -> (r: Result<Vec<String>, DlError>)
    ensures
        r is Ok <==> json_path_list_of(text@) is Some,
        r matches Ok(v) ==> json_path_list_of(text@) == Some(v.deep_view()),
        r matches Err(e) ==> e == DlError::Parse,
{
    match parse_path_list(text) {
        Some(v) => Ok(v),
        None => Err(DlError::Parse),
    }
}

/// Encodes a manifest for persistence.  The encoding decodes back to an
/// identical manifest, so a later run served from the cache sees exactly
/// the list persisted here.
pub fn encode_manifest(paths: &Vec<String>) -> (r: String)
    ensures
        r@ == json_encoding_of(paths.deep_view()),
        json_path_list_of(r@) == Some(paths.deep_view()),
{
    encode_path_list(paths)
}

/// Parses the remote listing response and, on success, returns the
/// manifest together with the record to persist under the cache key.
/// The record decodes back to the identical manifest: once cached, a
/// repeated fetch with the same key needs no further remote call and
/// returns the same list.
pub fn manifest_from_remote_text(text: &str) -> (r: Result<(Vec<String>, String), DlError>)
    ensures
        r is Ok <==> json_path_list_of(text@) is Some,
        r matches Ok(p) ==> {
            &&& json_path_list_of(text@) == Some(p.0.deep_view())
            &&& p.1@ == json_encoding_of(p.0.deep_view())
            &&& json_path_list_of(p.1@) == Some(p.0.deep_view())
        },
        r matches Err(e) ==> e == DlError::Parse,
{
    match parse_path_list(text) {
        Some(v) => {
            let record = encode_path_list(&v);
            Ok((v, record))
        },
        None => Err(DlError::Parse),
    }
}

/// Where a manifest comes from on one invocation.
#[derive(Clone, Copy, Debug, PartialEq, Eq, Structural)]
pub enum ManifestSource {
    Cache,
    Remote,
}

/// The cache lookup policy: a present cache record is used as it is, and
/// only a missing record causes a remote listing call.
pub fn plan_manifest_fetch(cache_present: bool) -> (r: ManifestSource)
    ensures
        r == (if cache_present {
            ManifestSource::Cache
        } else {
            ManifestSource::Remote
        }),
{
    if cache_present {
        ManifestSource::Cache
    } else {
        ManifestSource::Remote
    }
}

} // verus!
