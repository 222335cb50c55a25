use vstd::prelude::*;

use crate::errors::DlError;

verus! {

/// The canonical identity of a repository: its owner, its project name and
/// the revision whose file tree is wanted.  Immutable once resolved.
pub struct RepoIdentity {
    pub owner: String,
    pub project: String,
    pub revision: String,
}

/// The mathematical content of a `RepoIdentity`: each field as a character
/// sequence.
pub struct RepoIdentityView {
    pub owner: Seq<char>,
    pub project: Seq<char>,
    pub revision: Seq<char>,
}

impl View for RepoIdentity {
    type V = RepoIdentityView;

    open spec fn view(&self) -> RepoIdentityView {
        RepoIdentityView { owner: self.owner@, project: self.project@, revision: self.revision@ }
    }
}

/// The single hosting domain this downloader trusts.
pub open spec fn trusted_host() -> Seq<char> {
    "github.com"@
}

/// Whether `s` ends in the repository suffix token ".git".
pub open spec fn ends_with_git(s: Seq<char>) -> bool {
    &&& s.len() >= 4
    &&& s[s.len() - 4] == '.'
    &&& s[s.len() - 3] == 'g'
    &&& s[s.len() - 2] == 'i'
    &&& s[s.len() - 1] == 't'
}

/// `s` with a trailing ".git" removed, if present.
pub open spec fn strip_git_suffix(s: Seq<char>) -> Seq<char> {
    if ends_with_git(s) {
        s.take(s.len() - 4)
    } else {
        s
    }
}

/// Whether a parsed URL's host and path segments identify a repository:
/// the host is the trusted one and the first two segments (owner and
/// project) are present and non-empty.
pub open spec fn parts_accepted(host: Seq<char>, segments: Seq<Seq<char>>) -> bool {
    &&& host == trusted_host()
    &&& segments.len() >= 2
    &&& segments[0].len() > 0
    &&& segments[1].len() > 0
}

/// The identity that accepted parts resolve to: the first segment is the
/// owner, the second (with any ".git" suffix stripped) the project.
pub open spec fn resolved_identity(segments: Seq<Seq<char>>, revision: Seq<char>) -> RepoIdentityView {
    RepoIdentityView {
        owner: segments[0],
        project: strip_git_suffix(segments[1]),
        revision: revision,
    }
}

/// Removes a trailing ".git" from a project name, if present.
pub fn strip_repo_suffix(name: &str) -> (r: String)
    ensures
        r@ == strip_git_suffix(name@),
{
    let n: usize = name.unicode_len();
    if n >= 4 {
        let c_dot = name.get_char(n - 4);
        let c_g = name.get_char(n - 3);
        let c_i = name.get_char(n - 2);
        let c_t = name.get_char(n - 1);
        if c_dot == '.' && c_g == 'g' && c_i == 'i' && c_t == 't' {
            let prefix = name.substring_char(0, n - 4);
            return prefix.to_owned();
        }
    }
    name.to_owned()
}

/// Builds the repository identity from a URL's host and path segments.
/// Rejects an untrusted host and missing or empty owner or project
/// segments; strips a trailing ".git" from the project name.
pub fn resolve_from_parts(host: &str, segments: &Vec<String>, revision: String) -> (r: Result<
    RepoIdentity,
    DlError,
>)
    ensures
        r is Ok <==> parts_accepted(host@, segments.deep_view()),
        r matches Ok(id) ==> id@ == resolved_identity(segments.deep_view(), revision@),
        r matches Err(e) ==> e == DlError::InvalidUrl,
{
    let trusted: String = String::from_str("github.com");
    let host_owned: String = host.to_owned();
    if !(host_owned == trusted) {
        return Err(DlError::InvalidUrl);
    }
    if segments.len() < 2 {
        assert(segments.deep_view().len() < 2);
        return Err(DlError::InvalidUrl);
    }
    let owner: &String = &segments[0];
    let project: &String = &segments[1];
    assert(segments.deep_view()[0] == owner@);
    assert(segments.deep_view()[1] == project@);
    if owner.as_str().unicode_len() == 0 || project.as_str().unicode_len() == 0 {
        return Err(DlError::InvalidUrl);
    }
    let cleaned = strip_repo_suffix(project.as_str());
    Ok(RepoIdentity { owner: owner.clone(), project: cleaned, revision })
}

/// What the URL library extracts from a URL: its host and its
/// '/'-separated path segments, where the text parses as an absolute URL
/// that has both.  A pure function of the text.
pub uninterp spec fn url_parts_of(s: Seq<char>) -> Option<(Seq<char>, Seq<Seq<char>>)>;

/// Relies on `url::Url::parse`, `url::Url::host_str` and
/// `url::Url::path_segments`: parsing an absolute URL is a pure function
/// of the input text; `host_str` returns the host when the URL has one;
/// `path_segments` returns the '/'-separated segments of the path.
#[verifier::external_body]
fn split_url(s: &str) -> (r: Option<(String, Vec<String>)>)
    ensures
        r is Some <==> url_parts_of(s@) is Some,
        r matches Some(p) ==> url_parts_of(s@) == Some((p.0@, p.1.deep_view())),
{
    let u = match url::Url::parse(s) {
        Ok(u) => u,
        Err(_) => return None,
    };
    let host = match u.host_str() {
        Some(h) => h.to_owned(),
        None => return None,
    };
    let segments: Vec<String> = match u.path_segments() {
        Some(parts) => parts.map(|p| p.to_owned()).collect(),
        None => return None,
    };
    Some((host, segments))
}

/// Resolves a repository URL to a `RepoIdentity`.
///
/// Fails with `InvalidUrl` when the text does not parse as a URL with a
/// host and path, when the host is not the trusted one, or when owner or
/// project segments are missing or empty; in particular no URL of an
/// untrusted host ever resolves.  Pure: no network activity.
pub fn resolve(url_text: &str, revision: String) -> (r: Result<RepoIdentity, DlError>)
    ensures
        r is Ok <==> (url_parts_of(url_text@) matches Some(p) && parts_accepted(p.0, p.1)),
        r matches Ok(id) ==> id@ == resolved_identity(
            url_parts_of(url_text@).unwrap().1,
            revision@,
        ),
        r matches Err(e) ==> e == DlError::InvalidUrl,
        (url_parts_of(url_text@) matches Some(p) && p.0 != trusted_host()) ==> r is Err,
{
    match split_url(url_text) {
        Some(parts) => resolve_from_parts(parts.0.as_str(), &parts.1, revision),
        None => Err(DlError::InvalidUrl),
    }
}

} // verus!
