use vstd::prelude::*;

verus! {

/// The failures the downloader distinguishes.
///
/// `InvalidUrl` covers a malformed repository URL, an untrusted host and
/// missing path segments; it aborts a run before any network activity.
/// `Network` is a transport failure, `Parse` a malformed manifest or glob
/// pattern, `Io` a filesystem failure.
#[derive(Clone, Copy, Debug, PartialEq, Eq, Structural)]
pub enum DlError {
    InvalidUrl,
    Network,
    Parse,
    Io,
}

impl DlError {
    /// A short description, for reporting outside the library.
    pub fn describe(&self) -> (r: &'static str)
        ensures
            r@ == self.describe_spec(),
    {
        match self {
            DlError::InvalidUrl => "invalid repository url",
            DlError::Network => "network failure",
            DlError::Parse => "parse failure",
            DlError::Io => "filesystem failure",
        }
    }

    pub open spec fn describe_spec(&self) -> Seq<char> {
        match self {
            DlError::InvalidUrl => "invalid repository url"@,
            DlError::Network => "network failure"@,
            DlError::Parse => "parse failure"@,
            DlError::Io => "filesystem failure"@,
        }
    }
}

} // verus!
