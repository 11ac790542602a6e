//! Why a resolution failed.

use crate::release::asset_name;
use crate::text::joined;
use vstd::prelude::*;
use vstd::string::*;

verus! {

/// The two classes of failure that a caller may want to tell apart.
#[derive(Clone, Copy, Debug, PartialEq, Eq, Structural)]
pub enum ErrorKind {
    /// Something that was expected to exist does not.
    NotFound,
    /// The network, the download or the extraction failed.
    TransportFailure,
}

/// A failed resolution.
#[derive(Debug)]
pub enum ResolveError {
    /// The release source could not name a latest release; it gave this
    /// reason.
    ReleaseLookup(String),
    /// The release of this version has no asset of the expected name.
    AssetNotFound(String),
    /// The archive could not be downloaded or unpacked; the transport gave
    /// this reason.
    Download(String),
    /// A launcher script could not be made executable; the transport gave
    /// this reason.
    MarkExecutable(String),
}

/// What `{:?}` prints for a string: the string in double quotes, with the
/// characters escaped that Rust escapes in a string literal.
pub uninterp spec fn spec_debug_quoted(s: Seq<char>) -> Seq<char>;

/// Calls `format!` with `{:?}` on a string slice. The contract only gives
/// the outcome its name: the same text is always quoted in the same way.
#[verifier::external_body]
fn debug_quoted(s: &str) -> (quoted: String)
    ensures
        quoted@ == spec_debug_quoted(s@),
{
    format!("{:?}", s)
}

impl ResolveError {
    pub open spec fn spec_kind(&self) -> ErrorKind {
        match self {
            ResolveError::ReleaseLookup(_) => ErrorKind::TransportFailure,
            ResolveError::AssetNotFound(_) => ErrorKind::NotFound,
            ResolveError::Download(_) => ErrorKind::TransportFailure,
            ResolveError::MarkExecutable(_) => ErrorKind::NotFound,
        }
    }

    /// The text of the error.
    pub open spec fn spec_message(&self) -> Seq<char> {
        match self {
            ResolveError::ReleaseLookup(reason) => reason@,
            ResolveError::AssetNotFound(version) => "no asset found matching "@
                + spec_debug_quoted(crate::release::spec_asset_name(version@)),
            ResolveError::Download(reason) => "failed to download file: "@ + reason@,
            ResolveError::MarkExecutable(reason) => reason@,
        }
    }

    /// The class of this failure.
    pub fn kind(&self) -> (kind: ErrorKind)
        ensures
            kind == self.spec_kind(),
    {
        match self {
            ResolveError::ReleaseLookup(_) => ErrorKind::TransportFailure,
            ResolveError::AssetNotFound(_) => ErrorKind::NotFound,
            ResolveError::Download(_) => ErrorKind::TransportFailure,
            ResolveError::MarkExecutable(_) => ErrorKind::NotFound,
        }
    }

    /// The text of the error, as one line for the host to show.
    pub fn message(&self) -> (text: String)
        ensures
            text@ == self.spec_message(),
    {
        match self {
            ResolveError::ReleaseLookup(reason) => reason.clone(),
            ResolveError::AssetNotFound(version) => {
                let expected = asset_name(version.as_str());
                let quoted = debug_quoted(expected.as_str());
                joined("no asset found matching ", quoted.as_str())
            },
            ResolveError::Download(reason) => joined("failed to download file: ", reason.as_str()),
            ResolveError::MarkExecutable(reason) => reason.clone(),
        }
    }
}

} // verus!
