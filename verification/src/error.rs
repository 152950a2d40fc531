//! Failures a resolution can end in, and the installation status reported to
//! the host. Every hard failure carries the detail that its surfaced message
//! is built from.

use vstd::prelude::*;
use vstd::string::StringExecFns;

verus! {

/// The kind of a resolution failure, without its carried detail.
#[derive(Clone, Copy, Debug, PartialEq, Eq, Structural)]
pub enum ErrKind {
    /// The remote release query failed or found no suitable release.
    ReleaseQuery,
    /// The release has no asset with the expected file name.
    NoAsset,
    /// Downloading or unpacking the asset's archive failed.
    Download,
    /// The working directory could not be listed for pruning.
    DirList,
    /// An entry of the working directory could not be read while pruning.
    DirEntry,
}

/// The message surfaced to the host for a failure of kind `k` whose carried
/// detail is `d`: for a missing asset, `d` is the asset name looked for;
/// otherwise it is the message of the operation that failed.
pub open spec fn spec_message_of(k: ErrKind, d: Seq<char>) -> Seq<char> {
    match k {
        ErrKind::ReleaseQuery => d,
        ErrKind::NoAsset => "no asset found matching \""@ + d + "\""@,
        ErrKind::Download => "failed to download file: "@ + d,
        ErrKind::DirList => "failed to list working directory "@ + d,
        ErrKind::DirEntry => "failed to load directory entry "@ + d,
    }
}

/// Why a resolution failed. Each variant carries the underlying detail:
/// for a missing asset the asset name looked for, otherwise the message of
/// the operation that failed.
#[derive(Clone, Debug, PartialEq, Eq)]
pub enum ResolveError {
    /// The remote release query failed or found no suitable release.
    ReleaseQueryFailed(String),
    /// The release has no asset with the expected file name.
    NoMatchingAsset(String),
    /// Downloading or unpacking the asset's archive failed.
    DownloadFailed(String),
    /// The working directory could not be listed for pruning.
    DirectoryListFailed(String),
    /// An entry of the working directory could not be read while pruning.
    DirectoryEntryFailed(String),
}

impl ResolveError {
    /// The kind of this error.
    pub open spec fn kind(self) -> ErrKind {
        match self {
            ResolveError::ReleaseQueryFailed(_) => ErrKind::ReleaseQuery,
            ResolveError::NoMatchingAsset(_) => ErrKind::NoAsset,
            ResolveError::DownloadFailed(_) => ErrKind::Download,
            ResolveError::DirectoryListFailed(_) => ErrKind::DirList,
            ResolveError::DirectoryEntryFailed(_) => ErrKind::DirEntry,
        }
    }

    /// The detail carried by this error, whichever variant it is.
    pub open spec fn spec_detail(self) -> Seq<char> {
        match self {
            ResolveError::ReleaseQueryFailed(m) => m@,
            ResolveError::NoMatchingAsset(m) => m@,
            ResolveError::DownloadFailed(m) => m@,
            ResolveError::DirectoryListFailed(m) => m@,
            ResolveError::DirectoryEntryFailed(m) => m@,
        }
    }

    /// The message surfaced to the host for this error.
    pub open spec fn spec_message(self) -> Seq<char> {
        spec_message_of(self.kind(), self.spec_detail())
    }

    /// The message surfaced to the host for this error.
    pub fn message(&self) -> (r: String)
        ensures
            r@ == self.spec_message(),
    {
        match self {
            ResolveError::ReleaseQueryFailed(m) => m.clone(),
            ResolveError::NoMatchingAsset(m) => {
                let mut s = "no asset found matching \"".to_owned();
                s.append(m.as_str());
                s.append("\"");
                s
            },
            ResolveError::DownloadFailed(m) => {
                let mut s = "failed to download file: ".to_owned();
                s.append(m.as_str());
                s
            },
            ResolveError::DirectoryListFailed(m) => {
                let mut s = "failed to list working directory ".to_owned();
                s.append(m.as_str());
                s
            },
            ResolveError::DirectoryEntryFailed(m) => {
                let mut s = "failed to load directory entry ".to_owned();
                s.append(m.as_str());
                s
            },
        }
    }
}

/// Installation state reported to the host while a resolution runs.
#[derive(Clone, Debug, PartialEq, Eq)]
pub enum Status {
    /// No installation is in progress.
    Idle,
    /// An asset is being downloaded and unpacked.
    Downloading,
    /// A resolution failed with the carried message.
    Failed(String),
}

} // verus!
