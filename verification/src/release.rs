//! What the release registry reports, and how a single asset installation
//! can end.

use vstd::prelude::*;

verus! {

/// Kinds of failure that can arise while updating one artifact group.
/// A failure within one group never aborts sibling groups.
#[derive(Clone, Copy, Debug, PartialEq, Eq, Structural)]
pub enum ErrorKind {
    /// A registry query or an asset download failed.
    Network,
    /// Writing the temporary file, creating the parent directory, or the
    /// final rename at the destination failed.
    Io,
    /// The registry returned a different number of assets than the group has
    /// destination paths; a configuration fault, never retried.
    ConfigurationFault,
}

/// Metadata of the latest published release of one artifact group: the
/// version tag (an opaque string, compared only for exact equality) and the
/// asset download locations in the order published — one per expected
/// destination path, matched positionally.
pub struct ReleaseInfo {
    pub tag: String,
    pub assets: Vec<String>,
}

/// Outcome of one query to the registry's "latest release" endpoint.
pub enum QueryResult {
    /// The registry answered with release metadata.
    Release(ReleaseInfo),
    /// The registry has no published release; treated as up to date.
    NotFound,
    /// The round trip failed; isolated to the one group being checked.
    NetworkError,
}

/// How installing one asset over one destination path ended. On anything but
/// `Installed` the destination is left untouched: the download goes to a
/// temporary file first, and only a completed download is renamed over the
/// destination.
#[derive(Clone, Copy, Debug, PartialEq, Eq, Structural)]
pub enum InstallOutcome {
    /// The asset was downloaded completely and renamed over the destination.
    Installed,
    /// The download did not complete; the temporary file was discarded.
    DownloadFailed,
    /// Creating the parent directory, writing the temporary file, or the
    /// final rename failed.
    ReplaceFailed,
}

/// A finished download is complete exactly when it received the full
/// expected length; where no expected length is known, what arrived is
/// accepted as complete.
pub open spec fn spec_download_complete(expected: Option<usize>, received: usize) -> bool {
    match expected {
        Some(n) => received == n,
        None => true,
    }
}

/// Decides whether a finished download may be installed: an incomplete body
/// must be discarded rather than renamed over the destination.
pub fn download_is_complete(expected: &Option<usize>, received: usize) -> (r: bool)
    ensures
        r == spec_download_complete(*expected, received),
{
    match expected {
        Some(n) => received == *n,
        None => true,
    }
}

impl InstallOutcome {
    /// The error a failed installation contributes to its group's result.
    pub open spec fn spec_error(self) -> ErrorKind {
        match self {
            InstallOutcome::Installed => ErrorKind::Io,
            InstallOutcome::DownloadFailed => ErrorKind::Network,
            InstallOutcome::ReplaceFailed => ErrorKind::Io,
        }
    }

    /// Maps a failed installation to the group-level error kind.
    pub fn to_error(self) -> (e: ErrorKind)
        ensures
            e == self.spec_error(),
    {
        match self {
            InstallOutcome::Installed => ErrorKind::Io,
            InstallOutcome::DownloadFailed => ErrorKind::Network,
            InstallOutcome::ReplaceFailed => ErrorKind::Io,
        }
    }
}

} // verus!
