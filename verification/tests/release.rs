//! Behaviour of the release-side helpers: download completeness and the
//! mapping from a failed installation to its group-level error.

use cef_updater::release::{download_is_complete, ErrorKind, InstallOutcome};

#[test]
fn download_completeness_checks_the_expected_length() {
    assert!(download_is_complete(&Some(4), 4));
    assert!(!download_is_complete(&Some(4), 3));
    assert!(!download_is_complete(&Some(4), 5));
    assert!(!download_is_complete(&Some(1), 0));
    // an unknown expected length accepts what arrived
    assert!(download_is_complete(&None, 0));
    assert!(download_is_complete(&None, 4096));
}

#[test]
fn install_failures_map_to_their_error_kind() {
    assert_eq!(InstallOutcome::DownloadFailed.to_error(), ErrorKind::Network);
    assert_eq!(InstallOutcome::ReplaceFailed.to_error(), ErrorKind::Io);
}
