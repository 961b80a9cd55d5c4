//! Behaviour of the update orchestrator: configuration, aggregation of the
//! per-group results, and the single end-of-run notice on the bridge.

use cef_updater::bridge::Bridge;
use cef_updater::checker::needs_update;
use cef_updater::plugin_updater::{
    any_changed, github_plugins, run_update_checks, update_notice_text, update_plugins,
};
use cef_updater::release::{ErrorKind, InstallOutcome, QueryResult, ReleaseInfo};

#[test]
fn configured_groups() {
    let plugins = github_plugins();
    assert_eq!(plugins.len(), 2);
    assert_eq!(plugins[0].name().as_str(), "Cef Loader");
    assert_eq!(plugins[0].owner().as_str(), "SpiralP");
    assert_eq!(plugins[0].repo().as_str(), "classicube-cef-loader-plugin");
    assert_eq!(
        plugins[0].paths(),
        &vec!["plugins/classicube_cef_loader_linux_x86_64.so".to_owned()]
    );
    assert_eq!(plugins[1].name().as_str(), "Cef");
    assert_eq!(plugins[1].owner().as_str(), "SpiralP");
    assert_eq!(plugins[1].repo().as_str(), "classicube-cef-plugin");
    assert_eq!(
        plugins[1].paths(),
        &vec!["./cef/classicube_cef_linux_x86_64.so".to_owned(), "cef/cef-linux-x86_64".to_owned()]
    );
}

#[test]
fn one_group_failure_does_not_abort_the_other() {
    let checkers = github_plugins();
    let markers = vec![Some("v3".to_owned()), Some("v7".to_owned())];
    // the loader group's query fails; the main group has a new release
    let queries = vec![
        QueryResult::NetworkError,
        QueryResult::Release(ReleaseInfo {
            tag: "v8".to_owned(),
            assets: vec!["https://host/a0".to_owned(), "https://host/a1".to_owned()],
        }),
    ];
    let outcomes = vec![
        vec![InstallOutcome::Installed],
        vec![InstallOutcome::Installed, InstallOutcome::Installed],
    ];
    let runs = run_update_checks(&checkers, &markers, &queries, &outcomes);
    assert_eq!(runs.len(), 2);
    assert_eq!(runs[0].error, Some(ErrorKind::Network));
    assert!(!runs[0].changed);
    assert!(runs[1].changed);
    assert_eq!(runs[1].new_marker, Some("v8".to_owned()));
    assert!(any_changed(&runs, &Ok(false)));
}

#[test]
fn ungrouped_update_counts_only_when_it_succeeded() {
    let runs = Vec::new();
    assert!(any_changed(&runs, &Ok(true)));
    assert!(!any_changed(&runs, &Ok(false)));
    assert!(!any_changed(&runs, &Err(ErrorKind::Network)));
}

#[test]
fn nothing_changed_emits_no_notice() {
    let mut bridge: Bridge<String> = Bridge::new();
    bridge.initialize().unwrap();
    let markers = vec![Some("v1".to_owned()), Some("v2".to_owned())];
    let queries = vec![
        QueryResult::Release(ReleaseInfo {
            tag: "v1".to_owned(),
            assets: vec!["https://host/l0".to_owned()],
        }),
        QueryResult::Release(ReleaseInfo {
            tag: "v2".to_owned(),
            assets: vec!["https://host/a0".to_owned(), "https://host/a1".to_owned()],
        }),
    ];
    let outcomes = vec![
        vec![InstallOutcome::Installed],
        vec![InstallOutcome::Installed, InstallOutcome::Installed],
    ];
    let (runs, changed) = update_plugins(&mut bridge, &markers, &queries, &outcomes, &Ok(false));
    assert!(!changed);
    assert!(runs.iter().all(|r| !r.changed && r.error.is_none() && r.written.is_empty()));
    assert!(bridge.pump().is_empty());
}

#[test]
fn end_to_end_update_emits_exactly_one_notice() {
    // group "Cef" has marker tag "v1.0"; the registry returns tag "v1.1"
    // with two assets and both installs succeed
    let mut bridge: Bridge<String> = Bridge::new();
    bridge.initialize().unwrap();
    let markers = vec![Some("v1.1".to_owned()), Some("v1.0".to_owned())];
    let queries = vec![
        QueryResult::Release(ReleaseInfo {
            tag: "v1.1".to_owned(),
            assets: vec!["https://host/loader.so".to_owned()],
        }),
        QueryResult::Release(ReleaseInfo {
            tag: "v1.1".to_owned(),
            assets: vec!["https://host/plugin.so".to_owned(), "https://host/browser".to_owned()],
        }),
    ];
    let outcomes = vec![
        vec![InstallOutcome::Installed],
        vec![InstallOutcome::Installed, InstallOutcome::Installed],
    ];
    let (runs, changed) = update_plugins(&mut bridge, &markers, &queries, &outcomes, &Ok(false));
    assert!(changed);
    // the loader group was already on v1.1 and is untouched
    assert!(!runs[0].changed);
    assert!(runs[0].written.is_empty());
    // the main group's marker becomes "v1.1" and both files were replaced
    assert!(runs[1].changed);
    assert_eq!(runs[1].new_marker, Some("v1.1".to_owned()));
    assert_eq!(
        runs[1].written,
        vec!["./cef/classicube_cef_linux_x86_64.so".to_owned(), "cef/cef-linux-x86_64".to_owned()]
    );
    // exactly one status notice reaches the main thread
    let batch = bridge.pump();
    assert_eq!(batch, vec![update_notice_text()]);
    assert!(bridge.pump().is_empty());
}

#[test]
fn notice_text_names_the_restart() {
    assert_eq!(update_notice_text(), "Everything done, restart your game to finish the update!");
    // the decision helper the orchestrator rests on
    assert!(needs_update(&Some("v1.0".to_owned()), &"v1.1".to_owned()));
}
