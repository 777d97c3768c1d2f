use dploy::commands::deploy::deploy_watch;
use dploy::commands::watch::{
    contains_modification, ChangeKind, WatchAction, WatchError, WatchPhase, WatchSession,
};
use dploy::constants::{WATCH_COOLDOWN_MS, WATCH_POLL_INTERVAL_MS};

fn running_since(now: u64) -> WatchSession {
    let mut session = WatchSession::begin(&vec!["src".to_string()]).unwrap();
    assert_eq!(session.phase(), WatchPhase::Deploying);
    session.deployed(now);
    assert_eq!(session.phase(), WatchPhase::Running);
    assert_eq!(session.last_deploy(), now);
    session
}

#[test]
fn watch_without_paths_is_a_setup_error() {
    let session = deploy_watch(&vec![]);
    assert_eq!(session.err(), Some(WatchError::NoWatchPaths));
    assert_eq!(WatchSession::begin(&vec![]).err(), Some(WatchError::NoWatchPaths));
    assert_eq!(
        WatchError::NoWatchPaths.message(),
        "Called with --watch flag but no paths were provided. Please provide at least one path to watch in the dploy.toml"
    );
}

#[test]
fn watch_with_a_path_starts_by_deploying() {
    let session = deploy_watch(&vec!["src".to_string(), "Cargo.toml".to_string()]).unwrap();
    assert_eq!(session.phase(), WatchPhase::Deploying);
}

#[test]
fn burst_of_modifications_rebuilds_once() {
    let mut session = running_since(10_000);
    let batch = vec![ChangeKind::Modify];

    assert_eq!(session.tick(false, Some(&batch), 13_000), WatchAction::Rebuild);
    assert_eq!(session.phase(), WatchPhase::Rebuilding);
    session.deployed(13_500);
    assert_eq!(session.phase(), WatchPhase::Running);
    assert_eq!(session.last_deploy(), 13_500);

    assert_eq!(session.tick(false, Some(&batch), 14_000), WatchAction::Wait);
    assert_eq!(session.phase(), WatchPhase::Running);
    assert_eq!(session.last_deploy(), 13_500);
    assert_eq!(session.tick(false, Some(&batch), 16_499), WatchAction::Wait);
    assert_eq!(session.last_deploy(), 13_500);
}

#[test]
fn cooldown_ends_after_three_seconds() {
    assert_eq!(WATCH_COOLDOWN_MS, 3000);
    assert_eq!(WATCH_POLL_INTERVAL_MS, 1000);
    let batch = vec![ChangeKind::Modify];
    assert_eq!(running_since(1_000).tick(false, Some(&batch), 3_999), WatchAction::Wait);
    assert_eq!(running_since(1_000).tick(false, Some(&batch), 4_000), WatchAction::Rebuild);
    assert_eq!(running_since(1_000).tick(false, Some(&batch), 4_001), WatchAction::Rebuild);
    assert_eq!(running_since(1_000).tick(false, Some(&batch), 0), WatchAction::Wait);
}

#[test]
fn batch_without_a_modification_is_discarded() {
    let mut session = running_since(0);
    let batch = vec![ChangeKind::Access, ChangeKind::Create, ChangeKind::Remove, ChangeKind::Any];
    assert_eq!(session.tick(false, Some(&batch), 60_000), WatchAction::Wait);
    assert_eq!(session.tick(false, Some(&vec![]), 60_000), WatchAction::Wait);
    assert_eq!(session.tick(false, None, 60_000), WatchAction::Wait);
    assert_eq!(session.phase(), WatchPhase::Running);
    assert_eq!(session.last_deploy(), 0);
    let mixed = vec![ChangeKind::Access, ChangeKind::Other, ChangeKind::Modify];
    assert_eq!(session.tick(false, Some(&mixed), 60_000), WatchAction::Rebuild);
}

#[test]
fn shutdown_comes_before_changes() {
    let mut session = running_since(0);
    let batch = vec![ChangeKind::Modify];
    assert_eq!(session.tick(true, Some(&batch), 60_000), WatchAction::Exit);
    assert_eq!(session.phase(), WatchPhase::Stopped);
    assert_eq!(session.tick(false, Some(&batch), 120_000), WatchAction::Exit);
    session.deployed(130_000);
    assert_eq!(session.phase(), WatchPhase::Stopped);
}

#[test]
fn failed_rebuild_ends_the_session() {
    let mut session = running_since(0);
    assert_eq!(session.tick(false, Some(&vec![ChangeKind::Modify]), 5_000), WatchAction::Rebuild);
    assert_eq!(session.failed(), WatchAction::Abort);
    assert_eq!(session.phase(), WatchPhase::Stopped);
    assert_eq!(session.tick(false, Some(&vec![ChangeKind::Modify]), 50_000), WatchAction::Exit);
}

#[test]
fn nothing_is_rebuilt_while_a_deployment_is_under_way() {
    let mut session = WatchSession::begin(&vec!["src".to_string()]).unwrap();
    assert_eq!(session.tick(false, Some(&vec![ChangeKind::Modify]), 99_000), WatchAction::Wait);
    assert_eq!(session.phase(), WatchPhase::Deploying);
}

#[test]
fn modification_is_told_from_other_changes() {
    assert!(ChangeKind::Modify.is_modify());
    for kind in [
        ChangeKind::Any,
        ChangeKind::Access,
        ChangeKind::Create,
        ChangeKind::Remove,
        ChangeKind::Other,
    ] {
        assert!(!kind.is_modify());
    }
    assert!(contains_modification(&vec![ChangeKind::Create, ChangeKind::Modify]));
    assert!(!contains_modification(&vec![ChangeKind::Create, ChangeKind::Remove]));
    assert!(!contains_modification(&vec![]));
}
