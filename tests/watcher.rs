use deployer::project::ServiceError;
use deployer::watcher::{
    after_first_clone, after_second_clone, auth_header, CloneOutcome, CommitWatcher, PullError, PullStep,
    WatchAction, WatchEvent,
};
use deployer::workspace::FolderFormatError;

fn response(status: u16, sha: Option<&str>) -> WatchEvent {
    WatchEvent::Response { status, sha: sha.map(|s| s.to_string()) }
}

#[test]
fn new_commit_is_deployed() {
    let mut w = CommitWatcher::new();
    assert_eq!(w.last_seen_sha(), None);
    match w.handle(response(200, Some("abc"))) {
        WatchAction::Deploy(s) => assert_eq!(s, "abc"),
        _ => panic!("expected a deploy"),
    }
    assert_eq!(w.last_seen_sha(), None);
}

#[test]
fn server_error_is_transient() {
    let mut w = CommitWatcher::new();
    w.handle(WatchEvent::DeployFinished { commit: String::from("abc"), outcomes: Vec::new() });
    assert!(matches!(w.handle(response(500, Some("def"))), WatchAction::Wait));
    assert_eq!(w.last_seen_sha(), Some(String::from("abc")));
    assert!(matches!(w.handle(WatchEvent::RequestFailed), WatchAction::Wait));
    assert!(matches!(w.handle(response(200, None)), WatchAction::Wait));
    assert_eq!(w.last_seen_sha(), Some(String::from("abc")));
}

#[test]
fn unauthorized_aborts() {
    let mut w = CommitWatcher::new();
    assert!(matches!(w.handle(response(401, Some("abc"))), WatchAction::Abort));
    assert_eq!(w.last_seen_sha(), None);
}

#[test]
fn partial_failure_still_records_commit() {
    let mut w = CommitWatcher::new();
    let outcomes = vec![Ok(()), Err(ServiceError::BuildFailed(Some(101))), Ok(())];
    assert!(matches!(
        w.handle(WatchEvent::DeployFinished { commit: String::from("abc"), outcomes }),
        WatchAction::Wait
    ));
    assert_eq!(w.last_seen_sha(), Some(String::from("abc")));
    assert!(matches!(w.handle(response(200, Some("abc"))), WatchAction::Wait));
    match w.handle(response(200, Some("def"))) {
        WatchAction::Deploy(s) => assert_eq!(s, "def"),
        _ => panic!("expected a deploy"),
    }
}

#[test]
fn authorization_header() {
    assert_eq!(auth_header("SECRET-REDACTED"), "token SECRET-REDACTED");
}

#[test]
fn clone_steps() {
    assert!(matches!(after_first_clone(String::from("/w/01_Sep_2024_1307"), CloneOutcome::Cloned), PullStep::Done(d) if d == "/w/01_Sep_2024_1307"));
    assert!(matches!(after_first_clone(String::from("/w/01_Sep_2024_1307"), CloneOutcome::Failed), PullStep::Failed(PullError::CloneFailed)));
    assert!(matches!(
        after_first_clone(String::from("/tmp/deployer-tests/01_Sep_2024_1307"), CloneOutcome::AlreadyExists),
        PullStep::CloneAgain(d) if d == "/tmp/deployer-tests/01_Sep_2024_1307_01"
    ));
    assert!(matches!(
        after_first_clone(String::from("/w/01_Sep"), CloneOutcome::AlreadyExists),
        PullStep::Failed(PullError::Folder(FolderFormatError::FailedToFormat))
    ));
    assert!(matches!(after_second_clone(String::from("/w/x"), CloneOutcome::Cloned), PullStep::Done(d) if d == "/w/x"));
    assert!(matches!(after_second_clone(String::from("/w/x"), CloneOutcome::AlreadyExists), PullStep::Failed(PullError::CloneFailed)));
}

#[test]
fn second_clone_avoids_taken_directory() {
    assert!(matches!(
        after_first_clone(String::from("/tmp/deployer-tests/01_Sep_2024_1307_01"), CloneOutcome::AlreadyExists),
        PullStep::CloneAgain(d) if d == "/tmp/deployer-tests/01_Sep_2024_1307_02"
    ));
}
