//! The commit watcher: the decisions of the polling loop, taken from the last
//! commit seen and what the latest poll or deploy cycle brought.

use vstd::prelude::*;
use vstd::string::{StrSliceExecFns, StringExecFns};
use crate::project::ServiceError;
use crate::text::split;
use crate::workspace::{candidate, update_destination, FolderFormatError, MAX_SUFFIX_INDEX};

verus! {

/// Seconds between two polls.
pub const POLL_INTERVAL_SECS: u64 = 60;

/// The HTTP status that ends the agent: the credentials were refused.
pub const UNAUTHORIZED: u16 = 401;

/// The client identifier sent with every request.
pub const USER_AGENT: &'static str = "request";

/// What the loop learns between two decisions.
pub enum WatchEvent {
    /// The request could not be sent or no response came back.
    RequestFailed,
    /// A response came back with `status`; `sha` is the commit identifier
    /// read from its body, or nothing when the body could not be read as one.
    Response { status: u16, sha: Option<String> },
    /// The deploy cycle of commit `commit` is over; one outcome per service
    /// that was attempted.
    DeployFinished { commit: String, outcomes: Vec<Result<(), ServiceError>> },
}

/// What the loop does next.
pub enum WatchAction {
    /// Sleep for the poll interval, then poll again.
    Wait,
    /// Stop the agent.
    Abort,
    /// Fetch commit `sha` and deploy every service from it.
    Deploy(String),
}

/// The meaning of a `WatchAction`.
pub enum ActionView {
    Wait,
    Abort,
    Deploy(Seq<char>),
}

impl View for WatchAction {
    type V = ActionView;

    open spec fn view(&self) -> ActionView {
        match self {
            WatchAction::Wait => ActionView::Wait,
            WatchAction::Abort => ActionView::Abort,
            WatchAction::Deploy(s) => ActionView::Deploy(s@),
        }
    }
}

/// Whether an HTTP status reports success.
pub open spec fn is_success(status: u16) -> bool {
    200 <= status <= 299
}

/// The view of an optional string.
pub open spec fn opt_view(s: Option<String>) -> Option<Seq<char>> {
    match s {
        Some(t) => Some(t@),
        None => None,
    }
}

/// The decision on a poll response, given the last commit seen: refused
/// credentials abort; any other failure, an unreadable body or a commit
/// already seen waits; a new commit is deployed.
pub open spec fn poll_decision(last: Option<Seq<char>>, status: u16, sha: Option<Seq<char>>) -> ActionView {
    if status == UNAUTHORIZED {
        ActionView::Abort
    } else if !is_success(status) {
        ActionView::Wait
    } else {
        match sha {
            None => ActionView::Wait,
            Some(s) => if last == Some(s) {
                ActionView::Wait
            } else {
                ActionView::Deploy(s)
            },
        }
    }
}

/// The watcher's transition: the last commit seen after `event`, and the
/// action to take. Polls never change the last commit seen; a finished
/// deploy cycle records its commit, whatever became of its services.
pub open spec fn step(last: Option<Seq<char>>, event: WatchEvent) -> (Option<Seq<char>>, ActionView) {
    match event {
        WatchEvent::RequestFailed => (last, ActionView::Wait),
        WatchEvent::Response { status, sha } => (last, poll_decision(last, status, opt_view(sha))),
        WatchEvent::DeployFinished { commit, outcomes } => (Some(commit@), ActionView::Wait),
    }
}

/// The polling loop's state: the last commit seen, if any.
pub struct CommitWatcher {
    last_seen_sha: Option<String>,
}

impl View for CommitWatcher {
    type V = Option<Seq<char>>;

    closed spec fn view(&self) -> Option<Seq<char>> {
        opt_view(self.last_seen_sha)
    }
}

impl CommitWatcher {
    /// A watcher that has seen no commit yet.
    pub fn new() -> (r: Self)
        ensures
            r@ is None,
    {
        CommitWatcher { last_seen_sha: None }
    }

    /// The last commit seen.
    pub fn last_seen_sha(&self) -> (r: Option<String>)
        ensures
            opt_view(r) == self@,
    {
        match &self.last_seen_sha {
            Some(s) => Some(s.clone()),
            None => None,
        }
    }

    /// Takes one event and returns the action that follows it.
    pub fn handle(&mut self, event: WatchEvent) -> (r: WatchAction)
        ensures
            (final(self)@, r@) == step(old(self)@, event),
    {
        match event {
            WatchEvent::RequestFailed => WatchAction::Wait,
            WatchEvent::Response { status, sha } => {
                if status == UNAUTHORIZED {
                    WatchAction::Abort
                } else if status < 200 || status > 299 {
                    WatchAction::Wait
                } else {
                    match sha {
                        None => WatchAction::Wait,
                        Some(s) => {
                            let seen = match &self.last_seen_sha {
                                Some(last) => *last == s,
                                None => false,
                            };
                            if seen {
                                WatchAction::Wait
                            } else {
                                WatchAction::Deploy(s)
                            }
                        },
                    }
                }
            },
            WatchEvent::DeployFinished { commit, outcomes } => {
                self.last_seen_sha = Some(commit);
                WatchAction::Wait
            },
        }
    }
}

/// A failed request, a failure status other than 401 or an unreadable body
/// leaves the last commit seen as it was and waits for the next poll.
pub proof fn law_transient_failure(last: Option<Seq<char>>, event: WatchEvent)
    requires
        match event {
            WatchEvent::RequestFailed => true,
            WatchEvent::Response { status, sha } => status != UNAUTHORIZED && (!is_success(status)
                || sha is None),
            WatchEvent::DeployFinished { .. } => false,
        },
    ensures
        step(last, event).0 == last,
        step(last, event).1 == ActionView::Wait,
{
}

/// A 401 response stops the agent instead of polling again, and records
/// nothing.
pub proof fn law_unauthorized_aborts(last: Option<Seq<char>>, sha: Option<String>)
    ensures
        step(last, WatchEvent::Response { status: UNAUTHORIZED, sha }) == (last, ActionView::Abort),
{
}

/// After a deploy cycle the last commit seen is the one just deployed,
/// whatever the services' outcomes, failed builds included.
pub proof fn law_cycle_records_commit(
    last: Option<Seq<char>>,
    sha: String,
    outcomes: Vec<Result<(), ServiceError>>,
)
    ensures
        step(last, WatchEvent::DeployFinished { commit: sha, outcomes }).0 == Some(sha@),
{
}

/// A new commit is deployed once: when the poll that follows its deploy
/// cycle reports it again, the watcher waits.
pub proof fn law_commit_deployed_once(
    last: Option<Seq<char>>,
    sha: String,
    outcomes: Vec<Result<(), ServiceError>>,
    status: u16,
    again: String,
)
    requires
        again@ == sha@,
    ensures
        step(
            step(last, WatchEvent::DeployFinished { commit: sha, outcomes }).0,
            WatchEvent::Response { status, sha: Some(again) },
        ).1 != ActionView::Deploy(sha@),
{
}

/// The `Authorization` header value for a token: `token <token>`.
pub fn auth_header(token: &str) -> (r: String)
    ensures
        r@ == "token "@ + token@,
{
    let mut h = String::from_str("token ");
    h.append(token);
    h
}

/// How a clone attempt ended.
#[derive(Debug, Clone, Copy, PartialEq, Eq, Structural)]
pub enum CloneOutcome {
    Cloned,
    /// The destination already exists.
    AlreadyExists,
    Failed,
}

/// Why a workspace could not be fetched.
#[derive(Debug, Clone, Copy, PartialEq, Eq, Structural)]
pub enum PullError {
    CloneFailed,
    Folder(FolderFormatError),
}

/// What follows a clone attempt.
pub enum PullStep {
    /// The workspace is fetched into this directory.
    Done(String),
    /// Clone again, into this directory.
    CloneAgain(String),
    Failed(PullError),
}

/// Decides what follows the first clone into `root_dir`: done when it
/// succeeded, a failure when it failed otherwise. When `root_dir` already
/// exists, `update_destination` picks a numbered directory other than
/// `root_dir` to clone into again.
pub fn after_first_clone(root_dir: String, outcome: CloneOutcome) -> (r: PullStep)
    ensures
        outcome == CloneOutcome::Cloned ==> r == PullStep::Done(root_dir),
        outcome == CloneOutcome::Failed ==> r == PullStep::Failed(PullError::CloneFailed),
        outcome == CloneOutcome::AlreadyExists && split(root_dir@, '_').len() < 4 ==> r == PullStep::Failed(
            PullError::Folder(FolderFormatError::FailedToFormat),
        ),
        outcome == CloneOutcome::AlreadyExists && split(root_dir@, '_').len() >= 4 ==> match r {
            PullStep::CloneAgain(p) => p@ != root_dir@ && exists|k: int|
                1 <= k <= MAX_SUFFIX_INDEX && p@ == #[trigger] candidate(split(root_dir@, '_'), k),
            PullStep::Failed(e) => e == PullError::Folder(FolderFormatError::SuffixesExhausted),
            PullStep::Done(_) => false,
        },
{
    match outcome {
        CloneOutcome::Cloned => PullStep::Done(root_dir),
        CloneOutcome::Failed => PullStep::Failed(PullError::CloneFailed),
        CloneOutcome::AlreadyExists => match update_destination(true, root_dir, 1) {
            Ok(p) => PullStep::CloneAgain(p),
            Err(e) => PullStep::Failed(PullError::Folder(e)),
        },
    }
}

/// Decides what follows the second clone, into `dir`: done when it
/// succeeded, a failure otherwise.
pub fn after_second_clone(dir: String, outcome: CloneOutcome) -> (r: PullStep)
    ensures
        outcome == CloneOutcome::Cloned ==> r == PullStep::Done(dir),
        outcome != CloneOutcome::Cloned ==> r == PullStep::Failed(PullError::CloneFailed),
{
    match outcome {
        CloneOutcome::Cloned => PullStep::Done(dir),
        _ => PullStep::Failed(PullError::CloneFailed),
    }
}

} // verus!
