use vstd::prelude::*;
use vstd::string::*;

use crate::constants::WATCH_COOLDOWN_MS;

verus! {

/// What happened to a watched file, as the file watcher reports it.
#[derive(Clone, Copy, Debug, PartialEq, Eq, Structural)]
pub enum ChangeKind {
    Any,
    Access,
    Create,
    Modify,
    Remove,
    Other,
}

impl ChangeKind {
    pub open spec fn spec_is_modify(&self) -> bool {
        *self == ChangeKind::Modify
    }

    #[verifier::when_used_as_spec(spec_is_modify)]
    pub fn is_modify(&self) -> (modify: bool)
        ensures
            modify == self.spec_is_modify(),
    {
        matches!(self, ChangeKind::Modify)
    }
}

/// Whether a batch of changes holds a modification. An empty batch holds
/// none.
pub open spec fn has_modification(batch: Seq<ChangeKind>) -> bool {
    exists|i: int| 0 <= i < batch.len() && (#[trigger] batch[i]).is_modify()
}

/// Whether a batch of changes holds a modification.
pub fn contains_modification(batch: &Vec<ChangeKind>) -> (found: bool)
    ensures
        found == has_modification(batch@),
{
    let mut i: usize = 0;
    while i < batch.len()
        invariant
            i <= batch.len(),
            forall|j: int| 0 <= j < i ==> !(#[trigger] batch@[j]).is_modify(),
        decreases batch.len() - i,
    {
        if batch[i].is_modify() {
            return true;
        }
        i += 1;
    }
    false
}

/// Why a watching session could not be set up.
#[derive(Clone, Copy, Debug, PartialEq, Eq, Structural)]
pub enum WatchError {
    /// Watching was asked for, but the configuration names no path to watch.
    NoWatchPaths,
}

impl WatchError {
    /// What the operator is told.
    pub fn message(&self) -> (message: String)
        ensures
            message@
                == "Called with --watch flag but no paths were provided. Please provide at least one path to watch in the dploy.toml"@,
    {
        String::from_str(
            "Called with --watch flag but no paths were provided. Please provide at least one path to watch in the dploy.toml",
        )
    }
}

/// Where a watching session stands.
#[derive(Clone, Copy, Debug, PartialEq, Eq, Structural)]
pub enum WatchPhase {
    /// The first, full deployment is under way.
    Deploying,
    /// The instance is up and its logs are being followed.
    Running,
    /// The application's container is being reconciled after a change.
    Rebuilding,
    /// The session is over.
    Stopped,
}

/// What the caller of a watching session does next.
#[derive(Clone, Copy, Debug, PartialEq, Eq, Structural)]
pub enum WatchAction {
    /// Poll again after the polling interval.
    Wait,
    /// Cancel the task that follows the logs, reconcile the application's
    /// container and no other, follow the logs anew, and report `rebuilt`
    /// or `failed`.
    Rebuild,
    /// Cancel the task that follows the logs and return.
    Exit,
    /// Return the failure.
    Abort,
}

/// A watching session: a local deployment that redeploys the application
/// when its sources change.
#[derive(Clone, Copy, Debug)]
pub struct WatchSession {
    phase: WatchPhase,
    last_deploy: u64,
}

pub struct WatchSessionView {
    pub phase: WatchPhase,
    /// When the application was last deployed, in milliseconds on the
    /// caller's clock.
    pub last_deploy: u64,
}

impl View for WatchSession {
    type V = WatchSessionView;

    closed spec fn view(&self) -> WatchSessionView {
        WatchSessionView { phase: self.phase, last_deploy: self.last_deploy }
    }
}

/// Whether the cooldown that follows a deployment is over at `now`.
pub open spec fn cooled_down(last_deploy: u64, now: u64) -> bool {
    now - last_deploy >= WATCH_COOLDOWN_MS
}

/// The session once a deployment has come through at `now`: the first one,
/// or a rebuild. Its logs are followed from then on, and the cooldown
/// starts.
pub open spec fn after_deployed(session: WatchSessionView, now: u64) -> WatchSessionView {
    match session.phase {
        WatchPhase::Deploying | WatchPhase::Rebuilding => WatchSessionView {
            phase: WatchPhase::Running,
            last_deploy: now,
        },
        _ => session,
    }
}

/// The session once a deployment has failed. It does not go on with an
/// instance that is out of date.
pub open spec fn after_failed(session: WatchSessionView) -> WatchSessionView {
    WatchSessionView { phase: WatchPhase::Stopped, last_deploy: session.last_deploy }
}

/// What one polling tick decides. A pending shutdown ends the session. A
/// batch of changes redeploys the application if the session is running,
/// the batch holds a modification and the cooldown is over; any other batch
/// is discarded and changes nothing.
pub open spec fn after_tick(
    session: WatchSessionView,
    shutdown: bool,
    changes: Option<Seq<ChangeKind>>,
    now: u64,
) -> (WatchSessionView, WatchAction) {
    if session.phase is Stopped || shutdown {
        (
            WatchSessionView { phase: WatchPhase::Stopped, last_deploy: session.last_deploy },
            WatchAction::Exit,
        )
    } else if session.phase is Running && changes is Some && has_modification(changes->0)
        && cooled_down(session.last_deploy, now) {
        (
            WatchSessionView { phase: WatchPhase::Rebuilding, last_deploy: session.last_deploy },
            WatchAction::Rebuild,
        )
    } else {
        (session, WatchAction::Wait)
    }
}

impl WatchSession {
    /// Sets a watching session up, before anything is deployed. Without a
    /// path to watch there is no session.
    pub fn begin(watch_paths: &Vec<String>) -> (session: Result<WatchSession, WatchError>)
        ensures
            watch_paths.len() == 0 ==> session == Err::<WatchSession, WatchError>(
                WatchError::NoWatchPaths,
            ),
            watch_paths.len() > 0 ==> session is Ok && session->Ok_0@.phase is Deploying,
    {
        if watch_paths.len() == 0 {
            return Err(WatchError::NoWatchPaths);
        }
        Ok(WatchSession { phase: WatchPhase::Deploying, last_deploy: 0 })
    }

    pub fn phase(&self) -> (phase: WatchPhase)
        ensures
            phase == self@.phase,
    {
        self.phase
    }

    pub fn last_deploy(&self) -> (last_deploy: u64)
        ensures
            last_deploy == self@.last_deploy,
    {
        self.last_deploy
    }

    /// Reports that the deployment under way, the first one or a rebuild,
    /// came through, and that the logs are followed again.
    pub fn deployed(&mut self, now: u64)
        ensures
            final(self)@ == after_deployed(old(self)@, now),
    {
        match self.phase {
            WatchPhase::Deploying | WatchPhase::Rebuilding => {
                self.phase = WatchPhase::Running;
                self.last_deploy = now;
            },
            _ => {},
        }
    }

    /// Reports that the deployment under way failed.
    pub fn failed(&mut self) -> (action: WatchAction)
        ensures
            final(self)@ == after_failed(old(self)@),
            action == WatchAction::Abort,
    {
        self.phase = WatchPhase::Stopped;
        WatchAction::Abort
    }

    /// Decides one polling tick. `shutdown` says whether the interrupt
    /// signal has come in, `changes` holds the batch of changes that the
    /// file watcher delivered, if it delivered one, and `now` is the time
    /// on the clock that `deployed` was given.
    pub fn tick(&mut self, shutdown: bool, changes: Option<&Vec<ChangeKind>>, now: u64) -> (action:
        WatchAction)
        ensures
            (final(self)@, action) == after_tick(
                old(self)@,
                shutdown,
                match changes {
                    Some(batch) => Some(batch@),
                    None => None,
                },
                now,
            ),
    {
        if matches!(self.phase, WatchPhase::Stopped) || shutdown {
            self.phase = WatchPhase::Stopped;
            return WatchAction::Exit;
        }
        if let Some(batch) = changes {
            if matches!(self.phase, WatchPhase::Running) && now >= self.last_deploy && now
                - self.last_deploy >= WATCH_COOLDOWN_MS && contains_modification(batch) {
                self.phase = WatchPhase::Rebuilding;
                return WatchAction::Rebuild;
            }
        }
        WatchAction::Wait
    }
}

/// Of two batches of modifications, the first coming after the cooldown and
/// the second within the cooldown of the rebuild that the first set off,
/// only the first leads to a rebuild: the second is discarded and leaves
/// the session as it was.
pub proof fn lemma_burst_rebuilds_once(
    session: WatchSessionView,
    first: Seq<ChangeKind>,
    first_at: u64,
    rebuilt_at: u64,
    second: Seq<ChangeKind>,
    second_at: u64,
)
    requires
        session.phase is Running,
        has_modification(first),
        has_modification(second),
        cooled_down(session.last_deploy, first_at),
        !cooled_down(rebuilt_at, second_at),
    ensures
        after_tick(session, false, Some(first), first_at).1 == WatchAction::Rebuild,
        ({
            let rebuilding = after_tick(session, false, Some(first), first_at).0;
            let running = after_deployed(rebuilding, rebuilt_at);
            &&& running.phase is Running
            &&& after_tick(running, false, Some(second), second_at) == (running, WatchAction::Wait)
        }),
{
}

/// At most one rebuild is under way at any time: a tick asks for a rebuild
/// only while the session is running, and while that rebuild is under way
/// no tick asks for another.
pub proof fn lemma_one_rebuild_at_a_time(
    session: WatchSessionView,
    shutdown: bool,
    changes: Option<Seq<ChangeKind>>,
    now: u64,
    next_shutdown: bool,
    next_changes: Option<Seq<ChangeKind>>,
    next: u64,
)
    requires
        after_tick(session, shutdown, changes, now).1 == WatchAction::Rebuild,
    ensures
        session.phase is Running,
        after_tick(session, shutdown, changes, now).0.phase is Rebuilding,
        after_tick(
            after_tick(session, shutdown, changes, now).0,
            next_shutdown,
            next_changes,
            next,
        ).1 != WatchAction::Rebuild,
{
}

/// A pending shutdown ends the session at the next tick, wherever it
/// stands and whatever has changed, and an ended session stays ended.
pub proof fn lemma_shutdown_ends_session(
    session: WatchSessionView,
    changes: Option<Seq<ChangeKind>>,
    now: u64,
    later_changes: Option<Seq<ChangeKind>>,
    later: u64,
)
    ensures
        after_tick(session, true, changes, now).1 == WatchAction::Exit,
        after_tick(session, true, changes, now).0.phase is Stopped,
        after_tick(after_tick(session, true, changes, now).0, false, later_changes, later).1
            == WatchAction::Exit,
{
}

} // verus!
