use vstd::prelude::*;
use crate::classify::{classified, classify};
use crate::device::ScannedDevice;
use crate::error::ScanError;

verus! {

/// The fixed length of the discovery window, in seconds. The window cannot
/// be shortened or lengthened per call.
pub const DEFAULT_WINDOW_SECS: u64 = 5;

/// One timed discovery window: a fixed duration together with an
/// accept-all discovery filter (the filter admits every advertisement and
/// carries no data of its own). Immutable once a scan starts.
#[derive(Debug, PartialEq, Eq, Structural, Clone, Copy)]
pub struct ScanWindow {
    /// How long advertisements are collected, in seconds.
    pub duration_secs: u64,
}

impl ScanWindow {
    /// The standard window: accept-all filter, five-second duration.
    pub fn standard() -> (w: ScanWindow)
        ensures
            w.duration_secs == DEFAULT_WINDOW_SECS,
    {
        ScanWindow { duration_secs: DEFAULT_WINDOW_SECS }
    }
}

/// Where one scan invocation stands. Every failure moves directly to the
/// terminal `Failed` state; there is no retry and no re-entry into an
/// earlier phase.
#[derive(Debug, PartialEq)]
pub enum ScanState {
    /// Nothing has happened yet.
    Idle,
    /// One adapter was selected and is exclusively owned by this scan.
    AdapterAcquired,
    /// The start-discovery request succeeded; the window is open.
    Scanning,
    /// The window elapsed and the stop-discovery request succeeded.
    Stopped,
    /// Every peripheral snapshot was read; classification is still owed.
    Read(Vec<ScannedDevice>),
    /// Terminal success: the classified candidate list, in enumeration
    /// order. An empty list is a valid, non-error outcome.
    Done(Vec<ScannedDevice>),
    /// Terminal failure for the whole invocation.
    Failed(ScanError),
}

/// The outside work the driving program must perform next. Each action is
/// attempted exactly once per invocation.
#[derive(Debug, PartialEq)]
pub enum ScanAction {
    /// Initialize the platform radio manager and enumerate its adapters.
    AcquireAdapter,
    /// Issue the start-discovery request with the accept-all filter.
    StartDiscovery,
    /// Suspend for the given number of seconds (the full window; no early
    /// exit on a first match), then issue the stop-discovery request.
    WaitThenStop(u64),
    /// Enumerate the observed peripherals and read their property
    /// snapshots.
    ReadSnapshots,
    /// Run the classifier over the snapshots; no outside work is involved.
    RunClassifier,
}

/// The outcome of one action, reported back by the driving program.
#[derive(Debug, PartialEq)]
pub enum ScanEvent {
    /// At least one adapter exists; the first one was taken.
    AdapterFound,
    /// The enumeration was empty: radio hardware absent or disabled.
    NoAdapterFound,
    /// Initializing the manager or enumerating adapters itself failed.
    PlatformFailure(String),
    /// The start-discovery request succeeded.
    DiscoveryStarted,
    /// The start-discovery request failed; no stop is attempted.
    StartFailed(String),
    /// The window elapsed and the stop-discovery request succeeded.
    DiscoveryStopped,
    /// The stop-discovery request failed after the window elapsed.
    StopFailed(String),
    /// Every tracked peripheral produced a property snapshot (peripherals
    /// with no snapshot at all are silently excluded by the reader).
    SnapshotsRead(Vec<ScannedDevice>),
    /// Some peripheral's properties could not be read; the whole read is
    /// abandoned (all-or-nothing strictness).
    SnapshotReadFailed(String),
}

/// Which events may be reported in which state. Terminal states and the
/// `Read` state (whose step is internal classification) accept none.
pub open spec fn event_fits(s: ScanState, e: ScanEvent) -> bool {
    match (s, e) {
        (ScanState::Idle, ScanEvent::AdapterFound) => true,
        (ScanState::Idle, ScanEvent::NoAdapterFound) => true,
        (ScanState::Idle, ScanEvent::PlatformFailure(_)) => true,
        (ScanState::AdapterAcquired, ScanEvent::DiscoveryStarted) => true,
        (ScanState::AdapterAcquired, ScanEvent::StartFailed(_)) => true,
        (ScanState::Scanning, ScanEvent::DiscoveryStopped) => true,
        (ScanState::Scanning, ScanEvent::StopFailed(_)) => true,
        (ScanState::Stopped, ScanEvent::SnapshotsRead(_)) => true,
        (ScanState::Stopped, ScanEvent::SnapshotReadFailed(_)) => true,
        _ => false,
    }
}

/// The transition relation of one scan invocation:
/// `Idle -> AdapterAcquired -> Scanning -> Stopped -> Read -> Done`, with
/// any step's failure moving directly to `Failed(reason)`.
pub open spec fn step_spec(s: ScanState, e: ScanEvent) -> ScanState {
    match (s, e) {
        (ScanState::Idle, ScanEvent::AdapterFound) => ScanState::AdapterAcquired,
        (ScanState::Idle, ScanEvent::NoAdapterFound) => ScanState::Failed(
            ScanError::NoAdapterError,
        ),
        (ScanState::Idle, ScanEvent::PlatformFailure(d)) => ScanState::Failed(
            ScanError::PlatformError(d),
        ),
        (ScanState::AdapterAcquired, ScanEvent::DiscoveryStarted) => ScanState::Scanning,
        (ScanState::AdapterAcquired, ScanEvent::StartFailed(d)) => ScanState::Failed(
            ScanError::StartScanError(d),
        ),
        (ScanState::Scanning, ScanEvent::DiscoveryStopped) => ScanState::Stopped,
        (ScanState::Scanning, ScanEvent::StopFailed(d)) => ScanState::Failed(
            ScanError::StopScanError(d),
        ),
        (ScanState::Stopped, ScanEvent::SnapshotsRead(devs)) => ScanState::Read(devs),
        (ScanState::Stopped, ScanEvent::SnapshotReadFailed(d)) => ScanState::Failed(
            ScanError::PropertyReadError(d),
        ),
        (s, _) => s,
    }
}

/// The action owed in each state: `None` only in the two terminal states.
pub open spec fn next_action_spec(s: ScanSession) -> Option<ScanAction> {
    match s.state {
        ScanState::Idle => Some(ScanAction::AcquireAdapter),
        ScanState::AdapterAcquired => Some(ScanAction::StartDiscovery),
        ScanState::Scanning => Some(ScanAction::WaitThenStop(s.window.duration_secs)),
        ScanState::Stopped => Some(ScanAction::ReadSnapshots),
        ScanState::Read(_) => Some(ScanAction::RunClassifier),
        ScanState::Done(_) => None,
        ScanState::Failed(_) => None,
    }
}

/// One scan invocation: a window fixed at the start and the current state.
/// All of it is created at the start of one scan call and discarded at its
/// end; nothing survives across invocations.
#[derive(Debug, PartialEq)]
pub struct ScanSession {
    /// The window this scan was started with; immutable afterwards.
    pub window: ScanWindow,
    /// Where the invocation stands.
    pub state: ScanState,
}

impl ScanSession {
    /// Begin a fresh invocation in the `Idle` state.
    pub fn new(window: ScanWindow) -> (s: ScanSession)
        ensures
            s.window == window,
            s.state == ScanState::Idle,
    {
        ScanSession { window, state: ScanState::Idle }
    }

    /// The outside work owed next, or `None` once the scan is terminal.
    pub fn next_action(&self) -> (a: Option<ScanAction>)
        ensures
            a == next_action_spec(*self),
    {
        match &self.state {
            ScanState::Idle => Some(ScanAction::AcquireAdapter),
            ScanState::AdapterAcquired => Some(ScanAction::StartDiscovery),
            ScanState::Scanning => Some(ScanAction::WaitThenStop(self.window.duration_secs)),
            ScanState::Stopped => Some(ScanAction::ReadSnapshots),
            ScanState::Read(_) => Some(ScanAction::RunClassifier),
            ScanState::Done(_) => None,
            ScanState::Failed(_) => None,
        }
    }

    /// Whether `event` may be reported in the current state. The driving
    /// program checks this before calling [`Self::handle`].
    pub fn accepts(&self, event: &ScanEvent) -> (r: bool)
        ensures
            r == event_fits(self.state, *event),
    {
        match (&self.state, event) {
            (ScanState::Idle, ScanEvent::AdapterFound) => true,
            (ScanState::Idle, ScanEvent::NoAdapterFound) => true,
            (ScanState::Idle, ScanEvent::PlatformFailure(_)) => true,
            (ScanState::AdapterAcquired, ScanEvent::DiscoveryStarted) => true,
            (ScanState::AdapterAcquired, ScanEvent::StartFailed(_)) => true,
            (ScanState::Scanning, ScanEvent::DiscoveryStopped) => true,
            (ScanState::Scanning, ScanEvent::StopFailed(_)) => true,
            (ScanState::Stopped, ScanEvent::SnapshotsRead(_)) => true,
            (ScanState::Stopped, ScanEvent::SnapshotReadFailed(_)) => true,
            _ => false,
        }
    }

    /// Advance the invocation by the outcome of one action, exactly as the
    /// transition relation [`step_spec`] says. The window never changes.
    pub fn handle(&mut self, event: ScanEvent)
        requires
            event_fits(old(self).state, event),
        ensures
            final(self).window == old(self).window,
            final(self).state == step_spec(old(self).state, event),
    {
        let next = match (&self.state, event) {
            (ScanState::Idle, ScanEvent::AdapterFound) => ScanState::AdapterAcquired,
            (ScanState::Idle, ScanEvent::NoAdapterFound) => ScanState::Failed(
                ScanError::NoAdapterError,
            ),
            (ScanState::Idle, ScanEvent::PlatformFailure(d)) => ScanState::Failed(
                ScanError::PlatformError(d),
            ),
            (ScanState::AdapterAcquired, ScanEvent::DiscoveryStarted) => ScanState::Scanning,
            (ScanState::AdapterAcquired, ScanEvent::StartFailed(d)) => ScanState::Failed(
                ScanError::StartScanError(d),
            ),
            (ScanState::Scanning, ScanEvent::DiscoveryStopped) => ScanState::Stopped,
            (ScanState::Scanning, ScanEvent::StopFailed(d)) => ScanState::Failed(
                ScanError::StopScanError(d),
            ),
            (ScanState::Stopped, ScanEvent::SnapshotsRead(devs)) => ScanState::Read(devs),
            (ScanState::Stopped, ScanEvent::SnapshotReadFailed(d)) => ScanState::Failed(
                ScanError::PropertyReadError(d),
            ),
            _ => vstd::pervasive::unreached(),
        };
        self.state = next;
    }

    /// The internal classification step: from the read snapshots to the
    /// terminal candidate list. Involves no outside work.
    pub fn run_classifier(self) -> (out: ScanSession)
        requires
            self.state is Read,
        ensures
            out.window == self.window,
            out.state matches ScanState::Done(r) && r@ == classified(self.state->Read_0@),
    {
        match self {
            ScanSession { window, state: ScanState::Read(devs) } => ScanSession {
                window,
                state: ScanState::Done(classify(devs)),
            },
            _ => vstd::pervasive::unreached(),
        }
    }

    /// Collapse a finished invocation to the caller-facing result: either
    /// the full classified list, or nothing plus an error.
    pub fn into_result(self) -> (r: Result<Vec<ScannedDevice>, ScanError>)
        requires
            self.state is Done || self.state is Failed,
        ensures
            self.state matches ScanState::Done(devs) ==> (r matches Ok(o) && o == devs),
            self.state matches ScanState::Failed(e) ==> (r matches Err(err) && err == e),
    {
        match self.state {
            ScanState::Done(devs) => Ok(devs),
            ScanState::Failed(e) => Err(e),
            _ => vstd::pervasive::unreached(),
        }
    }
}

/// Select the one adapter a scan will use: deterministically the first the
/// platform reports, with no preference policy beyond that. An empty
/// enumeration is the user-visible, non-retryable `NoAdapterError`.
pub fn acquire_adapter<T>(adapters: Vec<T>) -> (r: Result<T, ScanError>)
    ensures
        adapters@.len() == 0 ==> (r matches Err(e) && e == ScanError::NoAdapterError),
        adapters@.len() > 0 ==> (r matches Ok(a) && a == adapters@[0]),
{
    let mut found = adapters;
    if found.len() == 0 {
        Err(ScanError::NoAdapterError)
    } else {
        Ok(found.remove(0))
    }
}

} // verus!
