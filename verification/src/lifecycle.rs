//! Starting, stopping and querying the one background listener.
//!
//! At most one listener runs at a time. The state keeps what is needed to end
//! it: a handle that tells the worker to stop, and a handle to wait for it.
//! Both are there exactly while the listener runs.

use vstd::prelude::*;

verus! {

/// The state of the listener. `S` is the handle that signals the worker to
/// stop, `W` the handle by which the worker is waited for.
pub struct ListenerState<S, W> {
    is_listening: bool,
    shutdown_handle: Option<S>,
    worker_handle: Option<W>,
}

/// How a call to start the listener ended.
#[derive(Debug, Clone, Copy, PartialEq, Eq, Structural)]
pub enum StartOutcome {
    /// A worker was launched and the listener runs now.
    Started,
    /// The listener ran already. Nothing was launched.
    AlreadyRunning,
    /// The worker could not be launched. The listener stays stopped.
    Failed,
}

impl<S, W> ListenerState<S, W> {
    /// The flag is set exactly while both handles are held, and no handle is
    /// held while it is not.
    #[verifier::type_invariant]
    spec fn consistent(self) -> bool {
        if self.is_listening {
            self.shutdown_handle is Some && self.worker_handle is Some
        } else {
            self.shutdown_handle is None && self.worker_handle is None
        }
    }

    /// The handles of the running listener, `None` while it is stopped.
    pub closed spec fn handles(self) -> Option<(S, W)> {
        if self.is_listening {
            Some((self.shutdown_handle.unwrap(), self.worker_handle.unwrap()))
        } else {
            None
        }
    }

    /// Whether the listener runs.
    pub open spec fn running(self) -> bool {
        self.handles() is Some
    }

    /// A stopped listener.
    pub fn new() -> (state: Self)
        ensures
            state.handles() is None,
    {
        ListenerState { is_listening: false, shutdown_handle: None, worker_handle: None }
    }
}

/// The result of a call to start, and the handles held after it: a running
/// listener is left as it is and whatever was or would have been launched
/// plays no part; a stopped one takes up what was launched, and stays stopped
/// where nothing was.
pub open spec fn started<S, W>(before: Option<(S, W)>, launched: Option<(S, W)>) -> (
    StartOutcome,
    Option<(S, W)>,
) {
    match before {
        Some(_) => (StartOutcome::AlreadyRunning, before),
        None => match launched {
            Some(_) => (StartOutcome::Started, launched),
            None => (StartOutcome::Failed, None),
        },
    }
}

/// The handles given up by a call to stop, and the handles held after it: a
/// running listener gives up its handles, a stopped one has none to give.
pub open spec fn stopped<S, W>(before: Option<(S, W)>) -> (Option<(S, W)>, Option<(S, W)>) {
    (before, None)
}

/// Whether the listener runs.
pub fn is_listening<S, W>(state: &ListenerState<S, W>) -> (listening: bool)
    ensures
        listening == state.running(),
{
    proof {
        use_type_invariant(state);
    }
    state.is_listening
}

/// Starts the listener unless it runs already.
///
/// `launch` makes the clipboard source, spawns the worker and answers with the
/// two handles, or with `None` where the clipboard could not be opened. It is
/// called only if the listener is stopped.
pub fn start_listening<S, W, F: FnOnce() -> Option<(S, W)>>(
    state: &mut ListenerState<S, W>,
    launch: F,
) -> (outcome: StartOutcome)
    requires
        !old(state).running() ==> call_requires(launch, ()),
    ensures
        old(state).running() ==> (outcome, final(state).handles()) == started(
            old(state).handles(),
            None,
        ),
        !old(state).running() ==> exists|launched: Option<(S, W)>|
            call_ensures(launch, (), launched) && (outcome, final(state).handles()) == started(
                old(state).handles(),
                launched,
            ),
{
    proof {
        use_type_invariant(&*state);
    }
    if state.is_listening {
        return StartOutcome::AlreadyRunning;
    }
    let launched = launch();
    install(state, launched)
}

/// Takes up what a launch answered with. For a stopped listener.
fn install<S, W>(state: &mut ListenerState<S, W>, launched: Option<(S, W)>) -> (outcome:
    StartOutcome)
    requires
        !old(state).running(),
    ensures
        (outcome, final(state).handles()) == started(old(state).handles(), launched),
{
    match launched {
        Some((shutdown, worker)) => {
            *state = ListenerState {
                is_listening: true,
                shutdown_handle: Some(shutdown),
                worker_handle: Some(worker),
            };
            StartOutcome::Started
        },
        None => StartOutcome::Failed,
    }
}

/// Stops the listener if it runs.
///
/// The handles of the worker are handed out: the caller signals the worker to
/// stop and waits for it. A stopped listener stays stopped and hands out
/// nothing.
pub fn stop_listening<S, W>(state: &mut ListenerState<S, W>) -> (released: Option<(S, W)>)
    ensures
        (released, final(state).handles()) == stopped(old(state).handles()),
{
    proof {
        use_type_invariant(&*state);
    }
    let mut before = ListenerState::new();
    core::mem::swap(state, &mut before);
    proof {
        use_type_invariant(&before);
    }
    if before.is_listening {
        let ListenerState { is_listening: _, shutdown_handle, worker_handle } = before;
        Some((shutdown_handle.unwrap(), worker_handle.unwrap()))
    } else {
        None
    }
}

/// Starting twice leaves one worker: once the listener was started, a second
/// start launches nothing, answers `AlreadyRunning` and keeps the handles of
/// the first. The listener runs after both.
pub proof fn law_start_twice<S, W>(first: (S, W), second: Option<(S, W)>)
    ensures
        started(None, Some(first)) == (StartOutcome::Started, Some(first)),
        started(started(None, Some(first)).1, second) == (
            StartOutcome::AlreadyRunning,
            Some(first),
        ),
{
}

/// Stopping a stopped listener changes nothing and gives up nothing.
pub proof fn law_stop_when_stopped<S, W>()
    ensures
        stopped::<S, W>(None) == (None::<(S, W)>, None::<(S, W)>),
{
}

/// The listener moves between two states only: stopped to running by a start
/// that launched a worker, running to stopped by a stop.
pub proof fn law_stop_after_start<S, W>(handles: (S, W))
    ensures
        stopped(started(None, Some(handles)).1) == (Some(handles), None::<(S, W)>),
{
}

} // verus!
