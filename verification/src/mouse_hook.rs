//! The pointer watcher: follows the cursor through location-change
//! notifications and reports its position at a bounded rate.
//!
//! Notifications are collected in windows of `THROTTLE_MS` milliseconds. A
//! window in which the location changed ends with one query for the
//! cursor's position, however many notifications it saw; the position found
//! is published as a `SetPos` command.
//!
//! The watcher does no I/O. It answers each event with the next thing for
//! the caller to do.

use vstd::prelude::*;
use crate::window::CustomEventLoopEvent;

verus! {

/// Length of a throttle window in milliseconds.
pub const THROTTLE_MS: u64 = 10;

/// The kind of a notification that the hook delivers.
#[derive(Debug, Clone, Copy, PartialEq, Eq)]
pub enum Notification {
    /// An object has changed its location, shape or size.
    LocationChange,
    /// Any other notification.
    Other,
}

/// Why the pointer watcher ended.
#[derive(Debug, Clone, Copy, PartialEq, Eq)]
pub enum PointerError {
    /// The hook for location-change notifications could not be set up.
    HookRegistrationFailed,
}

/// What the caller reports to the watcher.
#[derive(Debug, Clone, Copy, PartialEq, Eq)]
pub enum PointerEvent {
    /// The hook is set up.
    Hooked,
    /// The hook could not be set up.
    HookFailed,
    /// The hook delivered a notification.
    Notified(Notification),
    /// The throttle window is over.
    WindowElapsed,
    /// The cursor is at this absolute screen position.
    Position(i32, i32),
    /// The cursor's position could not be found out.
    PositionUnavailable,
}

/// What the caller does next.
#[derive(Debug, Clone, Copy, PartialEq, Eq)]
pub enum PointerAction {
    /// Set up the hook for location-change notifications and report `Hooked`
    /// or `HookFailed`.
    Hook,
    /// Publish the command, if there is one, then start a throttle window:
    /// report each notification that arrives within `millis` milliseconds,
    /// and `WindowElapsed` at their end.
    StartWindow { publish: Option<CustomEventLoopEvent>, millis: u64 },
    /// Go on with the throttle window that is under way.
    Collect,
    /// Ask for the cursor's position and report `Position` or
    /// `PositionUnavailable`.
    QueryPosition,
    /// End the task with this error.
    Stop(PointerError),
}

/// What the watcher waits for.
#[derive(Debug, Clone, Copy, PartialEq, Eq)]
pub enum PointerPhase {
    /// For the hook to be set up.
    Hooking,
    /// For notifications, and for the end of the throttle window.
    Collecting,
    /// For the cursor's position.
    Querying,
    /// For nothing: the hook could not be set up.
    Stopped,
}

/// The watcher's state as the contracts see it.
pub struct PointerState {
    /// What the watcher waits for.
    pub phase: PointerPhase,
    /// Whether a location change was notified that no position query has
    /// followed yet.
    pub moved: bool,
}

impl PointerState {
    /// The request that the watcher waits for an answer to.
    pub open spec fn pending(self) -> PointerAction {
        match self.phase {
            PointerPhase::Hooking => PointerAction::Hook,
            PointerPhase::Collecting => PointerAction::Collect,
            PointerPhase::Querying => PointerAction::QueryPosition,
            PointerPhase::Stopped => PointerAction::Stop(PointerError::HookRegistrationFailed),
        }
    }

    /// The state after an event, and the next thing to do. An event that
    /// does not answer what the phase waits for changes nothing and has the
    /// pending request repeated.
    pub open spec fn step(self, event: PointerEvent) -> (PointerState, PointerAction) {
        match (self.phase, event) {
            (PointerPhase::Hooking, PointerEvent::Hooked) => (
                PointerState { phase: PointerPhase::Collecting, moved: false },
                PointerAction::StartWindow { publish: None, millis: THROTTLE_MS },
            ),
            (PointerPhase::Hooking, PointerEvent::HookFailed) => (
                PointerState { phase: PointerPhase::Stopped, moved: false },
                PointerAction::Stop(PointerError::HookRegistrationFailed),
            ),
            (PointerPhase::Collecting, PointerEvent::Notified(kind))
            | (PointerPhase::Querying, PointerEvent::Notified(kind)) => (
                PointerState { moved: self.moved || kind == Notification::LocationChange, ..self },
                self.pending(),
            ),
            (PointerPhase::Collecting, PointerEvent::WindowElapsed) => if self.moved {
                (
                    PointerState { phase: PointerPhase::Querying, moved: false },
                    PointerAction::QueryPosition,
                )
            } else {
                (self, PointerAction::StartWindow { publish: None, millis: THROTTLE_MS })
            },
            (PointerPhase::Querying, PointerEvent::Position(x, y)) => (
                PointerState { phase: PointerPhase::Collecting, ..self },
                PointerAction::StartWindow {
                    publish: Some(CustomEventLoopEvent::SetPos(x, y)),
                    millis: THROTTLE_MS,
                },
            ),
            (PointerPhase::Querying, PointerEvent::PositionUnavailable) => (
                PointerState { phase: PointerPhase::Collecting, ..self },
                PointerAction::StartWindow { publish: None, millis: THROTTLE_MS },
            ),
            _ => (self, self.pending()),
        }
    }

    /// The state after a run of notifications.
    pub open spec fn notified_all(self, kinds: Seq<Notification>) -> PointerState
        decreases kinds.len(),
    {
        if kinds.len() == 0 {
            self
        } else {
            self.notified_all(kinds.drop_last()).step(PointerEvent::Notified(kinds.last())).0
        }
    }
}

/// The hook is set up at most once: the watcher asks for it only while it
/// waits for it, and never again once it is set up or has failed.
pub proof fn lemma_one_hook(state: PointerState, event: PointerEvent)
    ensures
        state.step(event).1 == PointerAction::Hook ==> state.phase == PointerPhase::Hooking
            && state.step(event).0 == state,
        state.phase != PointerPhase::Hooking ==> state.step(event).0.phase
            != PointerPhase::Hooking,
        state.phase == PointerPhase::Stopped ==> state.step(event) == (
            state,
            PointerAction::Stop(PointerError::HookRegistrationFailed),
        ),
{
}

/// A throttle window ends with a position query exactly if the location
/// changed in it: once for the whole window, however many notifications
/// there were. A window without a location change is followed by the next
/// window at once.
pub proof fn lemma_window_coalesces(state: PointerState, kinds: Seq<Notification>)
    requires
        state.phase == PointerPhase::Collecting,
        !state.moved,
    ensures
        state.notified_all(kinds).phase == PointerPhase::Collecting,
        state.notified_all(kinds).moved == kinds.contains(Notification::LocationChange),
        kinds.contains(Notification::LocationChange) ==> state.notified_all(kinds).step(
            PointerEvent::WindowElapsed,
        ) == (
            PointerState { phase: PointerPhase::Querying, moved: false },
            PointerAction::QueryPosition,
        ),
        !kinds.contains(Notification::LocationChange) ==> state.notified_all(kinds).step(
            PointerEvent::WindowElapsed,
        ) == (state, PointerAction::StartWindow { publish: None, millis: THROTTLE_MS }),
    decreases kinds.len(),
{
    if kinds.len() > 0 {
        let front = kinds.drop_last();
        lemma_window_coalesces(state, front);
        if front.contains(Notification::LocationChange) {
            let i = choose|i: int| 0 <= i < front.len() && front[i] == Notification::LocationChange;
            assert(kinds[i] == Notification::LocationChange);
        }
        if kinds.contains(Notification::LocationChange) && kinds.last()
            != Notification::LocationChange {
            let i = choose|i: int| 0 <= i < kinds.len() && kinds[i] == Notification::LocationChange;
            assert(front[i] == Notification::LocationChange);
        }
    }
}

/// The pointer watcher.
pub struct PointerWatcher {
    phase: PointerPhase,
    moved: bool,
}

impl View for PointerWatcher {
    type V = PointerState;

    closed spec fn view(&self) -> PointerState {
        PointerState { phase: self.phase, moved: self.moved }
    }
}

impl PointerWatcher {
    /// A watcher that waits for the hook to be set up.
    pub fn new() -> (watcher: PointerWatcher)
        ensures
            watcher@ == (PointerState { phase: PointerPhase::Hooking, moved: false }),
    {
        PointerWatcher { phase: PointerPhase::Hooking, moved: false }
    }

    /// What the watcher waits for.
    pub fn phase(&self) -> (phase: PointerPhase)
        ensures
            phase == self@.phase,
    {
        self.phase
    }

    /// Whether a location change was notified that no position query has
    /// followed yet.
    pub fn moved(&self) -> (moved: bool)
        ensures
            moved == self@.moved,
    {
        self.moved
    }

    /// The request that the watcher waits for an answer to. For a new
    /// watcher that is `Hook`.
    pub fn pending(&self) -> (action: PointerAction)
        ensures
            action == self@.pending(),
    {
        match self.phase {
            PointerPhase::Hooking => PointerAction::Hook,
            PointerPhase::Collecting => PointerAction::Collect,
            PointerPhase::Querying => PointerAction::QueryPosition,
            PointerPhase::Stopped => PointerAction::Stop(PointerError::HookRegistrationFailed),
        }
    }
}

/// Runs one step of the watcher. Once the hook is set up the first throttle
/// window starts; a hook that cannot be set up ends the task. Within a
/// window the watcher notes whether the location changed. At the end of a
/// window with a change it asks for the cursor's position, and publishes
/// the position found as `SetPos` with the next window; a position that
/// cannot be found out is passed over.
pub fn mouse_hook_task(watcher: &mut PointerWatcher, event: PointerEvent) -> (action: PointerAction)
    ensures
        (final(watcher)@, action) == old(watcher)@.step(event),
{
    let pending = watcher.pending();
    match (watcher.phase, event) {
        (PointerPhase::Hooking, PointerEvent::Hooked) => {
            watcher.phase = PointerPhase::Collecting;
            watcher.moved = false;
            PointerAction::StartWindow { publish: None, millis: THROTTLE_MS }
        },
        (PointerPhase::Hooking, PointerEvent::HookFailed) => {
            watcher.phase = PointerPhase::Stopped;
            watcher.moved = false;
            PointerAction::Stop(PointerError::HookRegistrationFailed)
        },
        (PointerPhase::Collecting, PointerEvent::Notified(kind))
        | (PointerPhase::Querying, PointerEvent::Notified(kind)) => {
            match kind {
                Notification::LocationChange => {
                    watcher.moved = true;
                },
                Notification::Other => {},
            }
            pending
        },
        (PointerPhase::Collecting, PointerEvent::WindowElapsed) => {
            if watcher.moved {
                watcher.phase = PointerPhase::Querying;
                watcher.moved = false;
                PointerAction::QueryPosition
            } else {
                PointerAction::StartWindow { publish: None, millis: THROTTLE_MS }
            }
        },
        (PointerPhase::Querying, PointerEvent::Position(x, y)) => {
            watcher.phase = PointerPhase::Collecting;
            PointerAction::StartWindow {
                publish: Some(CustomEventLoopEvent::SetPos(x, y)),
                millis: THROTTLE_MS,
            }
        },
        (PointerPhase::Querying, PointerEvent::PositionUnavailable) => {
            watcher.phase = PointerPhase::Collecting;
            PointerAction::StartWindow { publish: None, millis: THROTTLE_MS }
        },
        _ => pending,
    }
}

} // verus!
