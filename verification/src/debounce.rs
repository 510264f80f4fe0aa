//! The debounce thread: a run of clicks is reported once no click follows it.

use vstd::prelude::*;

use crate::global::TriggerEvent;
use crate::hook::{DebounceMsg, MouseState};

verus! {

/// A run of clicks that waits to be reported.
#[derive(Clone, Copy, Debug, PartialEq, Eq, Structural)]
pub struct PendingRun {
    /// The number of clicks as the run was scheduled.
    pub count: u32,
    /// When its last click ended.
    pub last_time: u64,
    /// When it is due, in nanoseconds on the clock of the debounce thread.
    pub deadline: u128,
}

/// What the debounce thread is told.
#[derive(Clone, Copy, Debug, PartialEq, Eq, Structural)]
pub enum DebounceEvent {
    /// A new turn of the loop, with the time in nanoseconds.
    Turn { now: u64 },
    /// A request came in at this time.
    Message { msg: DebounceMsg, now: u64 },
    /// No request came in while waiting.
    Timeout,
    /// No request can come in any more.
    Disconnected,
}

/// What the debounce thread does next.
#[derive(Clone, Copy, Debug, PartialEq, Eq, Structural)]
pub enum DebounceAction {
    /// Start another turn.
    Again,
    /// Send this to the worker, and start another turn.
    Fire(TriggerEvent),
    /// Wait for a request.
    Wait,
    /// Wait for a request for so many nanoseconds.
    WaitFor(u128),
    /// End the thread.
    Stop,
}

/// The run is still the one that the mouse hook has on record.
pub open spec fn is_current(p: PendingRun, mouse: MouseState) -> bool {
    mouse.click_time == p.last_time && mouse.click_count == p.count
}

/// The run is due and still the current one.
pub open spec fn fires(pending: Option<PendingRun>, mouse: MouseState, now: u64) -> bool {
    pending matches Some(p) && now >= p.deadline && is_current(p, mouse)
}

/// The run that a request asks for.
pub open spec fn scheduled(msg: DebounceMsg, now: u64) -> PendingRun {
    match msg {
        DebounceMsg::Schedule { count, last_time, debounce_ms } => PendingRun {
            count,
            last_time,
            deadline: (now + debounce_ms * 1_000_000) as u128,
        },
    }
}

/// What is waiting after `event`.
pub open spec fn pending_after(
    pending: Option<PendingRun>,
    event: DebounceEvent,
) -> Option<PendingRun> {
    match event {
        DebounceEvent::Turn { now } => match pending {
            Some(p) if now >= p.deadline => None,
            _ => pending,
        },
        DebounceEvent::Message { msg, now } => Some(scheduled(msg, now)),
        _ => pending,
    }
}

/// The mouse state after `event`: a run that is reported is over.
pub open spec fn mouse_after(
    pending: Option<PendingRun>,
    mouse: MouseState,
    event: DebounceEvent,
) -> MouseState {
    match event {
        DebounceEvent::Turn { now } if fires(pending, mouse, now) => MouseState {
            click_time: 0,
            click_count: 0,
            ..mouse
        },
        _ => mouse,
    }
}

/// What the debounce thread does about `event`.
pub open spec fn debounce_action(
    pending: Option<PendingRun>,
    mouse: MouseState,
    event: DebounceEvent,
) -> DebounceAction {
    match event {
        DebounceEvent::Turn { now } => match pending {
            Some(p) => if now < p.deadline {
                DebounceAction::WaitFor((p.deadline - now) as u128)
            } else if is_current(p, mouse) {
                DebounceAction::Fire(TriggerEvent::ClickSequence(p.count))
            } else {
                DebounceAction::Again
            },
            None => DebounceAction::Wait,
        },
        DebounceEvent::Message { .. } => DebounceAction::Again,
        DebounceEvent::Timeout => DebounceAction::Again,
        DebounceEvent::Disconnected => DebounceAction::Stop,
    }
}

/// One step of the debounce thread.
pub fn debounce_loop(
    pending: &mut Option<PendingRun>,
    mouse: &mut MouseState,
    event: DebounceEvent,
) -> (action: DebounceAction)
    ensures
        *final(pending) == pending_after(*old(pending), event),
        *final(mouse) == mouse_after(*old(pending), *old(mouse), event),
        action == debounce_action(*old(pending), *old(mouse), event),
        old(mouse).wf() ==> final(mouse).wf(),
{
    match event {
        DebounceEvent::Turn { now } => {
            match *pending {
                Some(run) => {
                    if now as u128 >= run.deadline {
                        *pending = None;
                        if mouse.click_time == run.last_time && mouse.click_count == run.count {
                            mouse.click_count = 0;
                            mouse.click_time = 0;
                            DebounceAction::Fire(TriggerEvent::ClickSequence(run.count))
                        } else {
                            DebounceAction::Again
                        }
                    } else {
                        DebounceAction::WaitFor(run.deadline - now as u128)
                    }
                },
                None => DebounceAction::Wait,
            }
        },
        DebounceEvent::Message { msg, now } => {
            match msg {
                DebounceMsg::Schedule { count, last_time, debounce_ms } => {
                    let deadline: u128 = now as u128 + debounce_ms as u128 * 1_000_000;
                    *pending = Some(PendingRun { count, last_time, deadline });
                    DebounceAction::Again
                },
            }
        },
        DebounceEvent::Timeout => DebounceAction::Again,
        DebounceEvent::Disconnected => DebounceAction::Stop,
    }
}

} // verus!
