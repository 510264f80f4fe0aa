//! What holds of the debounce thread over several requests.

use vstd::prelude::*;

#[allow(unused_imports)]
use crate::debounce::{debounce_action, mouse_after, pending_after, scheduled};
use crate::debounce::{debounce_loop, DebounceAction, DebounceEvent, PendingRun};
use crate::global::TriggerEvent;
use crate::hook::{DebounceMsg, DoubleClick, MouseState};
#[allow(unused_imports)]
use crate::hook_laws::{
    after_clicks, counted, held, is_chain, law_clicks_are_counted, on_release, starts_anew,
};
use crate::hook_laws::Click;

verus! {

/// A step of the debounce thread: what it is told, and the mouse state that it
/// finds. Between two steps the mouse hook may have changed that state.
pub struct Step {
    pub event: DebounceEvent,
    pub mouse: MouseState,
}

/// What is waiting after `steps`.
pub open spec fn pending_along(start: Option<PendingRun>, steps: Seq<Step>) -> Option<PendingRun>
    decreases steps.len(),
{
    if steps.len() == 0 {
        start
    } else {
        pending_after(pending_along(start, steps.drop_last()), steps.last().event)
    }
}

/// What is done at step `i` of `steps`.
pub open spec fn action_at(start: Option<PendingRun>, steps: Seq<Step>, i: int) -> DebounceAction {
    debounce_action(pending_along(start, steps.take(i)), steps[i].mouse, steps[i].event)
}

/// The mouse state that step `i` of `steps` leaves.
pub open spec fn mouse_at(start: Option<PendingRun>, steps: Seq<Step>, i: int) -> MouseState {
    mouse_after(pending_along(start, steps.take(i)), steps[i].mouse, steps[i].event)
}

/// The run that the last request in `steps` asks for, or `start` where there
/// is no request.
pub open spec fn last_request(start: Option<PendingRun>, steps: Seq<Step>) -> Option<PendingRun>
    decreases steps.len(),
{
    if steps.len() == 0 {
        start
    } else {
        match steps.last().event {
            DebounceEvent::Message { msg, now } => Some(scheduled(msg, now)),
            _ => last_request(start, steps.drop_last()),
        }
    }
}

/// The time of an event, where it has one.
pub open spec fn time_of(event: DebounceEvent) -> Option<u64> {
    match event {
        DebounceEvent::Turn { now } => Some(now),
        DebounceEvent::Message { now, .. } => Some(now),
        _ => None,
    }
}

/// The clock does not go back.
pub open spec fn in_order(steps: Seq<Step>) -> bool {
    forall|i: int, j: int|
        #![trigger steps[i], steps[j]]
        0 <= i <= j < steps.len() ==> (time_of(steps[i].event) matches Some(t) ==> (time_of(
            steps[j].event,
        ) matches Some(u) ==> t <= u))
}

/// Each request is taken before the run that was asked for before it is due.
pub open spec fn in_time(start: Option<PendingRun>, steps: Seq<Step>) -> bool {
    forall|i: int|
        0 <= i < steps.len() ==> ((#[trigger] steps[i]).event matches DebounceEvent::Message {
            now,
            ..
        } ==> (last_request(start, steps.take(i)) matches Some(p) ==> now < p.deadline))
}

/// A burst of requests that ends with one for `msg` at time `at`.
pub open spec fn is_burst(
    start: Option<PendingRun>,
    steps: Seq<Step>,
    msg: DebounceMsg,
    at: u64,
) -> bool {
    &&& steps.len() > 0
    &&& steps.last().event == (DebounceEvent::Message { msg, now: at })
    &&& in_order(steps)
    &&& in_time(start, steps)
}

/// No request comes in.
pub open spec fn no_request(steps: Seq<Step>) -> bool {
    forall|i: int| 0 <= i < steps.len() ==> !((#[trigger] steps[i]).event is Message)
}

/// Step `i` is a turn that finds `p` due.
pub open spec fn finds_due(p: PendingRun, steps: Seq<Step>, i: int) -> bool {
    steps[i].event matches DebounceEvent::Turn { now } && now >= p.deadline
}

/// `p` is not found due before step `i`.
pub open spec fn not_due_before(p: PendingRun, steps: Seq<Step>, i: int) -> bool {
    forall|k: int| 0 <= k < i ==> !#[trigger] finds_due(p, steps, k)
}

/// What is read from `k` on until the next request is read before the run that
/// was asked for last is due.
proof fn lemma_before_next_request(
    start: Option<PendingRun>,
    steps: Seq<Step>,
    msg: DebounceMsg,
    at: u64,
    k: int,
    now: u64,
)
    requires
        is_burst(start, steps, msg, at),
        0 <= k < steps.len(),
        forall|j: int|
            k <= j < steps.len() ==> (time_of((#[trigger] steps[j]).event) matches Some(u) ==> now
                <= u),
    ensures
        last_request(start, steps.take(k)) matches Some(p) ==> now < p.deadline,
    decreases steps.len() - k,
{
    if !(steps[k].event is Message) {
        assert(steps.take(k + 1).drop_last() =~= steps.take(k));
        lemma_before_next_request(start, steps, msg, at, k + 1, now);
    } else {
        assert(time_of(steps[k].event) is Some);
    }
}

/// In a burst, what waits is what was asked for last.
proof fn lemma_burst_pending(
    start: Option<PendingRun>,
    steps: Seq<Step>,
    msg: DebounceMsg,
    at: u64,
    k: int,
)
    requires
        is_burst(start, steps, msg, at),
        0 <= k <= steps.len(),
    ensures
        pending_along(start, steps.take(k)) == last_request(start, steps.take(k)),
    decreases k,
{
    if k > 0 {
        lemma_burst_pending(start, steps, msg, at, k - 1);
        assert(steps.take(k).drop_last() =~= steps.take(k - 1));
        if let DebounceEvent::Turn { now } = steps[k - 1].event {
            lemma_before_next_request(start, steps, msg, at, k - 1, now);
        }
    }
}

/// While a burst of requests lasts, nothing is reported and the mouse state is
/// left as it is. At its end the last request is the one that waits.
pub proof fn law_burst_is_not_reported(
    start: Option<PendingRun>,
    steps: Seq<Step>,
    msg: DebounceMsg,
    at: u64,
)
    requires
        is_burst(start, steps, msg, at),
    ensures
        forall|i: int|
            0 <= i < steps.len() ==> {
                &&& !(#[trigger] action_at(start, steps, i) is Fire)
                &&& mouse_at(start, steps, i) == steps[i].mouse
            },
        pending_along(start, steps) == Some(scheduled(msg, at)),
{
    assert forall|i: int| 0 <= i < steps.len() implies {
        &&& !(#[trigger] action_at(start, steps, i) is Fire)
        &&& mouse_at(start, steps, i) == steps[i].mouse
    } by {
        lemma_burst_pending(start, steps, msg, at, i);
        if let DebounceEvent::Turn { now } = steps[i].event {
            lemma_before_next_request(start, steps, msg, at, i, now);
        }
    }
}

/// Without further requests a run waits until it is found due, and no longer.
proof fn lemma_waits(p: PendingRun, steps: Seq<Step>, k: int)
    requires
        no_request(steps),
        0 <= k <= steps.len(),
    ensures
        pending_along(Some(p), steps.take(k)) == (if not_due_before(p, steps, k) {
            Some(p)
        } else {
            None
        }),
    decreases k,
{
    if k > 0 {
        lemma_waits(p, steps, k - 1);
        assert(steps.take(k).drop_last() =~= steps.take(k - 1));
        assert(!(steps[k - 1].event is Message));
        assert(not_due_before(p, steps, k) == (not_due_before(p, steps, k - 1) && !finds_due(
            p,
            steps,
            k - 1,
        )));
    }
}

/// A run that no further request follows is decided on at the first turn that
/// finds it due: it is reported if it is still the current one. No other step
/// reports anything, so there is one report at most, with the run's length,
/// and not before the run is due.
pub proof fn law_waiting_run_is_reported_at_most_once(p: PendingRun, steps: Seq<Step>)
    requires
        no_request(steps),
    ensures
        forall|i: int|
            0 <= i < steps.len() ==> (#[trigger] action_at(Some(p), steps, i) is Fire <==> {
                &&& finds_due(p, steps, i)
                &&& not_due_before(p, steps, i)
                &&& steps[i].mouse.click_time == p.last_time
                &&& steps[i].mouse.click_count == p.count
            }),
        forall|i: int|
            0 <= i < steps.len() && #[trigger] action_at(Some(p), steps, i) is Fire ==> action_at(
                Some(p),
                steps,
                i,
            ) == DebounceAction::Fire(TriggerEvent::ClickSequence(p.count)),
        forall|i: int, j: int|
            0 <= i < j < steps.len() ==> !(#[trigger] action_at(Some(p), steps, i) is Fire
                && #[trigger] action_at(Some(p), steps, j) is Fire),
{
    assert forall|i: int| 0 <= i < steps.len() implies (#[trigger] action_at(
        Some(p),
        steps,
        i,
    ) is Fire <==> {
        &&& finds_due(p, steps, i)
        &&& not_due_before(p, steps, i)
        &&& steps[i].mouse.click_time == p.last_time
        &&& steps[i].mouse.click_count == p.count
    }) by {
        lemma_waits(p, steps, i);
    }
    assert forall|i: int|
        0 <= i < steps.len() && #[trigger] action_at(Some(p), steps, i) is Fire implies action_at(
        Some(p),
        steps,
        i,
    ) == DebounceAction::Fire(TriggerEvent::ClickSequence(p.count)) by {
        lemma_waits(p, steps, i);
    }
}

/// A burst of requests makes one report at most: none while it lasts, and
/// after it one of the last request, which comes at the first turn that finds
/// that request due, and comes then if the run is still the current one.
pub proof fn law_burst_is_reported_at_most_once(
    start: Option<PendingRun>,
    burst: Seq<Step>,
    msg: DebounceMsg,
    at: u64,
    rest: Seq<Step>,
)
    requires
        is_burst(start, burst, msg, at),
        no_request(rest),
    ensures
        ({
            let p = scheduled(msg, at);
            let steps = burst + rest;
            &&& forall|i: int|
                0 <= i < steps.len() ==> (#[trigger] action_at(start, steps, i) is Fire <==> {
                    let k = i - burst.len();
                    &&& 0 <= k
                    &&& finds_due(p, rest, k)
                    &&& not_due_before(p, rest, k)
                    &&& rest[k].mouse.click_time == p.last_time
                    &&& rest[k].mouse.click_count == p.count
                })
            &&& forall|i: int|
                0 <= i < steps.len() && #[trigger] action_at(start, steps, i) is Fire
                    ==> action_at(start, steps, i) == DebounceAction::Fire(
                    TriggerEvent::ClickSequence(p.count),
                )
            &&& forall|i: int, j: int|
                0 <= i < j < steps.len() ==> !(#[trigger] action_at(start, steps, i) is Fire
                    && #[trigger] action_at(start, steps, j) is Fire)
            &&& forall|i: int|
                0 <= i < burst.len() ==> #[trigger] mouse_at(start, steps, i) == steps[i].mouse
        }),
{
    let p = scheduled(msg, at);
    let steps = burst + rest;
    law_burst_is_not_reported(start, burst, msg, at);
    law_waiting_run_is_reported_at_most_once(p, rest);
    assert forall|i: int| 0 <= i < burst.len() implies #[trigger] action_at(start, steps, i)
        == action_at(start, burst, i) && mouse_at(start, steps, i) == steps[i].mouse by {
        assert(steps.take(i) =~= burst.take(i));
        assert(!(action_at(start, burst, i) is Fire));
    }
    assert forall|i: int| burst.len() <= i < steps.len() implies #[trigger] action_at(
        start,
        steps,
        i,
    ) == action_at(Some(p), rest, i - burst.len()) by {
        lemma_pending_goes_on(start, burst, rest.take(i - burst.len()));
        assert(steps.take(i) =~= burst + rest.take(i - burst.len()));
    }
    assert forall|i: int| 0 <= i < burst.len() implies #[trigger] mouse_at(start, steps, i)
        == steps[i].mouse by {
        assert(action_at(start, steps, i) == action_at(start, burst, i));
    }
}

/// A run of clicks of any length, each of whose requests is taken before the
/// one before it is due, is reported with its full length at the first turn
/// that finds the last request due, if no click has changed the run since.
pub proof fn law_click_run_is_reported_after_its_burst(
    s: MouseState,
    clicks: Seq<Click>,
    dc: DoubleClick,
    start: Option<PendingRun>,
    burst: Seq<Step>,
    msg: DebounceMsg,
    at: u64,
    rest: Seq<Step>,
    k: int,
)
    requires
        clicks.len() >= 2,
        is_chain(clicks, dc),
        !s.non_client_down,
        starts_anew(s, clicks[0], dc),
        on_release(
            held(after_clicks(s, clicks.drop_last(), dc), clicks.last()),
            clicks.last().to,
            clicks.last().up,
            dc,
        ).schedule == Some(msg),
        is_burst(start, burst, msg, at),
        no_request(rest),
        0 <= k < rest.len(),
        finds_due(scheduled(msg, at), rest, k),
        not_due_before(scheduled(msg, at), rest, k),
        rest[k].mouse.click_time == after_clicks(s, clicks, dc).click_time,
        rest[k].mouse.click_count == after_clicks(s, clicks, dc).click_count,
    ensures
        action_at(start, burst + rest, burst.len() + k) == DebounceAction::Fire(
            TriggerEvent::ClickSequence(counted(clicks.len())),
        ),
        forall|i: int|
            0 <= i < burst.len() + rest.len() && i != burst.len() + k ==> !(#[trigger] action_at(
                start,
                burst + rest,
                i,
            ) is Fire),
{
    law_clicks_are_counted(s, clicks, dc);
    law_burst_is_reported_at_most_once(start, burst, msg, at, rest);
    assert(action_at(start, burst + rest, burst.len() + k) is Fire);
}

/// What waits after two stretches of steps comes of one after the other.
proof fn lemma_pending_goes_on(start: Option<PendingRun>, a: Seq<Step>, b: Seq<Step>)
    ensures
        pending_along(start, a + b) == pending_along(pending_along(start, a), b),
    decreases b.len(),
{
    if b.len() == 0 {
        assert(a + b =~= a);
    } else {
        assert((a + b).drop_last() =~= a + b.drop_last());
        lemma_pending_goes_on(start, a, b.drop_last());
    }
}

/// A request is due its delay in milliseconds after it was taken, on a clock
/// of nanoseconds; until then it is what the request says.
pub proof fn law_request_is_due_after_its_delay(msg: DebounceMsg, at: u64)
    ensures
        msg matches DebounceMsg::Schedule { count, last_time, debounce_ms } && {
            let p = scheduled(msg, at);
            &&& p.count == count
            &&& p.last_time == last_time
            &&& p.deadline == at + debounce_ms * 1_000_000
            &&& p.deadline >= at
        },
{
}

/// The thread waits exactly until the run that waits is due, or without an end
/// where none waits, and it ends where no request can come any more. A run
/// that has become another one by then is dropped without a word.
pub proof fn law_thread_waits_until_a_run_is_due(
    p: PendingRun,
    mouse: MouseState,
    msg: DebounceMsg,
    now: u64,
)
    ensures
        ({
            let turn = DebounceEvent::Turn { now };
            let message = DebounceEvent::Message { msg, now };
            &&& debounce_action(None, mouse, turn) == DebounceAction::Wait
            &&& pending_after(None, turn) is None
            &&& mouse_after(None, mouse, turn) == mouse
            &&& now < p.deadline ==> {
                &&& debounce_action(Some(p), mouse, turn) matches DebounceAction::WaitFor(ns) && now
                    + ns == p.deadline
                &&& pending_after(Some(p), turn) == Some(p)
                &&& mouse_after(Some(p), mouse, turn) == mouse
            }
            &&& now >= p.deadline && (mouse.click_time != p.last_time || mouse.click_count
                != p.count) ==> {
                &&& debounce_action(Some(p), mouse, turn) == DebounceAction::Again
                &&& pending_after(Some(p), turn) is None
                &&& mouse_after(Some(p), mouse, turn) == mouse
            }
            &&& debounce_action(Some(p), mouse, message) == DebounceAction::Again
            &&& debounce_action(None, mouse, message) == DebounceAction::Again
            &&& debounce_action(Some(p), mouse, DebounceEvent::Timeout) == DebounceAction::Again
            &&& pending_after(Some(p), DebounceEvent::Timeout) == Some(p)
            &&& debounce_action(Some(p), mouse, DebounceEvent::Disconnected) == DebounceAction::Stop
            &&& debounce_action(None, mouse, DebounceEvent::Disconnected) == DebounceAction::Stop
        }),
{
}

/// A report ends the run of clicks and changes nothing else of the mouse
/// state.
pub proof fn law_report_ends_the_run(p: PendingRun, mouse: MouseState, now: u64)
    requires
        now >= p.deadline,
        mouse.click_time == p.last_time,
        mouse.click_count == p.count,
    ensures
        ({
            let turn = DebounceEvent::Turn { now };
            let after = mouse_after(Some(p), mouse, turn);
            &&& debounce_action(Some(p), mouse, turn) == DebounceAction::Fire(
                TriggerEvent::ClickSequence(p.count),
            )
            &&& pending_after(Some(p), turn) is None
            &&& after.click_time == 0
            &&& after.click_count == 0
            &&& after.down_time == mouse.down_time
            &&& after.down == mouse.down
            &&& after.last == mouse.last
            &&& after.click == mouse.click
            &&& after.non_client_down == mouse.non_client_down
        }),
{
}

/// What is said here of what waits and of what is done holds of every call of
/// [`debounce_loop`].
pub proof fn law_debounce_keeps_to_its_laws()
    ensures
        forall|
            pending: &mut Option<PendingRun>,
            mouse: &mut MouseState,
            event: DebounceEvent,
            action: DebounceAction,
        | #[trigger]
            call_ensures(debounce_loop, (pending, mouse, event), action) ==> {
                &&& *final(pending) == pending_after(*pending, event)
                &&& *final(mouse) == mouse_after(*pending, *mouse, event)
                &&& action == debounce_action(*pending, *mouse, event)
            },
{
}

/// Only a turn reports anything, drops a run or changes the mouse state: a
/// request takes the place of what waits, and anything else leaves it.
pub proof fn law_only_turns_decide(
    pending: Option<PendingRun>,
    mouse: MouseState,
    event: DebounceEvent,
)
    requires
        !(event is Turn),
    ensures
        mouse_after(pending, mouse, event) == mouse,
        pending_after(pending, event) == (match event {
            DebounceEvent::Message { msg, now } => Some(scheduled(msg, now)),
            _ => pending,
        }),
        debounce_action(pending, mouse, event) == (if event is Disconnected {
            DebounceAction::Stop
        } else {
            DebounceAction::Again
        }),
{
}

} // verus!
