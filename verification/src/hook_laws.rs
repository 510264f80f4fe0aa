//! What holds of the mouse hook and the debounce thread over several messages.

use vstd::prelude::*;

use crate::debounce::{DebounceAction, DebounceEvent, PendingRun};
use crate::geometry::Point;
use crate::global::TriggerEvent;
use crate::hook::{
    hook_message, mouse_hook_proc, next_hook, DebounceMsg, DoubleClick, HookInput, HookMessage,
    HookOutcome, MouseState, PassOn, PressHits,
};
#[allow(unused_imports)]
use crate::debounce::{debounce_action, fires, mouse_after, pending_after, scheduled};
#[allow(unused_imports)]
use crate::hook::{after_input, continues_run, idle, input_outcome};
#[allow(unused_imports)]
use vstd::math::{abs, max};

verus! {

/// A press that goes down on nothing but a window's contents.
pub open spec fn on_contents() -> PressHits {
    PressHits {
        title_bar: false,
        top_drag_region: false,
        resize_border: false,
        scrollbar: false,
        splitter: false,
    }
}

/// The state after the button went down.
pub open spec fn pressed(s: MouseState, pt: Point, now: u64, hits: PressHits) -> MouseState {
    after_input(s, HookInput::ButtonDown { pt, now, hits })
}

/// The state after the button went up.
pub open spec fn released(s: MouseState, pt: Point, now: u64, dc: DoubleClick) -> MouseState {
    after_input(s, HookInput::ButtonUp { pt, now, double_click: dc })
}

/// What the hook does as the button goes up.
pub open spec fn on_release(s: MouseState, pt: Point, now: u64, dc: DoubleClick) -> HookOutcome {
    input_outcome(s, HookInput::ButtonUp { pt, now, double_click: dc })
}

/// The state after the mouse moved along `moves`.
pub open spec fn after_moves(s: MouseState, moves: Seq<Point>) -> MouseState
    decreases moves.len(),
{
    if moves.len() == 0 {
        s
    } else {
        after_input(
            after_moves(s, moves.drop_last()),
            HookInput::Move { pt: moves.last() },
        )
    }
}

/// The state after the messages `inputs`.
pub open spec fn after_inputs(s: MouseState, inputs: Seq<HookInput>) -> MouseState
    decreases inputs.len(),
{
    if inputs.len() == 0 {
        s
    } else {
        after_input(after_inputs(s, inputs.drop_last()), inputs.last())
    }
}

/// Moves change nothing but the place where the mouse was last seen.
proof fn lemma_moves(s: MouseState, moves: Seq<Point>)
    ensures
        after_moves(s, moves) == (MouseState { last: after_moves(s, moves).last, ..s }),
    decreases moves.len(),
{
    if moves.len() > 0 {
        lemma_moves(s, moves.drop_last());
    }
}

/// Whatever messages come, a run of clicks that has an end has at least one
/// click.
pub proof fn law_runs_have_clicks(inputs: Seq<HookInput>)
    ensures
        after_inputs(idle(), inputs).wf(),
        after_inputs(idle(), inputs).click_time != 0 ==> after_inputs(
            idle(),
            inputs,
        ).click_count >= 1,
    decreases inputs.len(),
{
    if inputs.len() > 0 {
        law_runs_have_clicks(inputs.drop_last());
    }
}

/// A message makes at most one of a trigger and a request to the debounce
/// thread, and only a release of the button makes either.
pub proof fn law_one_message_at_most(s: MouseState, input: HookInput)
    ensures
        input_outcome(s, input).trigger is None || input_outcome(s, input).schedule is None,
        !(input is ButtonUp) ==> input_outcome(s, input).trigger is None && input_outcome(
            s,
            input,
        ).schedule is None,
{
}

/// A press on a frame, a caption or a scroll bar comes to nothing, wherever
/// the mouse goes before the button is released: nothing is sent, and the run
/// of clicks before it goes on.
pub proof fn law_non_client_press_is_ignored(
    s: MouseState,
    pt: Point,
    now: u64,
    hits: PressHits,
    moves: Seq<Point>,
    up: Point,
    up_time: u64,
    dc: DoubleClick,
)
    requires
        hits.title_bar || hits.top_drag_region || hits.resize_border || hits.scrollbar
            || hits.splitter,
    ensures
        ({
            let held = after_moves(pressed(s, pt, now, hits), moves);
            let outcome = on_release(held, up, up_time, dc);
            &&& outcome.trigger is None
            &&& outcome.schedule is None
            &&& outcome.pass_on == PassOn::Bare
            &&& released(held, up, up_time, dc) == (MouseState {
                down_time: 0,
                non_client_down: false,
                ..s
            })
        }),
{
    lemma_moves_while_up(pressed(s, pt, now, hits), moves);
}

/// While the button is up, moves change nothing.
proof fn lemma_moves_while_up(s: MouseState, moves: Seq<Point>)
    requires
        s.down_time == 0,
    ensures
        after_moves(s, moves) == s,
    decreases moves.len(),
{
    if moves.len() > 0 {
        lemma_moves_while_up(s, moves.drop_last());
    }
}

/// A press on a window's contents is reported as a drag, with the time that it
/// took, exactly where it took 200 milliseconds and ended 4 pixels away from
/// where it began, whatever way the mouse took. The clock must not read 0 as
/// the button goes down.
pub proof fn law_drag_is_reported(
    s: MouseState,
    pt: Point,
    now: u64,
    moves: Seq<Point>,
    up: Point,
    up_time: u64,
    dc: DoubleClick,
)
    requires
        !s.non_client_down,
        now > 0,
    ensures
        ({
            let held = after_moves(pressed(s, pt, now, on_contents()), moves);
            let dx = up.x - pt.x;
            let dy = up.y - pt.y;
            on_release(held, up, up_time, dc).trigger == (if up_time >= now + 200 && dx * dx + dy
                * dy >= 4 * 4 {
                Some(TriggerEvent::Drag((up_time - now) as u64))
            } else {
                None
            })
        }),
{
    lemma_moves(pressed(s, pt, now, on_contents()), moves);
}

/// A press that ends 4 pixels away from where it began ends the run of clicks,
/// however short it was: no click continues it.
pub proof fn law_drag_ends_the_run(
    s: MouseState,
    pt: Point,
    now: u64,
    moves: Seq<Point>,
    up: Point,
    up_time: u64,
    dc: DoubleClick,
)
    requires
        !s.non_client_down,
        now > 0,
        (up.x - pt.x) * (up.x - pt.x) + (up.y - pt.y) * (up.y - pt.y) >= 4 * 4,
    ensures
        ({
            let held = after_moves(pressed(s, pt, now, on_contents()), moves);
            let done = released(held, up, up_time, dc);
            &&& done.click_count == 0
            &&& done.click_time == 0
            &&& done.click == s.click
            &&& on_release(held, up, up_time, dc).schedule is None
            &&& forall|q: Point, t: u64| !#[trigger] continues_run(done, q, t, dc)
            &&& forall|c: Click, d: DoubleClick|
                c.ok() ==> (#[trigger] after_click(done, c, d)).click_count == 1
        }),
{
    lemma_moves(pressed(s, pt, now, on_contents()), moves);
    let held = after_moves(pressed(s, pt, now, on_contents()), moves);
    let done = released(held, up, up_time, dc);
    assert forall|c: Click, d: DoubleClick| c.ok() implies (#[trigger] after_click(
        done,
        c,
        d,
    )).click_count == 1 by {
        lemma_moves(pressed(done, c.from, c.down, on_contents()), c.moves);
    }
}

/// A long press that leads nowhere sends nothing, and the run of clicks before
/// it goes on.
pub proof fn law_long_press_changes_no_run(
    s: MouseState,
    pt: Point,
    now: u64,
    moves: Seq<Point>,
    up: Point,
    up_time: u64,
    dc: DoubleClick,
)
    requires
        !s.non_client_down,
        now > 0,
        (up.x - pt.x) * (up.x - pt.x) + (up.y - pt.y) * (up.y - pt.y) < 4 * 4,
        up_time >= now + 200,
    ensures
        ({
            let held = after_moves(pressed(s, pt, now, on_contents()), moves);
            let done = released(held, up, up_time, dc);
            &&& on_release(held, up, up_time, dc).trigger is None
            &&& on_release(held, up, up_time, dc).schedule is None
            &&& done.click_count == s.click_count
            &&& done.click_time == s.click_time
            &&& done.click == s.click
        }),
{
    lemma_moves(pressed(s, pt, now, on_contents()), moves);
}

/// A click: where and when the button went down and up, and the way that the
/// mouse took in between.
pub struct Click {
    pub from: Point,
    pub down: u64,
    pub moves: Seq<Point>,
    pub to: Point,
    pub up: u64,
}

impl Click {
    /// Shorter than 200 milliseconds, and ends less than 4 pixels away from where
    /// it began. The clock reads more than 0.
    pub open spec fn ok(self) -> bool {
        &&& self.down > 0
        &&& self.up > 0
        &&& self.up < self.down + 200
        &&& (self.to.x - self.from.x) * (self.to.x - self.from.x) + (self.to.y - self.from.y) * (
        self.to.y - self.from.y) < 4 * 4
    }

    /// `next` ends within the double-click time after this one, and within half
    /// of the double-click area of it, in either direction.
    pub open spec fn leads_to(self, next: Click, dc: DoubleClick) -> bool {
        &&& next.up <= self.up + dc.max_ms
        &&& abs(next.to.x - self.to.x) <= max(1, dc.width as int / 2)
        &&& abs(next.to.y - self.to.y) <= max(1, dc.height as int / 2)
    }
}

/// The state with the button held down for the click, and all moves made.
pub open spec fn held(s: MouseState, c: Click) -> MouseState {
    after_moves(pressed(s, c.from, c.down, on_contents()), c.moves)
}

/// The state after the click.
pub open spec fn after_click(s: MouseState, c: Click, dc: DoubleClick) -> MouseState {
    released(held(s, c), c.to, c.up, dc)
}

/// The state after the clicks.
pub open spec fn after_clicks(s: MouseState, clicks: Seq<Click>, dc: DoubleClick) -> MouseState
    decreases clicks.len(),
{
    if clicks.len() == 0 {
        s
    } else {
        after_click(after_clicks(s, clicks.drop_last(), dc), clicks.last(), dc)
    }
}

/// Each click leads to the next.
pub open spec fn is_chain(clicks: Seq<Click>, dc: DoubleClick) -> bool
    decreases clicks.len(),
{
    if clicks.len() == 0 {
        true
    } else {
        &&& clicks.last().ok()
        &&& clicks.len() >= 2 ==> clicks[clicks.len() - 2].leads_to(clicks.last(), dc)
        &&& is_chain(clicks.drop_last(), dc)
    }
}

/// The click ends too late after the run so far, or too far away from it, to
/// be a part of it; or there is no run.
pub open spec fn starts_anew(s: MouseState, c: Click, dc: DoubleClick) -> bool {
    ||| s.click_time == 0
    ||| c.up > s.click_time + dc.max_ms
    ||| abs(c.to.x - s.click.x) > max(1, dc.width as int / 2)
    ||| abs(c.to.y - s.click.y) > max(1, dc.height as int / 2)
}

/// The length of a run, as far as it is counted.
pub open spec fn counted(n: nat) -> u32 {
    if n <= u32::MAX {
        n as u32
    } else {
        u32::MAX
    }
}

/// Clicks that lead from one to the next are counted as one run, and from the
/// second on each asks the debounce thread to report the run so far.
pub proof fn law_clicks_are_counted(s: MouseState, clicks: Seq<Click>, dc: DoubleClick)
    requires
        clicks.len() > 0,
        is_chain(clicks, dc),
        !s.non_client_down,
        starts_anew(s, clicks[0], dc),
    ensures
        ({
            let last = clicks.last();
            let before = held(after_clicks(s, clicks.drop_last(), dc), last);
            let done = after_clicks(s, clicks, dc);
            &&& done.click_count == counted(clicks.len())
            &&& done.click_time == last.up
            &&& done.click == last.to
            &&& !done.non_client_down
            &&& on_release(before, last.to, last.up, dc).trigger is None
            &&& on_release(before, last.to, last.up, dc).schedule == (if clicks.len() >= 2 {
                Some(
                    DebounceMsg::Schedule {
                        count: counted(clicks.len()),
                        last_time: last.up,
                        debounce_ms: dc.max_ms as u64,
                    },
                )
            } else {
                None
            })
        }),
    decreases clicks.len(),
{
    let last = clicks.last();
    let prior = after_clicks(s, clicks.drop_last(), dc);
    let pressed = pressed(prior, last.from, last.down, on_contents());
    lemma_moves(pressed, last.moves);
    let before = held(prior, last);
    assert(before == (MouseState { last: before.last, ..pressed }));
    if clicks.len() >= 2 {
        law_clicks_are_counted(s, clicks.drop_last(), dc);
        assert(is_chain(clicks.drop_last(), dc));
        assert(clicks.drop_last().last() == clicks[clicks.len() - 2]);
        assert(clicks[clicks.len() - 2].ok());
        assert(before.click == clicks[clicks.len() - 2].to);
        assert(before.click_time == clicks[clicks.len() - 2].up);
    } else {
        assert(clicks.drop_last() =~= Seq::<Click>::empty());
        assert(prior == s);
    }
    assert(after_clicks(s, clicks, dc) == released(before, last.to, last.up, dc));
}

/// Every run that the debounce thread is asked to report has two clicks at
/// least.
pub proof fn law_runs_to_report_are_double_clicks_at_least(s: MouseState, input: HookInput)
    ensures
        input_outcome(s, input).schedule matches Some(
            DebounceMsg::Schedule { count, .. },
        ) ==> count >= 2,
{
}

/// A run of clicks that no click follows is reported, with its length, as soon
/// as the double-click time is over and not before, whatever waited as its last
/// click came; its report ends it.
pub proof fn law_run_is_reported(
    s: MouseState,
    clicks: Seq<Click>,
    dc: DoubleClick,
    waiting: Option<PendingRun>,
    asked: u64,
    now: u64,
)
    requires
        clicks.len() >= 2,
        is_chain(clicks, dc),
        !s.non_client_down,
        starts_anew(s, clicks[0], dc),
    ensures
        ({
            let last = clicks.last();
            let before = held(after_clicks(s, clicks.drop_last(), dc), last);
            let mouse = after_clicks(s, clicks, dc);
            on_release(before, last.to, last.up, dc).schedule matches Some(msg) && {
                let message = DebounceEvent::Message { msg, now: asked };
                let pending = pending_after(waiting, message);
                let turn = DebounceEvent::Turn { now };
                &&& debounce_action(waiting, mouse, message) == DebounceAction::Again
                &&& now < asked + dc.max_ms * 1_000_000 ==> {
                    &&& debounce_action(pending, mouse, turn) is WaitFor
                    &&& pending_after(pending, turn) == pending
                }
                &&& now >= asked + dc.max_ms * 1_000_000 ==> {
                    &&& debounce_action(pending, mouse, turn) == DebounceAction::Fire(
                        TriggerEvent::ClickSequence(counted(clicks.len())),
                    )
                    &&& pending_after(pending, turn) is None
                    &&& mouse_after(pending, mouse, turn).click_count == 0
                    &&& mouse_after(pending, mouse, turn).click_time == 0
                }
            }
        }),
{
    law_clicks_are_counted(s, clicks, dc);
}

/// A click after a run makes the run's report moot: whenever it falls due,
/// nothing is sent for it. The exception is a run too long to be counted.
pub proof fn law_later_click_supersedes(
    s: MouseState,
    p: PendingRun,
    c: Click,
    dc: DoubleClick,
    now: u64,
)
    requires
        s.click_time == p.last_time,
        s.click_count == p.count,
        2 <= p.count < u32::MAX,
        !s.non_client_down,
        c.ok(),
    ensures
        !fires(Some(p), after_click(s, c, dc), now),
        !(debounce_action(Some(p), after_click(s, c, dc), DebounceEvent::Turn { now }) is Fire),
{
    lemma_moves(pressed(s, c.from, c.down, on_contents()), c.moves);
}

/// A drag after a run makes the run's report moot.
pub proof fn law_later_drag_supersedes(
    s: MouseState,
    p: PendingRun,
    pt: Point,
    down: u64,
    moves: Seq<Point>,
    up: Point,
    up_time: u64,
    dc: DoubleClick,
    now: u64,
)
    requires
        p.count >= 2,
        !s.non_client_down,
        down > 0,
        (up.x - pt.x) * (up.x - pt.x) + (up.y - pt.y) * (up.y - pt.y) >= 4 * 4,
    ensures
        !(debounce_action(
            Some(p),
            released(
                after_moves(pressed(s, pt, down, on_contents()), moves),
                up,
                up_time,
                dc,
            ),
            DebounceEvent::Turn { now },
        ) is Fire),
{
    lemma_moves(pressed(s, pt, down, on_contents()), moves);
}

/// A run is reported once: after its report, no run that was asked for before
/// the next click is reported.
pub proof fn law_run_is_reported_once(
    pending: Option<PendingRun>,
    mouse: MouseState,
    now: u64,
    other: PendingRun,
    later: u64,
)
    requires
        debounce_action(pending, mouse, DebounceEvent::Turn { now }) is Fire,
        other.count >= 2,
    ensures
        ({
            let turn = DebounceEvent::Turn { now };
            let reported = mouse_after(pending, mouse, turn);
            !(debounce_action(Some(other), reported, DebounceEvent::Turn { now: later }) is Fire)
        }),
{
}

/// A new request takes the place of the one that waits.
pub proof fn law_new_request_replaces(
    pending: Option<PendingRun>,
    mouse: MouseState,
    msg: DebounceMsg,
    now: u64,
)
    ensures
        ({
            let message = DebounceEvent::Message { msg, now };
            &&& pending_after(pending, message) == Some(scheduled(msg, now))
            &&& mouse_after(pending, mouse, message) == mouse
            &&& !(debounce_action(pending, mouse, message) is Fire)
        }),
{
}

/// A drag of 4 pixels or more along a line or across lines is reported, in
/// whatever direction it leads; a press that ends within 2 pixels is not.
pub proof fn law_drag_is_reported_in_every_direction(
    s: MouseState,
    pt: Point,
    now: u64,
    moves: Seq<Point>,
    up: Point,
    up_time: u64,
    dc: DoubleClick,
)
    requires
        !s.non_client_down,
        now > 0,
        up_time >= now + 200,
    ensures
        ({
            let held = after_moves(pressed(s, pt, now, on_contents()), moves);
            let trigger = on_release(held, up, up_time, dc).trigger;
            &&& abs(up.x - pt.x) >= 4 || abs(up.y - pt.y) >= 4 ==> trigger == Some(
                TriggerEvent::Drag((up_time - now) as u64),
            )
            &&& abs(up.x - pt.x) <= 2 && abs(up.y - pt.y) <= 2 ==> trigger is None
        }),
{
    law_drag_is_reported(s, pt, now, moves, up, up_time, dc);
    let dx = up.x - pt.x;
    let dy = up.y - pt.y;
    assert(dx * dx >= 0) by (nonlinear_arith);
    assert(dy * dy >= 0) by (nonlinear_arith);
    assert(abs(dx) >= 4 ==> dx * dx >= 16) by {
        if dx >= 4 {
            assert(dx * dx >= 16) by (nonlinear_arith)
                requires
                    dx >= 4,
            ;
        } else if dx <= -4 {
            assert(dx * dx >= 16) by (nonlinear_arith)
                requires
                    dx <= -4,
            ;
        }
    }
    assert(abs(dy) >= 4 ==> dy * dy >= 16) by {
        if dy >= 4 {
            assert(dy * dy >= 16) by (nonlinear_arith)
                requires
                    dy >= 4,
            ;
        } else if dy <= -4 {
            assert(dy * dy >= 16) by (nonlinear_arith)
                requires
                    dy <= -4,
            ;
        }
    }
    if abs(dx) <= 2 && abs(dy) <= 2 {
        assert(dx * dx <= 4) by (nonlinear_arith)
            requires
                -2 <= dx <= 2,
        ;
        assert(dy * dy <= 4) by (nonlinear_arith)
            requires
                -2 <= dy <= 2,
        ;
    }
}

/// Whether a press is a drag depends on nothing but how long it took and how
/// far it led: the way back counts as the way there, and so does a way that is
/// mirrored or turned.
pub proof fn law_drag_depends_on_the_distance(
    s: MouseState,
    pt: Point,
    up: Point,
    other: MouseState,
    other_pt: Point,
    other_up: Point,
    now: u64,
    up_time: u64,
    dc: DoubleClick,
)
    requires
        !s.non_client_down,
        !other.non_client_down,
        now > 0,
        ({
            let (dx, dy) = (abs(up.x - pt.x), abs(up.y - pt.y));
            let (ex, ey) = (abs(other_up.x - other_pt.x), abs(other_up.y - other_pt.y));
            dx == ex && dy == ey || dx == ey && dy == ex
        }),
    ensures
        on_release(pressed(s, pt, now, on_contents()), up, up_time, dc).trigger == on_release(
            pressed(other, other_pt, now, on_contents()),
            other_up,
            up_time,
            dc,
        ).trigger,
{
    let (dx, dy) = (up.x - pt.x, up.y - pt.y);
    let (ex, ey) = (other_up.x - other_pt.x, other_up.y - other_pt.y);
    assert(dx * dx == (-dx) * (-dx)) by (nonlinear_arith);
    assert(dy * dy == (-dy) * (-dy)) by (nonlinear_arith);
    assert(ex == dx || ex == -dx || ex == dy || ex == -dy);
    assert(dx * dx + dy * dy == ex * ex + ey * ey);
}

/// While the button is down, the state tells where it went down and where the
/// mouse was last; a release is where it was last.
pub proof fn law_mouse_is_followed(
    s: MouseState,
    pt: Point,
    now: u64,
    moves: Seq<Point>,
    up: Point,
    up_time: u64,
    dc: DoubleClick,
)
    requires
        !s.non_client_down,
        now > 0,
    ensures
        ({
            let held = after_moves(pressed(s, pt, now, on_contents()), moves);
            let done = released(held, up, up_time, dc);
            &&& held.down_time == now
            &&& held.down == pt
            &&& held.last == (if moves.len() > 0 {
                moves.last()
            } else {
                pt
            })
            &&& held.click_time == s.click_time
            &&& held.click_count == s.click_count
            &&& held.click == s.click
            &&& !held.non_client_down
            &&& done.down_time == 0
            &&& done.down == pt
            &&& done.last == up
            &&& !done.non_client_down
        }),
    decreases moves.len(),
{
    lemma_moves(pressed(s, pt, now, on_contents()), moves);
    if moves.len() > 0 {
        lemma_moves(pressed(s, pt, now, on_contents()), moves.drop_last());
    }
}

/// A click is counted with the run before it where it ends within the
/// double-click time after the run and within half of the double-click area of
/// it, and starts a run of its own otherwise. It is the end of the run then.
pub proof fn law_click_continues_or_starts_a_run(s: MouseState, c: Click, dc: DoubleClick)
    requires
        !s.non_client_down,
        c.down > 0,
        c.up < c.down + 200,
        (c.to.x - c.from.x) * (c.to.x - c.from.x) + (c.to.y - c.from.y) * (c.to.y - c.from.y) < 4
            * 4,
    ensures
        ({
            let done = after_click(s, c, dc);
            &&& done.click_time == c.up
            &&& done.click == c.to
            &&& done.click_count == (if starts_anew(s, c, dc) {
                1
            } else {
                counted(s.click_count as nat + 1)
            })
            &&& on_release(held(s, c), c.to, c.up, dc).trigger is None
            &&& on_release(held(s, c), c.to, c.up, dc).schedule == (if done.click_count >= 2 {
                Some(
                    DebounceMsg::Schedule {
                        count: done.click_count,
                        last_time: c.up,
                        debounce_ms: dc.max_ms as u64,
                    },
                )
            } else {
                None
            })
        }),
{
    lemma_moves(pressed(s, c.from, c.down, on_contents()), c.moves);
}

/// It does not matter which of two places was clicked first: whether two
/// clicks make a run is the same both ways.
pub proof fn law_runs_are_symmetric(
    s: MouseState,
    first: Click,
    second: Click,
    there: Point,
    back: Point,
    dc: DoubleClick,
)
    requires
        !s.non_client_down,
        first.ok(),
        second.ok(),
        first.from == there,
        first.to == there,
        second.from == back,
        second.to == back,
    ensures
        ({
            let swapped = Click { from: there, to: there, ..second };
            let before = Click { from: back, to: back, ..first };
            let one_way = after_click(MouseState { click: there, ..s }, second, dc);
            let other_way = after_click(MouseState { click: back, ..s }, swapped, dc);
            &&& one_way.click_count == other_way.click_count
            &&& after_click(after_click(s, first, dc), second, dc).click_count >= 2
                <==> after_click(after_click(s, before, dc), swapped, dc).click_count >= 2
        }),
{
    let swapped = Click { from: there, to: there, ..second };
    let before = Click { from: back, to: back, ..first };
    assert(swapped.ok());
    assert(before.ok());
    law_click_continues_or_starts_a_run(MouseState { click: there, ..s }, second, dc);
    law_click_continues_or_starts_a_run(MouseState { click: back, ..s }, swapped, dc);
    law_click_continues_or_starts_a_run(s, first, dc);
    law_click_continues_or_starts_a_run(s, before, dc);
    law_mouse_is_followed(s, first.from, first.down, first.moves, first.to, first.up, dc);
    law_mouse_is_followed(s, before.from, before.down, before.moves, before.to, before.up, dc);
    law_click_continues_or_starts_a_run(after_click(s, first, dc), second, dc);
    law_click_continues_or_starts_a_run(after_click(s, before, dc), swapped, dc);
}

/// A release that no press on a window's contents came before sends nothing
/// and leaves the run of clicks alone.
pub proof fn law_release_needs_a_press(s: MouseState, up: Point, up_time: u64, dc: DoubleClick)
    requires
        s.non_client_down || s.down_time == 0,
    ensures
        ({
            let done = released(s, up, up_time, dc);
            let outcome = on_release(s, up, up_time, dc);
            &&& outcome.trigger is None
            &&& outcome.schedule is None
            &&& done.down_time == 0
            &&& !done.non_client_down
            &&& done.down == s.down
            &&& done.last == (if s.non_client_down {
                s.last
            } else {
                up
            })
            &&& done.click_time == s.click_time
            &&& done.click == s.click
            &&& done.click_count == s.click_count
        }),
{
}

/// A message goes on without the hook's handle exactly where a press is on a
/// frame, a caption or a scroll bar, and where such a press ends.
pub proof fn law_messages_are_passed_on(s: MouseState, input: HookInput)
    ensures
        input_outcome(s, input).pass_on == PassOn::Bare <==> match input {
            HookInput::ButtonDown { hits, .. } => hits.title_bar || hits.top_drag_region
                || hits.resize_border || hits.scrollbar || hits.splitter,
            HookInput::ButtonUp { .. } => s.non_client_down,
            _ => false,
        },
{
}

/// Nothing comes of other messages, nor of moves while the button is up.
pub proof fn law_other_messages_change_nothing(s: MouseState, pt: Point)
    ensures
        after_input(s, HookInput::Other) == s,
        s.down_time == 0 ==> after_input(s, HookInput::Move { pt }) == s,
{
}

/// What is said here of states and outcomes holds of every call of
/// [`mouse_hook_proc`].
pub proof fn law_hook_keeps_to_its_laws()
    ensures
        forall|state: &mut MouseState, input: HookInput, outcome: HookOutcome| #[trigger]
            call_ensures(mouse_hook_proc, (state, input), outcome) ==> {
                &&& *final(state) == after_input(*state, input)
                &&& outcome == input_outcome(*state, input)
            },
{
}

/// Before the first message no button is down and no click has been seen.
pub proof fn law_new_state_is_idle(s: MouseState)
    requires
        call_ensures(MouseState::new, (), s),
    ensures
        s == idle(),
        s.down_time == 0 && s.click_time == 0 && s.click_count == 0 && !s.non_client_down,
        s.down == (Point { x: 0, y: 0 }) && s.last == s.down && s.click == s.down,
{
}

/// Calls of the hook with a negative code are about nothing; the others are
/// told apart by the low 32 bits of the message, so that the rest of it does
/// not matter.
pub proof fn law_messages_are_told_apart(
    code: i32,
    wparam: usize,
    m: HookMessage,
    other_code: i32,
    other_wparam: usize,
    other: HookMessage,
)
    requires
        call_ensures(hook_message, (code, wparam), m),
        call_ensures(hook_message, (other_code, other_wparam), other),
    ensures
        code < 0 ==> m == HookMessage::Other,
        code >= 0 && wparam == 0x200 ==> m == HookMessage::Move,
        code >= 0 && wparam == 0x201 ==> m == HookMessage::ButtonDown,
        code >= 0 && wparam == 0x202 ==> m == HookMessage::ButtonUp,
        wparam < 0x200 || 0x202 < wparam <= 0xffff_ffff ==> m == HookMessage::Other,
        code >= 0 && other_code >= 0 && (wparam - other_wparam) % 0x1_0000_0000 == 0 ==> m == other,
{
}

/// A message goes on with the hook's handle where it is to and the handle is
/// known.
pub proof fn law_handle_is_passed_on(pass_on: PassOn, handle: usize, r: Option<usize>)
    requires
        call_ensures(next_hook, (pass_on, handle), r),
    ensures
        r is Some <==> pass_on == PassOn::WithHandle && handle != 0,
        r is Some ==> r == Some(handle),
{
}

/// In whatever state it comes, a press on a window's contents sets where and
/// when the button went down and nothing else; a press on anything else leaves
/// no more than that it was one; a move changes only where the mouse was last.
pub proof fn law_presses_and_moves_in_any_state(
    s: MouseState,
    pt: Point,
    now: u64,
    hits: PressHits,
)
    ensures
        ({
            let on_frame = hits.title_bar || hits.top_drag_region || hits.resize_border
                || hits.scrollbar || hits.splitter;
            let down = pressed(s, pt, now, hits);
            let moved = after_input(s, HookInput::Move { pt });
            &&& down.click_time == s.click_time && down.click == s.click && down.click_count
                == s.click_count
            &&& on_frame ==> down.non_client_down && down.down_time == 0 && down.down == s.down
                && down.last == s.last
            &&& !on_frame ==> down.non_client_down == s.non_client_down && down.down_time == now
                && down.down == pt && down.last == pt
            &&& moved.last == (if s.down_time > 0 {
                pt
            } else {
                s.last
            })
            &&& moved == (MouseState { last: moved.last, ..s })
        }),
{
}

/// The numbers by which the system tells the messages of the mouse.
pub proof fn law_message_numbers()
    ensures
        crate::hook::WM_MOUSEMOVE == 0x200,
        crate::hook::WM_LBUTTONDOWN == 0x201,
        crate::hook::WM_LBUTTONUP == 0x202,
        crate::global::SELECTION_THRESHOLD_MS == 200,
        crate::global::DRAG_THRESHOLD_PX == 4,
{
}

} // verus!
