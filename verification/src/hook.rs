//! The mouse hook: from button presses and moves to drags and runs of clicks.

use vstd::prelude::*;

use crate::geometry::Point;
use crate::global::{TriggerEvent, DRAG_THRESHOLD_PX, SELECTION_THRESHOLD_MS};

verus! {

pub const WM_MOUSEMOVE: u32 = 0x0200;

pub const WM_LBUTTONDOWN: u32 = 0x0201;

pub const WM_LBUTTONUP: u32 = 0x0202;

/// What the hook remembers of the mouse between two messages.
#[derive(Clone, Copy, Debug, PartialEq, Eq, Structural)]
pub struct MouseState {
    /// When the button went down, in milliseconds; 0 while it is up.
    pub down_time: u64,
    /// Where the button went down.
    pub down: Point,
    /// Where the mouse was last seen while the button was down or went up.
    pub last: Point,
    /// When the last click of the current run ended; 0 while there is no run.
    pub click_time: u64,
    /// Where the last click ended.
    pub click: Point,
    /// The number of clicks in the current run.
    pub click_count: u32,
    /// The button went down on a frame, a caption or a scroll bar.
    pub non_client_down: bool,
}

/// What lies under the mouse as the button goes down. A test that an earlier
/// one made needless counts as failed.
#[derive(Clone, Copy, Debug, PartialEq, Eq, Structural)]
pub struct PressHits {
    pub title_bar: bool,
    pub top_drag_region: bool,
    pub resize_border: bool,
    pub scrollbar: bool,
    pub splitter: bool,
}

/// The user's double-click settings.
#[derive(Clone, Copy, Debug, PartialEq, Eq, Structural)]
pub struct DoubleClick {
    /// The longest time between two clicks, in milliseconds.
    pub max_ms: u32,
    /// The size of the area that two clicks must share.
    pub width: i32,
    pub height: i32,
}

/// The kinds of hook message.
#[derive(Clone, Copy, Debug, PartialEq, Eq, Structural)]
pub enum HookMessage {
    ButtonDown,
    Move,
    ButtonUp,
    Other,
}

/// A hook message with what the system was asked about it.
#[derive(Clone, Copy, Debug, PartialEq, Eq, Structural)]
pub enum HookInput {
    ButtonDown { pt: Point, now: u64, hits: PressHits },
    Move { pt: Point },
    ButtonUp { pt: Point, now: u64, double_click: DoubleClick },
    Other,
}

/// A request to the debounce thread.
#[derive(Clone, Copy, Debug, PartialEq, Eq, Structural)]
pub enum DebounceMsg {
    Schedule { count: u32, last_time: u64, debounce_ms: u64 },
}

/// How a message goes on to the next hook.
#[derive(Clone, Copy, Debug, PartialEq, Eq, Structural)]
pub enum PassOn {
    /// With the handle of this hook, where it is known.
    WithHandle,
    /// Without a handle.
    Bare,
}

/// What the hook does about a message.
#[derive(Clone, Copy, Debug, PartialEq, Eq, Structural)]
pub struct HookOutcome {
    pub pass_on: PassOn,
    /// Sent to the worker.
    pub trigger: Option<TriggerEvent>,
    /// Sent to the debounce thread.
    pub schedule: Option<DebounceMsg>,
}

impl PressHits {
    /// The press is on something other than a window's contents.
    pub open spec fn any(self) -> bool {
        self.title_bar || self.top_drag_region || self.resize_border || self.scrollbar
            || self.splitter
    }
}

impl MouseState {
    /// A run of clicks that has an end has at least one click.
    pub open spec fn wf(self) -> bool {
        self.click_time != 0 ==> self.click_count >= 1
    }

    /// No button pressed and no click seen.
    pub fn new() -> (s: MouseState)
        ensures
            s == idle(),
            s.wf(),
    {
        let origin: Point = Point { x: 0, y: 0 };
        MouseState {
            down_time: 0,
            down: origin,
            last: origin,
            click_time: 0,
            click: origin,
            click_count: 0,
            non_client_down: false,
        }
    }
}

/// The state before the first message.
pub open spec fn idle() -> MouseState {
    let origin = Point { x: 0, y: 0 };
    MouseState {
        down_time: 0,
        down: origin,
        last: origin,
        click_time: 0,
        click: origin,
        click_count: 0,
        non_client_down: false,
    }
}

/// The time from `start` to `end`; none where the clock went back.
pub open spec fn elapsed(start: u64, end: u64) -> int {
    if end >= start {
        end - start
    } else {
        0
    }
}

/// The way from `from` to `to` is at least the drag threshold.
pub open spec fn moved_enough(from: Point, to: Point) -> bool {
    (to.x - from.x) * (to.x - from.x) + (to.y - from.y) * (to.y - from.y) >= DRAG_THRESHOLD_PX
        * DRAG_THRESHOLD_PX
}

/// Half of a double-click extent, but at least one pixel.
pub open spec fn half_extent(extent: i32) -> int {
    if extent >= 2 {
        extent as int / 2
    } else {
        1
    }
}

/// `b` is no further from `a` than half of the double-click area.
pub open spec fn near(a: Point, b: Point, dc: DoubleClick) -> bool {
    &&& -half_extent(dc.width) <= b.x - a.x <= half_extent(dc.width)
    &&& -half_extent(dc.height) <= b.y - a.y <= half_extent(dc.height)
}

/// A click that ends now at `pt` continues the current run.
pub open spec fn continues_run(s: MouseState, pt: Point, now: u64, dc: DoubleClick) -> bool {
    &&& s.click_time != 0
    &&& elapsed(s.click_time, now) <= dc.max_ms
    &&& near(s.click, pt, dc)
}

/// The length of the run of clicks once a click has ended now at `pt`.
pub open spec fn run_length(s: MouseState, pt: Point, now: u64, dc: DoubleClick) -> u32 {
    if !continues_run(s, pt, now, dc) {
        1
    } else if s.click_count == u32::MAX {
        u32::MAX
    } else {
        (s.click_count + 1) as u32
    }
}

/// The state after the button went down.
pub open spec fn after_press(s: MouseState, pt: Point, now: u64, hits: PressHits) -> MouseState {
    if hits.any() {
        MouseState { non_client_down: true, down_time: 0, ..s }
    } else {
        MouseState { down_time: now, down: pt, last: pt, ..s }
    }
}

/// The state after the mouse moved.
pub open spec fn after_move(s: MouseState, pt: Point) -> MouseState {
    if s.down_time != 0 {
        MouseState { last: pt, ..s }
    } else {
        s
    }
}

/// The release ends a press on a window's contents that was shorter than the
/// selection threshold and led nowhere: a click.
pub open spec fn is_click(s: MouseState, pt: Point, now: u64) -> bool {
    &&& !s.non_client_down
    &&& s.down_time != 0
    &&& !moved_enough(s.down, pt)
    &&& elapsed(s.down_time, now) < SELECTION_THRESHOLD_MS
}

/// The release ends a press on a window's contents that led elsewhere.
pub open spec fn is_drag(s: MouseState, pt: Point) -> bool {
    &&& !s.non_client_down
    &&& s.down_time != 0
    &&& moved_enough(s.down, pt)
}

/// The state after the button went up.
pub open spec fn after_release(
    s: MouseState,
    pt: Point,
    now: u64,
    dc: DoubleClick,
) -> MouseState {
    let up = MouseState {
        down_time: 0,
        non_client_down: false,
        last: if s.non_client_down {
            s.last
        } else {
            pt
        },
        ..s
    };
    if is_drag(s, pt) {
        MouseState { click_time: 0, click_count: 0, ..up }
    } else if is_click(s, pt, now) {
        MouseState {
            click_time: now,
            click: pt,
            click_count: run_length(s, pt, now, dc),
            ..up
        }
    } else {
        up
    }
}

/// What the hook does as the button goes up.
pub open spec fn release_outcome(
    s: MouseState,
    pt: Point,
    now: u64,
    dc: DoubleClick,
) -> HookOutcome {
    HookOutcome {
        pass_on: if s.non_client_down {
            PassOn::Bare
        } else {
            PassOn::WithHandle
        },
        trigger: if is_drag(s, pt) && elapsed(s.down_time, now) >= SELECTION_THRESHOLD_MS {
            Some(TriggerEvent::Drag(elapsed(s.down_time, now) as u64))
        } else {
            None
        },
        schedule: if is_click(s, pt, now) && run_length(s, pt, now, dc) >= 2 {
            Some(
                DebounceMsg::Schedule {
                    count: run_length(s, pt, now, dc),
                    last_time: now,
                    debounce_ms: dc.max_ms as u64,
                },
            )
        } else {
            None
        },
    }
}

/// The state after a hook message.
pub open spec fn after_input(s: MouseState, input: HookInput) -> MouseState {
    match input {
        HookInput::ButtonDown { pt, now, hits } => after_press(s, pt, now, hits),
        HookInput::Move { pt } => after_move(s, pt),
        HookInput::ButtonUp { pt, now, double_click } => after_release(s, pt, now, double_click),
        HookInput::Other => s,
    }
}

/// What the hook does about a hook message.
pub open spec fn input_outcome(s: MouseState, input: HookInput) -> HookOutcome {
    match input {
        HookInput::ButtonDown { hits, .. } => HookOutcome {
            pass_on: if hits.any() {
                PassOn::Bare
            } else {
                PassOn::WithHandle
            },
            trigger: None,
            schedule: None,
        },
        HookInput::ButtonUp { pt, now, double_click } => release_outcome(
            s,
            pt,
            now,
            double_click,
        ),
        _ => HookOutcome { pass_on: PassOn::WithHandle, trigger: None, schedule: None },
    }
}

/// Tells what a hook call is about. A negative code is not for this hook.
pub fn hook_message(code: i32, wparam: usize) -> (m: HookMessage)
    ensures
        m == (if code < 0 {
            HookMessage::Other
        } else if wparam as int % 0x1_0000_0000 == WM_LBUTTONDOWN {
            HookMessage::ButtonDown
        } else if wparam as int % 0x1_0000_0000 == WM_MOUSEMOVE {
            HookMessage::Move
        } else if wparam as int % 0x1_0000_0000 == WM_LBUTTONUP {
            HookMessage::ButtonUp
        } else {
            HookMessage::Other
        }),
{
    if code < 0 {
        return HookMessage::Other;
    }
    let wide: u64 = wparam as u64;
    let msg: u32 = #[verifier::truncate] (wide as u32);
    assert(wide as u32 == wide % 0x1_0000_0000) by (bit_vector);
    if msg == WM_LBUTTONDOWN {
        HookMessage::ButtonDown
    } else if msg == WM_MOUSEMOVE {
        HookMessage::Move
    } else if msg == WM_LBUTTONUP {
        HookMessage::ButtonUp
    } else {
        HookMessage::Other
    }
}

/// Handles one hook message.
pub fn mouse_hook_proc(state: &mut MouseState, input: HookInput) -> (outcome: HookOutcome)
    ensures
        *final(state) == after_input(*old(state), input),
        outcome == input_outcome(*old(state), input),
        old(state).wf() ==> final(state).wf(),
{
    match input {
        HookInput::ButtonDown { pt, now, hits } => {
            if hits.title_bar || hits.top_drag_region || hits.resize_border || hits.scrollbar
                || hits.splitter {
                state.non_client_down = true;
                state.down_time = 0;
                return HookOutcome { pass_on: PassOn::Bare, trigger: None, schedule: None };
            }
            state.down_time = now;
            state.down = pt;
            state.last = pt;
            HookOutcome { pass_on: PassOn::WithHandle, trigger: None, schedule: None }
        },
        HookInput::Move { pt } => {
            if state.down_time != 0 {
                state.last = pt;
            }
            HookOutcome { pass_on: PassOn::WithHandle, trigger: None, schedule: None }
        },
        HookInput::ButtonUp { pt, now, double_click } => {
            if state.non_client_down {
                state.non_client_down = false;
                state.down_time = 0;
                return HookOutcome { pass_on: PassOn::Bare, trigger: None, schedule: None };
            }
            button_up(state, pt, now, double_click)
        },
        HookInput::Other => HookOutcome {
            pass_on: PassOn::WithHandle,
            trigger: None,
            schedule: None,
        },
    }
}

/// Ends a press on a window's contents.
fn button_up(state: &mut MouseState, pt: Point, now: u64, dc: DoubleClick) -> (outcome: HookOutcome)
    requires
        !old(state).non_client_down,
    ensures
        *final(state) == after_release(*old(state), pt, now, dc),
        outcome == release_outcome(*old(state), pt, now, dc),
{
    let mut trigger: Option<TriggerEvent> = None;
    let mut schedule: Option<DebounceMsg> = None;
    state.last = pt;
    let start_time: u64 = state.down_time;
    state.down_time = 0;
    if start_time > 0 {
        let duration: u64 = now.saturating_sub(start_time);
        let moved: bool = far_apart(state.down, pt);
        if moved {
            if duration >= SELECTION_THRESHOLD_MS {
                trigger = Some(TriggerEvent::Drag(duration));
            }
            state.click_time = 0;
            state.click_count = 0;
        } else if duration < SELECTION_THRESHOLD_MS {
            let within_time: bool = state.click_time != 0 && now.saturating_sub(state.click_time)
                <= dc.max_ms as u64;
            let new_count: u32 = if within_time && close_by(state.click, pt, dc) {
                state.click_count.saturating_add(1)
            } else {
                1
            };
            state.click_time = now;
            state.click = pt;
            state.click_count = new_count;
            if new_count >= 2 {
                schedule = Some(
                    DebounceMsg::Schedule {
                        count: new_count,
                        last_time: now,
                        debounce_ms: dc.max_ms as u64,
                    },
                );
            }
        }
    }
    HookOutcome { pass_on: PassOn::WithHandle, trigger, schedule }
}

fn far_apart(from: Point, to: Point) -> (r: bool)
    ensures
        r == moved_enough(from, to),
{
    let dx: i128 = to.x as i128 - from.x as i128;
    let dy: i128 = to.y as i128 - from.y as i128;
    assert(0 <= dx * dx <= 0x1_0000_0000_0000_0000) by (nonlinear_arith)
        requires
            -0x1_0000_0000 <= dx <= 0x1_0000_0000,
    ;
    assert(0 <= dy * dy <= 0x1_0000_0000_0000_0000) by (nonlinear_arith)
        requires
            -0x1_0000_0000 <= dy <= 0x1_0000_0000,
    ;
    let threshold: i128 = DRAG_THRESHOLD_PX as i128;
    dx * dx + dy * dy >= threshold * threshold
}

fn half_of(extent: i32) -> (r: i64)
    ensures
        r == half_extent(extent),
{
    if extent >= 2 {
        extent as i64 / 2
    } else {
        1
    }
}

fn close_by(a: Point, b: Point, dc: DoubleClick) -> (r: bool)
    ensures
        r == near(a, b, dc),
{
    let dx: i64 = b.x as i64 - a.x as i64;
    let dy: i64 = b.y as i64 - a.y as i64;
    let half_cx: i64 = half_of(dc.width);
    let half_cy: i64 = half_of(dc.height);
    -half_cx <= dx && dx <= half_cx && -half_cy <= dy && dy <= half_cy
}

/// The handle to pass on with a message.
pub fn next_hook(pass_on: PassOn, handle: usize) -> (r: Option<usize>)
    ensures
        r == (if pass_on == PassOn::WithHandle && handle != 0 {
            Some(handle)
        } else {
            None
        }),
{
    match pass_on {
        PassOn::WithHandle => if handle == 0 {
            None
        } else {
            Some(handle)
        },
        PassOn::Bare => None,
    }
}

} // verus!
