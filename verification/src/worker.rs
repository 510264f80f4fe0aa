//! The worker thread: from a trigger to a report of the selection.

use vstd::prelude::*;

use crate::geometry::Point;
use crate::global::{get_current_time, SelectionInfo, TriggerEvent};
use crate::hook::MouseState;
use crate::text::{blank, decimal};
use crate::uia::FocusedSelection;

verus! {

/// How long the selection is given to settle before it is read, in
/// milliseconds.
pub const SETTLE_MS: u64 = 50;

/// What the worker thread is told.
#[derive(Clone, Copy, Debug, PartialEq, Eq, Structural)]
pub enum WorkerEvent {
    /// The thread was set up for automation calls, or not.
    Initialized(bool),
    /// A trigger came in.
    Received(TriggerEvent),
    /// The selection was looked for.
    Detected,
    /// No trigger can come in any more.
    Disconnected,
}

/// What the worker thread does next.
#[derive(Clone, Copy, Debug, PartialEq, Eq, Structural)]
pub enum WorkerAction {
    /// Wait for a trigger.
    Receive,
    /// Pause for so many milliseconds, and look for the selection.
    Detect { pause_ms: u64, event: TriggerEvent },
    /// Undo the set-up, and end the thread.
    Release,
    /// End the thread.
    Stop,
}

/// What the worker thread does about `event`.
pub open spec fn worker_action(event: WorkerEvent) -> WorkerAction {
    match event {
        WorkerEvent::Initialized(ok) => if ok {
            WorkerAction::Receive
        } else {
            WorkerAction::Stop
        },
        WorkerEvent::Received(trigger) => WorkerAction::Detect {
            pause_ms: SETTLE_MS,
            event: trigger,
        },
        WorkerEvent::Detected => WorkerAction::Receive,
        WorkerEvent::Disconnected => WorkerAction::Release,
    }
}

/// One step of the worker thread.
pub fn worker_loop(event: WorkerEvent) -> (action: WorkerAction)
    ensures
        action == worker_action(event),
{
    match event {
        WorkerEvent::Initialized(ok) => if ok {
            WorkerAction::Receive
        } else {
            WorkerAction::Stop
        },
        WorkerEvent::Received(trigger) => WorkerAction::Detect {
            pause_ms: SETTLE_MS,
            event: trigger,
        },
        WorkerEvent::Detected => WorkerAction::Receive,
        WorkerEvent::Disconnected => WorkerAction::Release,
    }
}

/// The place of a selection as far as the mouse tells it: the top left corner
/// of the way that a drag took, or the last click.
pub open spec fn mouse_corner(event: TriggerEvent, mouse: MouseState) -> (i32, i32) {
    match event {
        TriggerEvent::Drag(_) => (
            if mouse.down.x <= mouse.last.x {
                mouse.down.x
            } else {
                mouse.last.x
            },
            if mouse.down.y <= mouse.last.y {
                mouse.down.y
            } else {
                mouse.last.y
            },
        ),
        TriggerEvent::ClickSequence(_) => (mouse.last.x, mouse.last.y),
    }
}

/// There is a selection to report.
pub open spec fn has_content(found: Option<FocusedSelection>) -> bool {
    found matches Some(f) && f.0 matches Some(t) && !crate::text::is_blank(t@)
}

/// `report` is what is made of the selection that was found.
pub open spec fn is_report(
    report: Option<SelectionInfo>,
    event: TriggerEvent,
    found: Option<FocusedSelection>,
    mouse: MouseState,
) -> bool {
    match report {
        Some(info) => {
            &&& has_content(found)
            &&& found matches Some(f) && {
                let corner = match f.1 {
                    Some(c) => c,
                    None => mouse_corner(event, mouse),
                };
                &&& f.0 == Some(info.content)
                &&& info.last_mouse_x == mouse.last.x
                &&& info.last_mouse_y == mouse.last.y
                &&& info.selection_left == corner.0
                &&& info.selection_top == corner.1
            }
        },
        None => !has_content(found),
    }
}

/// A drag whose place is not known is reported at a corner that is neither
/// below nor to the right of where it began or ended.
pub proof fn law_drag_corner_is_top_left(duration: u64, mouse: MouseState)
    ensures
        ({
            let (left, top) = mouse_corner(TriggerEvent::Drag(duration), mouse);
            &&& left <= mouse.down.x && left <= mouse.last.x
            &&& top <= mouse.down.y && top <= mouse.last.y
        }),
{
}

fn corner_from_mouse(event: TriggerEvent, mouse: &MouseState) -> (r: (i32, i32))
    ensures
        r == mouse_corner(event, *mouse),
{
    let down: Point = mouse.down;
    let last: Point = mouse.last;
    match event {
        TriggerEvent::Drag(_) => {
            let left: i32 = if down.x <= last.x {
                down.x
            } else {
                last.x
            };
            let top: i32 = if down.y <= last.y {
                down.y
            } else {
                last.y
            };
            (left, top)
        },
        TriggerEvent::ClickSequence(_) => (last.x, last.y),
    }
}

/// The report of a selection at a given time. Blank text makes no report. A
/// selection whose place is not known is reported at that of the mouse.
pub fn selection_report(
    event: TriggerEvent,
    found: Option<FocusedSelection>,
    mouse: &MouseState,
    time: String,
) -> (report: Option<SelectionInfo>)
    ensures
        is_report(report, event, found, *mouse),
        report matches Some(info) ==> info.time == time,
{
    match found {
        Some((Some(content), top_left)) => {
            if blank(content.as_str()) {
                return None;
            }
            let (selection_left, selection_top): (i32, i32) = match top_left {
                Some(corner) => corner,
                None => corner_from_mouse(event, mouse),
            };
            Some(
                SelectionInfo {
                    content,
                    time,
                    last_mouse_x: mouse.last.x,
                    last_mouse_y: mouse.last.y,
                    selection_left,
                    selection_top,
                },
            )
        },
        _ => None,
    }
}

/// What a detection does, one thing after the other.
#[derive(Debug, PartialEq, Eq)]
pub enum DetectionStep {
    /// Write this to the log.
    Log(String),
    /// Report this selection.
    Report(SelectionInfo),
}

/// The line that sets a detection apart in the log.
pub open spec fn separator_text() -> Seq<char> {
    "--------------------------------------------------"@
}

/// The line that names what led to a detection, with the time of the drag or
/// the number of the clicks.
pub open spec fn event_text(event: TriggerEvent) -> Seq<char> {
    match event {
        TriggerEvent::Drag(ms) => "检测到长按/拖拽 ("@ + crate::text::digits(ms as nat, 1)
            + "ms) 结束，捕获文本:"@,
        TriggerEvent::ClickSequence(count) => "检测到鼠标连击("@ + crate::text::digits(
            count as nat,
            1,
        ) + "次)选中，捕获文本:"@,
    }
}

/// The line that gives the selected text and the time of its report.
pub open spec fn content_text(info: SelectionInfo) -> Seq<char> {
    ">>> "@ + info.content@ + " - "@ + info.time@
}

/// `step` writes `line` to the log.
pub open spec fn logs(step: DetectionStep, line: Seq<char>) -> bool {
    step matches DetectionStep::Log(l) && l@ == line
}

/// `steps` log a detection and report `info` between the third and the fourth
/// line.
pub open spec fn is_detection(
    steps: Seq<DetectionStep>,
    event: TriggerEvent,
    info: SelectionInfo,
) -> bool {
    &&& steps.len() == 5
    &&& logs(steps[0], separator_text())
    &&& logs(steps[1], event_text(event))
    &&& logs(steps[2], content_text(info))
    &&& steps[3] == DetectionStep::Report(info)
    &&& logs(steps[4], separator_text())
}

fn separator() -> (r: String)
    ensures
        r@ == separator_text(),
{
    "--------------------------------------------------".to_owned()
}

fn event_line(event: TriggerEvent) -> (r: String)
    ensures
        r@ == event_text(event),
{
    match event {
        TriggerEvent::Drag(ms) => {
            let mut r: String = "检测到长按/拖拽 (".to_owned();
            r.append(decimal(ms).as_str());
            r.append("ms) 结束，捕获文本:");
            r
        },
        TriggerEvent::ClickSequence(count) => {
            let mut r: String = "检测到鼠标连击(".to_owned();
            r.append(decimal(count as u64).as_str());
            r.append("次)选中，捕获文本:");
            r
        },
    }
}

fn content_line(info: &SelectionInfo) -> (r: String)
    ensures
        r@ == content_text(*info),
{
    let mut r: String = ">>> ".to_owned();
    r.append(info.content.as_str());
    r.append(" - ");
    r.append(info.time.as_str());
    r
}

/// The log lines of a detection.
pub fn detection_lines(event: TriggerEvent, info: &SelectionInfo) -> (r: Vec<String>)
    ensures
        r@.len() == 4,
        r@[0]@ == separator_text(),
        r@[1]@ == event_text(event),
        r@[2]@ == content_text(*info),
        r@[3]@ == separator_text(),
{
    let mut r: Vec<String> = Vec::new();
    r.push(separator());
    r.push(event_line(event));
    r.push(content_line(info));
    r.push(separator());
    r
}

/// What is done about a selection that is to be reported.
pub fn detection_steps(event: TriggerEvent, info: SelectionInfo) -> (r: Vec<DetectionStep>)
    ensures
        is_detection(r@, event, info),
{
    let mut lines: Vec<String> = detection_lines(event, &info);
    let ghost texts = lines@;
    let mut r: Vec<DetectionStep> = Vec::new();
    r.push(DetectionStep::Log(lines.remove(0)));
    r.push(DetectionStep::Log(lines.remove(0)));
    r.push(DetectionStep::Log(lines.remove(0)));
    r.push(DetectionStep::Report(info));
    r.push(DetectionStep::Log(lines.remove(0)));
    assert(r@ == seq![
        DetectionStep::Log(texts[0]),
        DetectionStep::Log(texts[1]),
        DetectionStep::Log(texts[2]),
        DetectionStep::Report(info),
        DetectionStep::Log(texts[3]),
    ]);
    r
}

fn has_text(found: &Option<FocusedSelection>) -> (r: bool)
    ensures
        r == has_content(*found),
{
    match found {
        Some((Some(text), _)) => !blank(text.as_str()),
        _ => false,
    }
}

/// What is done about the selection that was found after `event`: it is
/// logged and reported, stamped with the current time. Without text nothing is
/// done. `found` is `None` where the search failed.
pub fn perform_uia_detection(
    event: TriggerEvent,
    found: Option<FocusedSelection>,
    mouse: &MouseState,
) -> (steps: Vec<DetectionStep>)
    ensures
        !has_content(found) ==> steps@.len() == 0,
        has_content(found) ==> {
            &&& steps@.len() == 5
            &&& steps@[3] matches DetectionStep::Report(info) && {
                &&& is_report(Some(info), event, found, *mouse)
                &&& is_detection(steps@, event, info)
                &&& exists|t: crate::global::LocalTime| #[trigger]
                    t.valid() && info.time@ == t.text()
            }
        },
{
    if !has_text(&found) {
        return Vec::new();
    }
    let time: String = get_current_time();
    match selection_report(event, found, mouse, time) {
        Some(info) => detection_steps(event, info),
        None => Vec::new(),
    }
}

} // verus!
