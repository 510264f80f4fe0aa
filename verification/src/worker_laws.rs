//! What holds of the worker thread from its start to its end.

use vstd::prelude::*;

use crate::geometry::Point;
use crate::global::{SelectionInfo, TriggerEvent};
use crate::hook::{DoubleClick, MouseState};
#[allow(unused_imports)]
use crate::hook_laws::{after_moves, law_mouse_is_followed, on_contents, pressed, released};
#[allow(unused_imports)]
use crate::text::is_white_space;
#[allow(unused_imports)]
use crate::text_laws::{is_numeral, law_numerals_are_unique, lemma_digits, number};
use crate::uia::FocusedSelection;
#[allow(unused_imports)]
use crate::worker::{is_report, mouse_corner, worker_action};
use crate::worker::{
    detection_lines, detection_steps, perform_uia_detection, selection_report, worker_loop,
    DetectionStep, WorkerAction, WorkerEvent,
};
#[allow(unused_imports)]
use vstd::math::min;

verus! {

/// How near `event` is to the next trigger or to the end.
pub open spec fn steps_ahead(event: WorkerEvent) -> nat {
    match event {
        WorkerEvent::Initialized(_) => 2,
        WorkerEvent::Received(_) => 2,
        WorkerEvent::Detected => 1,
        WorkerEvent::Disconnected => 0,
    }
}

/// All that the worker thread does from `event` on, where `triggers` are still
/// to come in.
pub open spec fn worker_trace(event: WorkerEvent, triggers: Seq<TriggerEvent>) -> Seq<WorkerAction>
    decreases triggers.len(), steps_ahead(event),
{
    let action = worker_action(event);
    match action {
        WorkerAction::Receive => if triggers.len() > 0 {
            seq![action] + worker_trace(
                WorkerEvent::Received(triggers[0]),
                triggers.drop_first(),
            )
        } else {
            seq![action] + worker_trace(WorkerEvent::Disconnected, triggers)
        },
        WorkerAction::Detect { .. } => seq![action] + worker_trace(WorkerEvent::Detected, triggers),
        _ => seq![action],
    }
}

/// One detection after 50 milliseconds for each of `triggers`, in their order, each with a wait for the next trigger after it.
pub open spec fn detections(triggers: Seq<TriggerEvent>) -> Seq<WorkerAction> {
    Seq::new(
        2 * triggers.len(),
        |i: int|
            if i % 2 == 0 {
                WorkerAction::Detect { pause_ms: 50, event: triggers[i / 2] }
            } else {
                WorkerAction::Receive
            },
    )
}

/// A detection leads to the wait for the next trigger, and from there on to
/// those that follow.
proof fn lemma_detections(trigger: TriggerEvent, rest: Seq<TriggerEvent>)
    ensures
        worker_trace(WorkerEvent::Received(trigger), rest) == detections(seq![trigger] + rest)
            + seq![WorkerAction::Release],
    decreases rest.len(),
{
    reveal_with_fuel(worker_trace, 3);
    let all = seq![trigger] + rest;
    let first = seq![
        WorkerAction::Detect { pause_ms: 50, event: trigger },
        WorkerAction::Receive,
    ];
    assert(detections(all) =~= first + detections(rest));
    if rest.len() > 0 {
        lemma_detections(rest[0], rest.drop_first());
        assert(seq![rest[0]] + rest.drop_first() =~= rest);
    }
    assert(worker_trace(WorkerEvent::Received(trigger), rest) =~= detections(all)
        + seq![WorkerAction::Release]);
}

/// Once the thread is set up, every trigger is handled once, in the order in
/// which they come in and after 50 milliseconds, and the set-up is undone
/// once, at the end.
pub proof fn law_every_trigger_is_handled(triggers: Seq<TriggerEvent>)
    ensures
        worker_trace(WorkerEvent::Initialized(true), triggers) == seq![WorkerAction::Receive]
            + detections(triggers) + seq![WorkerAction::Release],
{
    reveal_with_fuel(worker_trace, 2);
    if triggers.len() > 0 {
        lemma_detections(triggers[0], triggers.drop_first());
        assert(seq![triggers[0]] + triggers.drop_first() =~= triggers);
    }
    assert(worker_trace(WorkerEvent::Initialized(true), triggers) =~= seq![WorkerAction::Receive]
        + detections(triggers) + seq![WorkerAction::Release]);
}

/// A thread that cannot be set up ends at once: it handles no trigger, and
/// there is no set-up to undo.
pub proof fn law_failed_worker_stops(triggers: Seq<TriggerEvent>)
    ensures
        worker_trace(WorkerEvent::Initialized(false), triggers) == seq![WorkerAction::Stop],
{
}

/// What is said here of whole runs holds of the calls of [`worker_loop`].
pub proof fn law_worker_keeps_to_its_laws(event: WorkerEvent, action: WorkerAction)
    requires
        call_ensures(worker_loop, (event,), action),
    ensures
        action == worker_action(event),
{
}

/// A drag whose place is not known is reported at the top left corner of the
/// way from where the button went down to where it went up, whatever the
/// mouse did in between; clicks are reported where the mouse is.
pub proof fn law_drag_is_reported_at_its_corner(
    s: MouseState,
    pt: Point,
    now: u64,
    moves: Seq<Point>,
    up: Point,
    up_time: u64,
    dc: DoubleClick,
    duration: u64,
    count: u32,
)
    requires
        !s.non_client_down,
        now > 0,
    ensures
        ({
            let held = after_moves(pressed(s, pt, now, on_contents()), moves);
            let mouse = released(held, up, up_time, dc);
            let corner = mouse_corner(TriggerEvent::Drag(duration), mouse);
            &&& corner.0 == min(pt.x as int, up.x as int)
            &&& corner.1 == min(pt.y as int, up.y as int)
            &&& mouse_corner(TriggerEvent::ClickSequence(count), mouse) == (up.x, up.y)
        }),
{
    law_mouse_is_followed(s, pt, now, moves, up, up_time, dc);
}

/// Some character of the text is not white space.
pub open spec fn says_something(text: Seq<char>) -> bool {
    exists|i: int| 0 <= i < text.len() && !is_white_space(#[trigger] text[i])
}

/// A selection is reported exactly where it has text that is not all white
/// space. The report gives that text as it is, the time, where the mouse is,
/// and the place that was found; for lack of one, the top left corner of a
/// drag, or the place of the last click.
pub proof fn law_report_tells_what_was_found(
    event: TriggerEvent,
    found: Option<FocusedSelection>,
    mouse: &MouseState,
    time: String,
    report: Option<SelectionInfo>,
)
    requires
        call_ensures(selection_report, (event, found, mouse, time), report),
    ensures
        report is Some <==> (found matches Some((Some(text), _)) && says_something(text@)),
        report matches Some(info) ==> {
            &&& found matches Some((Some(text), place)) && {
                &&& info.content@ == text@
                &&& match place {
                    Some((left, top)) => info.selection_left == left && info.selection_top == top,
                    None => match event {
                        TriggerEvent::Drag(_) => {
                            &&& info.selection_left == min(mouse.down.x as int, mouse.last.x as int)
                            &&& info.selection_top == min(mouse.down.y as int, mouse.last.y as int)
                        },
                        TriggerEvent::ClickSequence(_) => {
                            &&& info.selection_left == mouse.last.x
                            &&& info.selection_top == mouse.last.y
                        },
                    },
                }
            }
            &&& info.time@ == time@
            &&& info.last_mouse_x == mouse.last.x
            &&& info.last_mouse_y == mouse.last.y
        },
{
}

/// The log of a detection is four lines: a ruler of fifty dashes before and
/// after, the drag with its time or the clicks with their number, and the text
/// with the time of its report.
pub proof fn law_detection_is_logged(
    event: TriggerEvent,
    info: &SelectionInfo,
    lines: Vec<String>,
)
    requires
        call_ensures(detection_lines, (event, info), lines),
    ensures
        lines@.len() == 4,
        lines@[0]@ == Seq::new(50, |i: int| '-'),
        lines@[3]@ == lines@[0]@,
        lines@[2]@ == ">>> "@ + info.content@ + " - "@ + info.time@,
        forall|n: Seq<char>| #[trigger]
            is_numeral(n) ==> match event {
                TriggerEvent::Drag(ms) => number(n) == ms <==> lines@[1]@ == "检测到长按/拖拽 ("@
                    + n + "ms) 结束，捕获文本:"@,
                TriggerEvent::ClickSequence(count) => number(n) == count <==> lines@[1]@
                    == "检测到鼠标连击("@ + n + "次)选中，捕获文本:"@,
            },
{
    reveal_strlit("--------------------------------------------------");
    assert(lines@[0]@ =~= Seq::new(50, |i: int| '-'));
    let (front, digits, back) = match event {
        TriggerEvent::Drag(ms) => (
            "检测到长按/拖拽 ("@,
            crate::text::digits(ms as nat, 1),
            "ms) 结束，捕获文本:"@,
        ),
        TriggerEvent::ClickSequence(count) => (
            "检测到鼠标连击("@,
            crate::text::digits(count as nat, 1),
            "次)选中，捕获文本:"@,
        ),
    };
    let value: nat = match event {
        TriggerEvent::Drag(ms) => ms as nat,
        TriggerEvent::ClickSequence(count) => count as nat,
    };
    lemma_digits(value, 1);
    assert forall|n: Seq<char>| #[trigger] is_numeral(n) implies (number(n) == value <==> lines@[1]@
        == front + n + back) by {
        if number(n) == value {
            law_numerals_are_unique(n, digits);
        }
        if front + digits + back == front + n + back {
            let whole = front + n + back;
            assert(whole.len() == (front + digits + back).len());
            assert(n =~= whole.subrange(front.len() as int, whole.len() - back.len()));
            assert(digits =~= (front + digits + back).subrange(
                front.len() as int,
                whole.len() - back.len(),
            ));
        }
    }
}

/// A detection logs three of its lines, reports the selection, and logs the
/// last line; without text nothing is done at all.
pub proof fn law_detection_reports_between_its_lines(
    event: TriggerEvent,
    found: Option<FocusedSelection>,
    mouse: &MouseState,
    steps: Vec<DetectionStep>,
    info: SelectionInfo,
    lines: Vec<String>,
)
    requires
        call_ensures(perform_uia_detection, (event, found, mouse), steps),
        call_ensures(detection_lines, (event, &info), lines),
    ensures
        steps@.len() == 0 <==> !(found matches Some((Some(text), _)) && says_something(text@)),
        steps@.len() == 0 || steps@.len() == 5,
        steps@.len() == 5 && steps@[3] == DetectionStep::Report(info) ==> {
            &&& steps@[0] matches DetectionStep::Log(l) && l@ == lines@[0]@
            &&& steps@[1] matches DetectionStep::Log(l) && l@ == lines@[1]@
            &&& steps@[2] matches DetectionStep::Log(l) && l@ == lines@[2]@
            &&& steps@[4] matches DetectionStep::Log(l) && l@ == lines@[3]@
        },
        steps@.len() == 5 ==> steps@[3] is Report,
{
}

/// What a detection reports is the report of the selection, and the steps are
/// those of that report.
pub proof fn law_detection_reports_the_selection(
    event: TriggerEvent,
    found: Option<FocusedSelection>,
    mouse: &MouseState,
    steps: Vec<DetectionStep>,
    time: String,
    report: Option<SelectionInfo>,
    info: SelectionInfo,
    alone: Vec<DetectionStep>,
)
    requires
        call_ensures(perform_uia_detection, (event, found, mouse), steps),
        call_ensures(selection_report, (event, found, mouse, time), report),
        call_ensures(detection_steps, (event, info), alone),
    ensures
        steps@.len() > 0 <==> report is Some,
        report matches Some(expected) ==> (steps@[3] matches DetectionStep::Report(sent) && {
            &&& sent.content@ == expected.content@
            &&& exists|t: crate::global::LocalTime| #[trigger] t.valid() && sent.time@ == t.text()
            &&& sent.last_mouse_x == expected.last_mouse_x
            &&& sent.last_mouse_y == expected.last_mouse_y
            &&& sent.selection_left == expected.selection_left
            &&& sent.selection_top == expected.selection_top
        }),
        alone@.len() == 5,
        alone@[3] == DetectionStep::Report(info),
        steps@.len() == 5 && steps@[3] == DetectionStep::Report(info) ==> forall|i: int|
            0 <= i < 5 && i != 3 ==> (#[trigger] alone@[i] matches DetectionStep::Log(a)
                && steps@[i] matches DetectionStep::Log(b) && a@ == b@),
{
}

/// The time that the selection is given to settle.
pub proof fn law_settling_time()
    ensures
        crate::worker::SETTLE_MS == 50,
{
}

} // verus!
