use selection_monitor::debounce::{debounce_loop, DebounceAction, DebounceEvent, PendingRun};
use selection_monitor::geometry::Point;
use selection_monitor::global::TriggerEvent;
use selection_monitor::hook::{
    hook_message, mouse_hook_proc, next_hook, DebounceMsg, DoubleClick, HookInput, HookMessage,
    HookOutcome, MouseState, PassOn, PressHits,
};

const CONTENTS: PressHits = PressHits {
    title_bar: false,
    top_drag_region: false,
    resize_border: false,
    scrollbar: false,
    splitter: false,
};
const SETTINGS: DoubleClick = DoubleClick { max_ms: 500, width: 4, height: 4 };
const QUIET: HookOutcome =
    HookOutcome { pass_on: PassOn::WithHandle, trigger: None, schedule: None };

fn press(s: &mut MouseState, x: i32, y: i32, now: u64) -> HookOutcome {
    mouse_hook_proc(s, HookInput::ButtonDown { pt: Point { x, y }, now, hits: CONTENTS })
}

fn travel(s: &mut MouseState, x: i32, y: i32) -> HookOutcome {
    mouse_hook_proc(s, HookInput::Move { pt: Point { x, y } })
}

fn release(s: &mut MouseState, x: i32, y: i32, now: u64) -> HookOutcome {
    mouse_hook_proc(s, HookInput::ButtonUp { pt: Point { x, y }, now, double_click: SETTINGS })
}

fn click(s: &mut MouseState, x: i32, y: i32, now: u64) -> HookOutcome {
    press(s, x, y, now);
    release(s, x, y, now + 50)
}

fn schedule(count: u32, last_time: u64) -> Option<DebounceMsg> {
    Some(DebounceMsg::Schedule { count, last_time, debounce_ms: 500 })
}

#[test]
fn messages_are_told_apart() {
    assert_eq!(hook_message(0, 0x201), HookMessage::ButtonDown);
    assert_eq!(hook_message(0, 0x200), HookMessage::Move);
    assert_eq!(hook_message(3, 0x202), HookMessage::ButtonUp);
    assert_eq!(hook_message(0, 0x204), HookMessage::Other);
    assert_eq!(hook_message(-1, 0x201), HookMessage::Other);
    assert_eq!(hook_message(0, 0x9_0000_0201), HookMessage::ButtonDown);
}

#[test]
fn handles_are_passed_on_where_known() {
    assert_eq!(next_hook(PassOn::WithHandle, 5), Some(5));
    assert_eq!(next_hook(PassOn::WithHandle, 0), None);
    assert_eq!(next_hook(PassOn::Bare, 5), None);
}

#[test]
fn a_long_drag_is_reported() {
    let mut s = MouseState::new();
    assert_eq!(press(&mut s, 10, 10, 1_000), QUIET);
    assert_eq!(travel(&mut s, 300, 40), QUIET);
    assert_eq!(s.last, Point { x: 300, y: 40 });
    let outcome = release(&mut s, 12, 14, 1_200);
    assert_eq!(outcome.trigger, Some(TriggerEvent::Drag(200)));
    assert_eq!(outcome.schedule, None);
    assert_eq!(s.last, Point { x: 12, y: 14 });
    assert_eq!(s.down, Point { x: 10, y: 10 });
    assert_eq!(s.down_time, 0);
}

#[test]
fn both_thresholds_must_be_reached() {
    let drag = |x, y, up| {
        let mut s = MouseState::new();
        press(&mut s, 0, 0, 1_000);
        release(&mut s, x, y, up).trigger
    };
    assert_eq!(drag(4, 0, 1_200), Some(TriggerEvent::Drag(200)));
    assert_eq!(drag(4, 0, 1_199), None);
    assert_eq!(drag(3, 2, 1_200), None);
    assert_eq!(drag(3, 3, 5_000), Some(TriggerEvent::Drag(4_000)));
    assert_eq!(drag(100, 0, 900), None);
}

#[test]
fn far_points_do_not_overflow() {
    let mut s = MouseState::new();
    press(&mut s, i32::MIN, i32::MIN, 1);
    assert_eq!(
        release(&mut s, i32::MAX, i32::MAX, 500).trigger,
        Some(TriggerEvent::Drag(499))
    );
    click(&mut s, i32::MIN, 0, 1_000);
    assert_eq!(click(&mut s, i32::MAX, 0, 1_100).schedule, None);
}

#[test]
fn frame_presses_come_to_nothing() {
    let flags = [
        PressHits { title_bar: true, ..CONTENTS },
        PressHits { top_drag_region: true, ..CONTENTS },
        PressHits { resize_border: true, ..CONTENTS },
        PressHits { scrollbar: true, ..CONTENTS },
        PressHits { splitter: true, ..CONTENTS },
    ];
    for hits in flags {
        let mut s = MouseState::new();
        click(&mut s, 5, 5, 800);
        let before = s;
        let bare = HookOutcome { pass_on: PassOn::Bare, ..QUIET };
        let pt = Point { x: 1, y: 1 };
        assert_eq!(
            mouse_hook_proc(&mut s, HookInput::ButtonDown { pt, now: 900, hits }),
            bare
        );
        travel(&mut s, 50, 60);
        travel(&mut s, 70, 90);
        assert_eq!(release(&mut s, 300, 300, 1_300), bare);
        assert_eq!(s, before);
        assert_eq!(click(&mut s, 5, 5, 1_250).schedule, schedule(2, 1_300));
    }
}

#[test]
fn an_unreleased_frame_press_hides_the_next_press() {
    let mut s = MouseState::new();
    let hits = PressHits { title_bar: true, ..CONTENTS };
    mouse_hook_proc(&mut s, HookInput::ButtonDown { pt: Point { x: 1, y: 1 }, now: 900, hits });
    press(&mut s, 0, 0, 1_000);
    assert_eq!(release(&mut s, 90, 0, 2_000).trigger, None);
    press(&mut s, 0, 0, 3_000);
    assert_eq!(release(&mut s, 90, 0, 4_000).trigger, Some(TriggerEvent::Drag(1_000)));
}

#[test]
fn moves_count_only_while_the_button_is_down() {
    let mut s = MouseState::new();
    travel(&mut s, 9, 9);
    assert_eq!(s, MouseState::new());
    assert_eq!(release(&mut s, 8, 8, 10), QUIET);
    assert_eq!(s.last, Point { x: 8, y: 8 });
    assert_eq!(mouse_hook_proc(&mut s, HookInput::Other), QUIET);
}

#[test]
fn a_press_at_time_zero_is_not_seen() {
    let mut s = MouseState::new();
    press(&mut s, 0, 0, 0);
    assert_eq!(release(&mut s, 90, 0, 1_000), QUIET);
}

#[test]
fn clicks_are_counted() {
    let mut s = MouseState::new();
    assert_eq!(click(&mut s, 5, 5, 1_000), QUIET);
    assert_eq!(s.click_count, 1);
    assert_eq!(click(&mut s, 6, 5, 1_200).schedule, schedule(2, 1_250));
    assert_eq!(click(&mut s, 7, 7, 1_400).schedule, schedule(3, 1_450));
    assert_eq!(s.click_count, 3);
    assert_eq!(s.click_time, 1_450);
}

#[test]
fn moves_within_a_click_do_not_matter() {
    let mut s = MouseState::new();
    for (now, count) in [(1_000, 1), (1_200, 2), (1_400, 3)] {
        press(&mut s, 5, 5, now);
        travel(&mut s, 400, 300);
        travel(&mut s, -70, 9);
        let outcome = release(&mut s, 6, 6, now + 50);
        assert_eq!(outcome.trigger, None);
        assert_eq!(outcome.schedule, if count < 2 { None } else { schedule(count, now + 50) });
    }
}

#[test]
fn late_or_distant_clicks_start_anew() {
    let second = |x, y, now| {
        let mut s = MouseState::new();
        click(&mut s, 100, 100, 1_000);
        let outcome = click(&mut s, x, y, now);
        (s.click_count, outcome.schedule)
    };
    assert_eq!(second(100, 100, 1_500), (2, schedule(2, 1_550)));
    assert_eq!(second(100, 100, 1_501), (1, None));
    assert_eq!(second(102, 98, 1_100), (2, schedule(2, 1_150)));
    assert_eq!(second(103, 100, 1_100), (1, None));
    assert_eq!(second(100, 97, 1_100), (1, None));
}

#[test]
fn a_small_click_area_is_one_pixel_each_way() {
    for extent in [-7, 0, 1, 2, 3] {
        let double_click = DoubleClick { max_ms: 500, width: extent, height: extent };
        let mut s = MouseState::new();
        click(&mut s, 100, 100, 1_000);
        press(&mut s, 101, 99, 1_100);
        let pt = Point { x: 101, y: 99 };
        let up = HookInput::ButtonUp { pt, now: 1_120, double_click };
        assert_eq!(mouse_hook_proc(&mut s, up).schedule, schedule(2, 1_120));
        press(&mut s, 103, 99, 1_200);
        let pt = Point { x: 103, y: 99 };
        let up = HookInput::ButtonUp { pt, now: 1_220, double_click };
        assert_eq!(mouse_hook_proc(&mut s, up).schedule, None);
    }
}

#[test]
fn a_drag_ends_the_run() {
    let mut s = MouseState::new();
    click(&mut s, 5, 5, 1_000);
    press(&mut s, 5, 5, 1_100);
    assert_eq!(release(&mut s, 50, 5, 1_150), QUIET);
    assert_eq!((s.click_count, s.click_time), (0, 0));
    assert_eq!(click(&mut s, 5, 5, 1_200), QUIET);
}

#[test]
fn a_long_press_leaves_the_run() {
    let mut s = MouseState::new();
    click(&mut s, 5, 5, 1_000);
    press(&mut s, 5, 5, 1_060);
    assert_eq!(release(&mut s, 6, 6, 1_300), QUIET);
    assert_eq!(click(&mut s, 5, 5, 1_400).schedule, schedule(2, 1_450));
}

#[test]
fn the_count_stops_at_its_limit() {
    let mut s = MouseState::new();
    click(&mut s, 5, 5, 1_000);
    s.click_count = u32::MAX;
    assert_eq!(click(&mut s, 5, 5, 1_100).schedule, schedule(u32::MAX, 1_150));
}

#[test]
fn a_run_is_reported_once_it_is_over() {
    let mut s = MouseState::new();
    let mut pending: Option<PendingRun> = None;
    assert_eq!(
        debounce_loop(&mut pending, &mut s, DebounceEvent::Turn { now: 0 }),
        DebounceAction::Wait
    );
    click(&mut s, 5, 5, 1_000);
    let msg = click(&mut s, 5, 5, 1_200).schedule.unwrap();
    let message = DebounceEvent::Message { msg, now: 7_000 };
    assert_eq!(debounce_loop(&mut pending, &mut s, message), DebounceAction::Again);
    assert_eq!(
        pending,
        Some(PendingRun { count: 2, last_time: 1_250, deadline: 500_007_000 })
    );
    assert_eq!(
        debounce_loop(&mut pending, &mut s, DebounceEvent::Turn { now: 500_006_999 }),
        DebounceAction::WaitFor(1)
    );
    assert_eq!(
        debounce_loop(&mut pending, &mut s, DebounceEvent::Timeout),
        DebounceAction::Again
    );
    assert_eq!(
        debounce_loop(&mut pending, &mut s, DebounceEvent::Turn { now: 500_007_000 }),
        DebounceAction::Fire(TriggerEvent::ClickSequence(2))
    );
    assert_eq!(pending, None);
    assert_eq!((s.click_count, s.click_time), (0, 0));
    assert_eq!(debounce_loop(&mut pending, &mut s, message), DebounceAction::Again);
    assert_eq!(
        debounce_loop(&mut pending, &mut s, DebounceEvent::Turn { now: u64::MAX }),
        DebounceAction::Again
    );
    assert_eq!(
        debounce_loop(&mut pending, &mut s, DebounceEvent::Disconnected),
        DebounceAction::Stop
    );
}

#[test]
fn a_later_click_supersedes_a_run() {
    let mut s = MouseState::new();
    let mut pending: Option<PendingRun> = None;
    click(&mut s, 5, 5, 1_000);
    let first = click(&mut s, 5, 5, 1_200).schedule.unwrap();
    debounce_loop(&mut pending, &mut s, DebounceEvent::Message { msg: first, now: 0 });
    let second = click(&mut s, 5, 5, 1_400).schedule.unwrap();
    let due = DebounceEvent::Turn { now: 500_000_000 };
    assert_eq!(debounce_loop(&mut pending, &mut s, due), DebounceAction::Again);
    assert_eq!((pending, s.click_count), (None, 3));
    debounce_loop(&mut pending, &mut s, DebounceEvent::Message { msg: first, now: 0 });
    debounce_loop(&mut pending, &mut s, DebounceEvent::Message { msg: second, now: 1 });
    assert_eq!(
        debounce_loop(&mut pending, &mut s, due),
        DebounceAction::WaitFor(1)
    );
    assert_eq!(
        debounce_loop(&mut pending, &mut s, DebounceEvent::Turn { now: 500_000_001 }),
        DebounceAction::Fire(TriggerEvent::ClickSequence(3))
    );
}

#[test]
fn a_later_drag_supersedes_a_run() {
    let mut s = MouseState::new();
    let mut pending: Option<PendingRun> = None;
    click(&mut s, 5, 5, 1_000);
    let msg = click(&mut s, 5, 5, 1_200).schedule.unwrap();
    debounce_loop(&mut pending, &mut s, DebounceEvent::Message { msg, now: 0 });
    press(&mut s, 5, 5, 1_300);
    release(&mut s, 90, 5, 1_350);
    assert_eq!(
        debounce_loop(&mut pending, &mut s, DebounceEvent::Turn { now: 900_000_000 }),
        DebounceAction::Again
    );
}

#[test]
fn the_longest_wait_does_not_overflow() {
    let mut s = MouseState::new();
    let mut pending: Option<PendingRun> = None;
    let msg = DebounceMsg::Schedule { count: 2, last_time: 1, debounce_ms: u64::MAX };
    debounce_loop(&mut pending, &mut s, DebounceEvent::Message { msg, now: u64::MAX });
    let deadline = u64::MAX as u128 * 1_000_001;
    assert_eq!(pending, Some(PendingRun { count: 2, last_time: 1, deadline }));
}

#[test]
fn a_burst_of_requests_is_reported_once() {
    let mut s = MouseState::new();
    let mut pending = None;
    click(&mut s, 5, 5, 1_000);
    for (i, now) in [1_200, 1_400, 1_600].into_iter().enumerate() {
        let msg = click(&mut s, 5, 5, now).schedule.unwrap();
        let at = i as u64 * 200_000_000;
        let before = s;
        let message = DebounceEvent::Message { msg, now: at };
        assert_eq!(debounce_loop(&mut pending, &mut s, message), DebounceAction::Again);
        assert_eq!(
            debounce_loop(&mut pending, &mut s, DebounceEvent::Turn { now: at + 1 }),
            DebounceAction::WaitFor(499_999_999)
        );
        assert_eq!(s, before);
    }
    assert_eq!(
        pending,
        Some(PendingRun { count: 4, last_time: 1_650, deadline: 900_000_000 })
    );
    assert_eq!(
        debounce_loop(&mut pending, &mut s, DebounceEvent::Turn { now: 899_999_999 }),
        DebounceAction::WaitFor(1)
    );
    assert_eq!(
        debounce_loop(&mut pending, &mut s, DebounceEvent::Turn { now: 900_000_000 }),
        DebounceAction::Fire(TriggerEvent::ClickSequence(4))
    );
    for now in [900_000_001, 2_000_000_000] {
        assert_eq!(
            debounce_loop(&mut pending, &mut s, DebounceEvent::Turn { now }),
            DebounceAction::Wait
        );
    }
}
