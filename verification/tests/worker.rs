use selection_monitor::geometry::Point;
use selection_monitor::global::{SelectionInfo, TriggerEvent};
use selection_monitor::hook::MouseState;
use selection_monitor::lifecycle::{
    cleanup_monitor_thread, do_initialize, startup_steps, InitError, Listeners, StartStep,
};
use selection_monitor::uia::FocusedSelection;
use selection_monitor::worker::{
    detection_lines, detection_steps, perform_uia_detection, selection_report, worker_loop,
    DetectionStep, WorkerAction, WorkerEvent,
};

fn mouse() -> MouseState {
    MouseState { down: Point { x: 30, y: 5 }, last: Point { x: 10, y: 50 }, ..MouseState::new() }
}

fn found(text: &str, corner: Option<(i32, i32)>) -> Option<FocusedSelection> {
    Some((Some(text.to_string()), corner))
}

fn report(event: TriggerEvent, found: Option<FocusedSelection>) -> Option<SelectionInfo> {
    selection_report(event, found, &mouse(), "T".to_string())
}

#[test]
fn the_worker_waits_and_detects() {
    let event = TriggerEvent::Drag(300);
    assert_eq!(worker_loop(WorkerEvent::Initialized(false)), WorkerAction::Stop);
    assert_eq!(worker_loop(WorkerEvent::Initialized(true)), WorkerAction::Receive);
    assert_eq!(
        worker_loop(WorkerEvent::Received(event)),
        WorkerAction::Detect { pause_ms: 50, event }
    );
    assert_eq!(worker_loop(WorkerEvent::Detected), WorkerAction::Receive);
    assert_eq!(worker_loop(WorkerEvent::Disconnected), WorkerAction::Release);
}

fn whole_run(ok: bool, triggers: &[TriggerEvent]) -> Vec<WorkerAction> {
    let mut coming = triggers.iter().copied();
    let mut event = WorkerEvent::Initialized(ok);
    let mut actions = vec![];
    loop {
        let action = worker_loop(event);
        actions.push(action);
        event = match action {
            WorkerAction::Receive => match coming.next() {
                Some(trigger) => WorkerEvent::Received(trigger),
                None => WorkerEvent::Disconnected,
            },
            WorkerAction::Detect { .. } => WorkerEvent::Detected,
            WorkerAction::Release | WorkerAction::Stop => return actions,
        };
    }
}

#[test]
fn every_trigger_is_handled_once_and_in_order() {
    let triggers =
        [TriggerEvent::Drag(300), TriggerEvent::ClickSequence(2), TriggerEvent::Drag(300)];
    let detect = |i: usize| WorkerAction::Detect { pause_ms: 50, event: triggers[i] };
    assert_eq!(
        whole_run(true, &triggers),
        [
            WorkerAction::Receive,
            detect(0),
            WorkerAction::Receive,
            detect(1),
            WorkerAction::Receive,
            detect(2),
            WorkerAction::Receive,
            WorkerAction::Release,
        ]
    );
    assert_eq!(whole_run(true, &[]), [WorkerAction::Receive, WorkerAction::Release]);
    assert_eq!(whole_run(false, &triggers), [WorkerAction::Stop]);
}

#[test]
fn selections_are_reported_where_they_are() {
    let expected = SelectionInfo {
        content: " text".to_string(),
        time: "T".to_string(),
        last_mouse_x: 10,
        last_mouse_y: 50,
        selection_left: 7,
        selection_top: 8,
    };
    for event in [TriggerEvent::Drag(300), TriggerEvent::ClickSequence(2)] {
        assert_eq!(report(event, found(" text", Some((7, 8)))), Some(expected.clone()));
    }
}

#[test]
fn unplaced_selections_are_reported_at_the_mouse() {
    let corner = |event| {
        let info = report(event, found("text", None)).unwrap();
        (info.selection_left, info.selection_top)
    };
    assert_eq!(corner(TriggerEvent::Drag(300)), (10, 5));
    assert_eq!(corner(TriggerEvent::ClickSequence(2)), (10, 50));
}

#[test]
fn nothing_is_reported_without_text() {
    let event = TriggerEvent::ClickSequence(3);
    assert_eq!(report(event, None), None);
    assert_eq!(report(event, Some((None, Some((1, 2))))), None);
    assert_eq!(report(event, found("", Some((1, 2)))), None);
    assert_eq!(report(event, found(" \u{a0}\n", None)), None);
}

#[test]
fn detections_have_four_log_lines() {
    let info = report(TriggerEvent::Drag(300), found("text", None)).unwrap();
    let separator = "-".repeat(50);
    assert_eq!(
        detection_lines(TriggerEvent::Drag(300), &info),
        [
            separator.clone(),
            "检测到长按/拖拽 (300ms) 结束，捕获文本:".to_string(),
            ">>> text - T".to_string(),
            separator,
        ]
    );
    assert_eq!(
        detection_lines(TriggerEvent::Drag(u64::MAX), &info)[1],
        "检测到长按/拖拽 (18446744073709551615ms) 结束，捕获文本:"
    );
    assert_eq!(
        detection_lines(TriggerEvent::ClickSequence(12), &info)[1],
        "检测到鼠标连击(12次)选中，捕获文本:"
    );
}

#[test]
fn reports_come_before_the_last_line() {
    let event = TriggerEvent::ClickSequence(2);
    let info = report(event, found("text", Some((7, 8)))).unwrap();
    let lines = detection_lines(event, &info);
    let log = |i: usize| DetectionStep::Log(lines[i].clone());
    assert_eq!(
        detection_steps(event, info.clone()),
        [log(0), log(1), log(2), DetectionStep::Report(info), log(3)]
    );
}

#[test]
fn detections_are_stamped() {
    let event = TriggerEvent::Drag(300);
    let steps = perform_uia_detection(event, found("text", None), &mouse());
    assert_eq!(steps.len(), 5);
    let info = match &steps[3] {
        DetectionStep::Report(info) => info.clone(),
        DetectionStep::Log(_) => panic!("no report"),
    };
    assert_eq!(info.content, "text");
    assert_eq!(info.time.len(), 23);
    assert_eq!((info.selection_left, info.selection_top), (10, 5));
    assert_eq!(steps[2], DetectionStep::Log(format!(">>> text - {}", info.time)));
    assert_eq!(steps, detection_steps(event, info));
    assert_eq!(perform_uia_detection(event, found(" ", None), &mouse()), []);
    assert_eq!(perform_uia_detection(event, None, &mouse()), []);
}

#[test]
fn listeners_are_registered_once() {
    let mut listeners = Listeners { report: false, log: false };
    assert_eq!(do_initialize(&mut listeners, 5, true), Ok(startup_steps(5, true)));
    assert_eq!(listeners, Listeners { report: true, log: true });
    assert_eq!(do_initialize(&mut listeners, 5, true), Err(InitError::ReportTaken));
    assert_eq!(listeners, Listeners { report: true, log: true });
}

#[test]
fn a_taken_log_listener_still_takes_the_report_listener() {
    let mut listeners = Listeners { report: false, log: true };
    assert_eq!(do_initialize(&mut listeners, 0, false), Err(InitError::LogTaken));
    assert_eq!(listeners, Listeners { report: true, log: true });
    let mut listeners = Listeners { report: true, log: false };
    assert_eq!(do_initialize(&mut listeners, 0, false), Err(InitError::ReportTaken));
    assert_eq!(listeners, Listeners { report: true, log: false });
}

#[test]
fn the_monitor_starts_step_by_step() {
    let empty = SelectionInfo {
        content: String::new(),
        time: String::new(),
        last_mouse_x: 0,
        last_mouse_y: 0,
        selection_left: 0,
        selection_top: 0,
    };
    let expected = |line: &str| {
        vec![
            StartStep::SetLastEvent { name: "Ready".to_string(), seconds_ago: 100 },
            StartStep::StoreArgs(9),
            StartStep::Info(line.to_string()),
            StartStep::Error("error occured.".to_string()),
            StartStep::AddCleanupHook,
            StartStep::StoreThreadId,
            StartStep::Report(empty.clone()),
        ]
    };
    assert_eq!(
        startup_steps(9, true),
        expected("[Debug] 当前正处于开发模式运行，开启详细日志...")
    );
    assert_eq!(startup_steps(9, false), expected("[Release] 生产模式运行"));
}

#[test]
fn errors_are_put_in_words() {
    assert_eq!(InitError::ReportTaken.message(), "Global report listener already registered");
    assert_eq!(InitError::LogTaken.message(), "Global log listener already registered");
}

#[test]
fn only_a_started_monitor_is_told_to_quit() {
    assert_eq!(cleanup_monitor_thread(0), None);
    assert_eq!(cleanup_monitor_thread(77), Some((77, 0x12)));
}
