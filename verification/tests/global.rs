use selection_monitor::global::{
    format_time, get_current_time, log_line, report_error, report_func, report_info, report_log,
    LocalTime, LogAction, ReportAction, SelectionInfo,
};

fn time(year: i32, month: u32, day: u32) -> LocalTime {
    LocalTime { year, month, day, hour: 7, minute: 8, second: 9, nanosecond: 10_999_999 }
}

fn info() -> SelectionInfo {
    SelectionInfo {
        content: "word".to_string(),
        time: "now".to_string(),
        last_mouse_x: 1,
        last_mouse_y: 2,
        selection_left: 3,
        selection_top: 4,
    }
}

#[test]
fn times_are_padded_and_cut_to_milliseconds() {
    assert_eq!(format_time(&time(2024, 5, 6)), "2024-05-06 07:08:09.010");
    let last = LocalTime {
        year: 1999,
        month: 12,
        day: 31,
        hour: 23,
        minute: 59,
        second: 59,
        nanosecond: 999_999_999,
    };
    assert_eq!(format_time(&last), "1999-12-31 23:59:59.999");
    assert_eq!(format_time(&time(2024, 2, 29)), "2024-02-29 07:08:09.010");
}

#[test]
fn years_beyond_four_digits_carry_a_sign() {
    assert_eq!(format_time(&time(5, 1, 1)), "0005-01-01 07:08:09.010");
    assert_eq!(format_time(&time(0, 1, 1)), "0000-01-01 07:08:09.010");
    assert_eq!(format_time(&time(-1, 1, 1)), "-0001-01-01 07:08:09.010");
    assert_eq!(format_time(&time(10_000, 1, 1)), "+10000-01-01 07:08:09.010");
    assert_eq!(format_time(&time(-262_143, 1, 1)), "-262143-01-01 07:08:09.010");
    assert_eq!(format_time(&time(262_142, 12, 31)), "+262142-12-31 07:08:09.010");
}

#[test]
fn the_current_time_has_the_shape_of_a_time() {
    let text = get_current_time();
    assert_eq!(text.len(), 23);
    for (i, c) in text.chars().enumerate() {
        match i {
            4 | 7 => assert_eq!(c, '-'),
            10 => assert_eq!(c, ' '),
            13 | 16 => assert_eq!(c, ':'),
            19 => assert_eq!(c, '.'),
            _ => assert!(c.is_ascii_digit()),
        }
    }
    assert!(text.as_str() > "2020");
}

#[test]
fn reports_go_to_the_listener() {
    assert_eq!(report_func(info(), true), ReportAction::Deliver(info()));
    assert_eq!(
        report_func(info(), false),
        ReportAction::Print("Warning: No report wnd listener registered yet!".to_string())
    );
}

#[test]
fn log_lines_go_to_the_console_or_the_listener() {
    let line = || "line".to_string();
    assert_eq!(report_log(line(), true, true), LogAction::Print(line()));
    assert_eq!(report_log(line(), true, false), LogAction::Print(line()));
    assert_eq!(report_log(line(), false, true), LogAction::Deliver(line()));
    assert_eq!(
        report_log(line(), false, false),
        LogAction::Print("Warning: No report log listener registered yet!".to_string())
    );
}

#[test]
fn log_lines_name_their_place() {
    assert_eq!(
        log_line("selection_info", "T", "hello", "a.rs", 12, 3405),
        "[selection_info]:T - a.rs:12:3405 - hello"
    );
}

#[test]
fn errors_and_progress_are_tagged_and_stamped() {
    let printed = |action: LogAction| match action {
        LogAction::Print(line) => line,
        LogAction::Deliver(_) => panic!("not printed"),
    };
    let error = printed(report_error("lost", "b.rs", 1, 2, true, false));
    assert!(error.starts_with("[selection_error]:"));
    assert!(error.ends_with(" - b.rs:1:2 - lost"));
    assert_eq!(error.len(), "[selection_error]:".len() + 23 + " - b.rs:1:2 - lost".len());
    let note = printed(report_info("found", "b.rs", 1, 2, true, true));
    assert!(note.starts_with("[selection_info]:"));
    assert!(note.ends_with(" - b.rs:1:2 - found"));
    assert!(matches!(report_error("lost", "b.rs", 1, 2, false, true), LogAction::Deliver(_)));
    assert_eq!(
        report_info("found", "b.rs", 1, 2, false, false),
        LogAction::Print("Warning: No report log listener registered yet!".to_string())
    );
}
