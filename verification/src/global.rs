//! What the other modules share: thresholds, events, reports and log lines.

use chrono::{Datelike, Local, NaiveDate, Timelike};
use vstd::prelude::*;

use crate::text::decimal;
#[allow(unused_imports)]
use crate::text::digits;

verus! {

/// How long the button must be down for a press to count as a selection.
pub const SELECTION_THRESHOLD_MS: u64 = 200;

/// How far the mouse must travel for a press to count as a drag.
pub const DRAG_THRESHOLD_PX: i32 = 4;

/// The clipboard format of UTF-16 text.
pub const CF_UNICODETEXT_U32: u32 = 13;

/// What made the monitor look for a selection.
#[derive(Clone, Copy, Debug, PartialEq, Eq, Structural)]
pub enum TriggerEvent {
    /// A drag, with the time in milliseconds that the button was down.
    Drag(u64),
    /// A run of clicks, with their number.
    ClickSequence(u32),
}

/// A selection, as it is reported to the listener.
#[derive(Clone, Debug, PartialEq, Eq)]
pub struct SelectionInfo {
    pub content: String,
    pub time: String,
    pub last_mouse_x: i32,
    pub last_mouse_y: i32,
    pub selection_left: i32,
    pub selection_top: i32,
}

/// What becomes of a report.
#[derive(Debug, PartialEq, Eq)]
pub enum ReportAction {
    /// Hand the report to the listener.
    Deliver(SelectionInfo),
    /// Print this warning.
    Print(String),
}

/// What becomes of a log line.
#[derive(Debug, PartialEq, Eq)]
pub enum LogAction {
    /// Hand the line to the listener.
    Deliver(String),
    /// Print this text.
    Print(String),
}

/// A reading of the local clock.
#[derive(Clone, Copy, Debug, PartialEq, Eq, Structural)]
pub struct LocalTime {
    pub year: i32,
    pub month: u32,
    pub day: u32,
    pub hour: u32,
    pub minute: u32,
    pub second: u32,
    pub nanosecond: u32,
}

/// `year` has a twenty-ninth of February.
pub open spec fn is_leap_year(year: int) -> bool {
    year % 4 == 0 && (year % 100 != 0 || year % 400 == 0)
}

/// The number of days of a month.
pub open spec fn days_in_month(year: int, month: int) -> int {
    if month == 2 {
        if is_leap_year(year) {
            29
        } else {
            28
        }
    } else if month == 4 || month == 6 || month == 9 || month == 11 {
        30
    } else {
        31
    }
}

impl LocalTime {
    /// The reading names a day of the calendar and a time of that day.
    pub open spec fn valid(self) -> bool {
        &&& -262143 <= self.year <= 262142
        &&& 1 <= self.month <= 12
        &&& 1 <= self.day <= days_in_month(self.year as int, self.month as int)
        &&& self.hour < 24
        &&& self.minute < 60
        &&& self.second < 60
        &&& self.nanosecond < 1_000_000_000
    }

    /// The reading as text: `2024-05-06 07:08:09.010`. A year outside
    /// `0..=9999` carries a sign.
    pub open spec fn text(self) -> Seq<char> {
        year_text(self.year as int) + seq!['-'] + digits(self.month as nat, 2) + seq!['-'] + digits(
            self.day as nat,
            2,
        ) + seq![' '] + digits(self.hour as nat, 2) + seq![':'] + digits(self.minute as nat, 2)
            + seq![':'] + digits(self.second as nat, 2) + seq!['.'] + digits(
            (self.nanosecond / 1_000_000) as nat,
            3,
        )
    }
}

/// A year in at least four digits, with a sign where it is not `0..=9999`.
pub open spec fn year_text(year: int) -> Seq<char> {
    if 0 <= year <= 9999 {
        digits(year as nat, 4)
    } else if year < 0 {
        seq!['-'] + digits((-year) as nat, 4)
    } else {
        seq!['+'] + digits(year as nat, 4)
    }
}

/// Reported times have the same length, as long as the year has four digits.
pub proof fn law_times_have_one_length(t: LocalTime)
    requires
        t.valid(),
        0 <= t.year <= 9999,
    ensures
        t.text().len() == 23,
{
    reveal_with_fuel(digits, 5);
}

/// The format in which times are reported.
pub open spec fn time_format() -> Seq<char> {
    "%Y-%m-%d %H:%M:%S.%3f"@
}

/// `chrono::Local::now` reads the system clock in the local time zone. Which
/// moment it reads is left open; the reading is always a time of the calendar.
/// It panics on a clock before 1970 or past the last year of the calendar, and
/// where the system cannot tell the local time zone.
#[verifier::external_body]
fn local_now() -> (t: LocalTime)
    ensures
        t.valid(),
{
    let now = Local::now().naive_local();
    LocalTime {
        year: now.year(),
        month: now.month(),
        day: now.day(),
        hour: now.hour(),
        minute: now.minute(),
        second: now.second(),
        nanosecond: now.nanosecond(),
    }
}

/// `chrono`'s `format` writes a date and time by a format string. In the one
/// format used here every field is zero-padded, a year outside `0..=9999`
/// gets a sign, and the second's fraction is cut to milliseconds.
#[verifier::external_body]
fn chrono_format(t: &LocalTime, format: &str) -> (text: String)
    requires
        t.valid(),
        format@ == time_format(),
    ensures
        text@ == t.text(),
{
    let day = NaiveDate::from_ymd_opt(t.year, t.month, t.day).unwrap();
    let time = day.and_hms_nano_opt(t.hour, t.minute, t.second, t.nanosecond).unwrap();
    time.format(format).to_string()
}

/// A clock reading as it is reported.
pub fn format_time(t: &LocalTime) -> (text: String)
    requires
        t.valid(),
    ensures
        text@ == t.text(),
{
    chrono_format(t, "%Y-%m-%d %H:%M:%S.%3f")
}

/// The current local time as it is reported.
pub fn get_current_time() -> (text: String)
    ensures
        exists|t: LocalTime| #[trigger] t.valid() && text@ == t.text(),
{
    let t: LocalTime = local_now();
    format_time(&t)
}

/// Hands a report to the listener, or warns that there is none.
pub fn report_func(info: SelectionInfo, listening: bool) -> (action: ReportAction)
    ensures
        match action {
            ReportAction::Deliver(sent) => listening && sent == info,
            ReportAction::Print(warning) => !listening && warning@
                == "Warning: No report wnd listener registered yet!"@,
        },
{
    if listening {
        ReportAction::Deliver(info)
    } else {
        ReportAction::Print("Warning: No report wnd listener registered yet!".to_owned())
    }
}

/// What becomes of the log line `line`: a debug build prints it, a release
/// build hands it to the listener or warns that there is none.
pub open spec fn logged(
    action: LogAction,
    line: Seq<char>,
    debug_build: bool,
    listening: bool,
) -> bool {
    match action {
        LogAction::Deliver(sent) => !debug_build && listening && sent@ == line,
        LogAction::Print(printed) => if debug_build {
            printed@ == line
        } else {
            !listening && printed@ == "Warning: No report log listener registered yet!"@
        },
    }
}

/// Decides where a log line goes.
pub fn report_log(msg: String, debug_build: bool, listening: bool) -> (action: LogAction)
    ensures
        logged(action, msg@, debug_build, listening),
{
    if debug_build {
        LogAction::Print(msg)
    } else if listening {
        LogAction::Deliver(msg)
    } else {
        LogAction::Print("Warning: No report log listener registered yet!".to_owned())
    }
}

/// A log line: a tag, the time, the place in the source, the message.
pub open spec fn log_text(
    tag: Seq<char>,
    time: Seq<char>,
    msg: Seq<char>,
    file: Seq<char>,
    line: u32,
    column: u32,
) -> Seq<char> {
    seq!['['] + tag + "]:"@ + time + " - "@ + file + seq![':'] + digits(line as nat, 1) + seq![':']
        + digits(column as nat, 1) + " - "@ + msg
}

/// Writes a log line.
pub fn log_line(tag: &str, time: &str, msg: &str, file: &str, line: u32, column: u32) -> (r: String)
    ensures
        r@ == log_text(tag@, time@, msg@, file@, line, column),
{
    proof {
        reveal_strlit("[");
        reveal_strlit(":");
        assert("["@ =~= seq!['[']);
        assert(":"@ =~= seq![':']);
    }
    let mut r: String = String::new();
    r.append("[");
    assert(r@ =~= seq!['[']);
    r.append(tag);
    r.append("]:");
    r.append(time);
    r.append(" - ");
    r.append(file);
    r.append(":");
    r.append(decimal(line as u64).as_str());
    r.append(":");
    r.append(decimal(column as u64).as_str());
    r.append(" - ");
    r.append(msg);
    r
}

/// Reports an error, stamped with the current time.
pub fn report_error(
    msg: &str,
    file: &str,
    line: u32,
    column: u32,
    debug_build: bool,
    listening: bool,
) -> (action: LogAction)
    ensures
        exists|t: LocalTime| #[trigger]
            t.valid() && logged(
                action,
                log_text("selection_error"@, t.text(), msg@, file@, line, column),
                debug_build,
                listening,
            ),
{
    let time: String = get_current_time();
    report_log(
        log_line("selection_error", time.as_str(), msg, file, line, column),
        debug_build,
        listening,
    )
}

/// Reports progress, stamped with the current time.
pub fn report_info(
    msg: &str,
    file: &str,
    line: u32,
    column: u32,
    debug_build: bool,
    listening: bool,
) -> (action: LogAction)
    ensures
        exists|t: LocalTime| #[trigger]
            t.valid() && logged(
                action,
                log_text("selection_info"@, t.text(), msg@, file@, line, column),
                debug_build,
                listening,
            ),
{
    let time: String = get_current_time();
    report_log(
        log_line("selection_info", time.as_str(), msg, file, line, column),
        debug_build,
        listening,
    )
}

} // verus!
