//! What holds of reports, log lines and times.

use vstd::prelude::*;

use crate::global::{
    format_time, get_current_time, log_line, report_error, report_func, report_info, report_log,
    LocalTime, LogAction, ReportAction, SelectionInfo,
};
#[allow(unused_imports)]
use crate::text::digits;
#[allow(unused_imports)]
use crate::text_laws::{
    all_digits, is_numeral, law_numerals_are_unique, lemma_digits, number,
};

verus! {

/// A report goes to the listener as it is; without one there is a warning.
pub proof fn law_report_goes_to_the_listener(
    info: SelectionInfo,
    listening: bool,
    action: ReportAction,
)
    requires
        call_ensures(report_func, (info, listening), action),
    ensures
        listening ==> action == ReportAction::Deliver(info),
        !listening ==> (action matches ReportAction::Print(warning) && warning@
            == "Warning: No report wnd listener registered yet!"@),
{
}

/// A debug build prints a log line and a release build hands it to the
/// listener, both as it is; a release build without one warns in its place.
pub proof fn law_log_line_is_printed_or_handed_on(
    msg: String,
    debug_build: bool,
    listening: bool,
    action: LogAction,
)
    requires
        call_ensures(report_log, (msg, debug_build, listening), action),
    ensures
        debug_build ==> (action matches LogAction::Print(line) && line@ == msg@),
        !debug_build && listening ==> (action matches LogAction::Deliver(line) && line@ == msg@),
        !debug_build && !listening ==> (action matches LogAction::Print(line) && line@
            == "Warning: No report log listener registered yet!"@),
{
}

/// `r` is a log line whose line and column are `line` and `column`.
pub open spec fn is_log_line(
    r: Seq<char>,
    tag: Seq<char>,
    time: Seq<char>,
    msg: Seq<char>,
    file: Seq<char>,
    line: u32,
    column: u32,
) -> bool {
    forall|l: Seq<char>, c: Seq<char>| #[trigger]
        is_numeral(l) && #[trigger] is_numeral(c) && number(l) == line && number(c) == column ==> r
            == seq!['['] + tag + "]:"@ + time + " - "@ + file + seq![':'] + l + seq![':'] + c
            + " - "@ + msg
}

proof fn lemma_log_text(
    tag: Seq<char>,
    time: Seq<char>,
    msg: Seq<char>,
    file: Seq<char>,
    line: u32,
    column: u32,
)
    ensures
        is_log_line(
            crate::global::log_text(tag, time, msg, file, line, column),
            tag,
            time,
            msg,
            file,
            line,
            column,
        ),
{
    lemma_digits(line as nat, 1);
    lemma_digits(column as nat, 1);
    assert forall|l: Seq<char>, c: Seq<char>| #[trigger]
        is_numeral(l) && #[trigger] is_numeral(c) && number(l) == line && number(c)
            == column implies crate::global::log_text(tag, time, msg, file, line, column) == seq!['[']
        + tag + "]:"@ + time + " - "@ + file + seq![':'] + l + seq![':'] + c + " - "@ + msg by {
        law_numerals_are_unique(l, digits(line as nat, 1));
        law_numerals_are_unique(c, digits(column as nat, 1));
    }
}

/// A log line gives its tag, the time, the place in the source with its line
/// and column in decimal, and the message.
pub proof fn law_log_line_says_where_and_when(
    tag: &str,
    time: &str,
    msg: &str,
    file: &str,
    line: u32,
    column: u32,
    r: String,
)
    requires
        call_ensures(log_line, (tag, time, msg, file, line, column), r),
    ensures
        is_log_line(r@, tag@, time@, msg@, file@, line, column),
{
    lemma_log_text(tag@, time@, msg@, file@, line, column);
}

/// `action` logs the message under `tag`, stamped with a time of the calendar;
/// or warns where a release build has no listener.
pub open spec fn logs_under(
    action: LogAction,
    tag: Seq<char>,
    msg: Seq<char>,
    file: Seq<char>,
    line: u32,
    column: u32,
    debug_build: bool,
    listening: bool,
) -> bool {
    exists|t: LocalTime| #[trigger]
        t.valid() && match action {
            LogAction::Deliver(text) => !debug_build && listening && is_log_line(
                text@,
                tag,
                t.text(),
                msg,
                file,
                line,
                column,
            ),
            LogAction::Print(text) => if debug_build {
                is_log_line(text@, tag, t.text(), msg, file, line, column)
            } else {
                !listening && text@ == "Warning: No report log listener registered yet!"@
            },
        }
}

/// Errors are logged under `selection_error` and progress under
/// `selection_info`.
pub proof fn law_errors_and_progress_have_their_tags(
    msg: &str,
    file: &str,
    line: u32,
    column: u32,
    debug_build: bool,
    listening: bool,
    error: LogAction,
    info: LogAction,
)
    requires
        call_ensures(report_error, (msg, file, line, column, debug_build, listening), error),
        call_ensures(report_info, (msg, file, line, column, debug_build, listening), info),
    ensures
        logs_under(
            error,
            "selection_error"@,
            msg@,
            file@,
            line,
            column,
            debug_build,
            listening,
        ),
        logs_under(info, "selection_info"@, msg@, file@, line, column, debug_build, listening),
{
    let t = choose|t: LocalTime| #[trigger]
        t.valid() && crate::global::logged(
            error,
            crate::global::log_text("selection_error"@, t.text(), msg@, file@, line, column),
            debug_build,
            listening,
        );
    lemma_log_text("selection_error"@, t.text(), msg@, file@, line, column);
    assert(t.valid());
    let u = choose|u: LocalTime| #[trigger]
        u.valid() && crate::global::logged(
            info,
            crate::global::log_text("selection_info"@, u.text(), msg@, file@, line, column),
            debug_build,
            listening,
        );
    lemma_log_text("selection_info"@, u.text(), msg@, file@, line, column);
    assert(u.valid());
}

/// The number that stands in `s` from `from` to `to`.
pub open spec fn field(s: Seq<char>, from: int, to: int) -> int {
    number(s.subrange(from, to))
}

/// A time of a year with four digits reads `YYYY-MM-DD hh:mm:ss.mmm`: each
/// field stands in its place with all of its digits, the fraction is in whole
/// milliseconds, and the marks between them are these.
pub proof fn law_time_can_be_read_back(t: &LocalTime, r: String)
    requires
        t.valid(),
        0 <= t.year <= 9999,
        call_ensures(format_time, (t,), r),
    ensures
        r@.len() == 23,
        field(r@, 0, 4) == t.year && all_digits(r@.subrange(0, 4)),
        field(r@, 5, 7) == t.month && all_digits(r@.subrange(5, 7)),
        field(r@, 8, 10) == t.day && all_digits(r@.subrange(8, 10)),
        field(r@, 11, 13) == t.hour && all_digits(r@.subrange(11, 13)),
        field(r@, 14, 16) == t.minute && all_digits(r@.subrange(14, 16)),
        field(r@, 17, 19) == t.second && all_digits(r@.subrange(17, 19)),
        field(r@, 20, 23) == t.nanosecond as int / 1_000_000 && all_digits(r@.subrange(20, 23)),
        r@[4] == '-' && r@[7] == '-' && r@[10] == ' ' && r@[13] == ':' && r@[16] == ':' && r@[19]
            == '.',
{
    let ms = (t.nanosecond / 1_000_000) as nat;
    lemma_digits(t.year as nat, 4);
    lemma_digits(t.month as nat, 2);
    lemma_digits(t.day as nat, 2);
    lemma_digits(t.hour as nat, 2);
    lemma_digits(t.minute as nat, 2);
    lemma_digits(t.second as nat, 2);
    lemma_digits(ms, 3);
    reveal_with_fuel(digits, 5);
    assert(r@.subrange(0, 4) =~= digits(t.year as nat, 4));
    assert(r@.subrange(5, 7) =~= digits(t.month as nat, 2));
    assert(r@.subrange(8, 10) =~= digits(t.day as nat, 2));
    assert(r@.subrange(11, 13) =~= digits(t.hour as nat, 2));
    assert(r@.subrange(14, 16) =~= digits(t.minute as nat, 2));
    assert(r@.subrange(17, 19) =~= digits(t.second as nat, 2));
    assert(r@.subrange(20, 23) =~= digits(ms, 3));
}

/// The current time is a time of the calendar in that form.
pub proof fn law_current_time_is_formatted(r: String)
    requires
        call_ensures(get_current_time, (), r),
    ensures
        exists|t: LocalTime| #[trigger] t.valid() && r@ == t.text(),
{
}

/// Readings of the clock are the days of the calendar with the times of a day,
/// all of them and no others: the months have 31 or 30 days, and February 28,
/// or 29 in leap years. Every reading can be formatted.
pub proof fn law_readings_are_days_of_the_calendar(t: &LocalTime)
    ensures
        t.valid() <==> {
            let leap = t.year as int % 4 == 0 && (t.year as int % 100 == 0 ==> t.year as int % 400
                == 0);
            &&& -262143 <= t.year <= 262142
            &&& 1 <= t.month <= 12
            &&& 1 <= t.day <= 31
            &&& t.month == 4 || t.month == 6 || t.month == 9 || t.month == 11 ==> t.day <= 30
            &&& t.month == 2 ==> t.day <= 29 && (t.day == 29 ==> leap)
            &&& t.hour <= 23 && t.minute <= 59 && t.second <= 59 && t.nanosecond <= 999_999_999
        },
        t.valid() ==> call_requires(format_time, (t,)),
{
}

/// A year that is not of four digits carries its sign, with four digits at
/// least; what follows the year is the same in every year.
pub proof fn law_far_years_carry_a_sign(t: &LocalTime, near: &LocalTime, r: String, q: String)
    requires
        t.valid(),
        near.valid(),
        0 <= near.year <= 9999,
        *near == (LocalTime { year: near.year, ..*t }),
        call_ensures(format_time, (t,), r),
        call_ensures(format_time, (near,), q),
    ensures
        ({
            let n = r@.len() - 19;
            &&& n >= 4
            &&& r@.skip(n) == q@.skip(4)
            &&& t.year < 0 ==> r@[0] == '-' && n >= 5 && field(r@, 1, n) == -t.year && all_digits(
                r@.subrange(1, n),
            )
            &&& t.year > 9999 ==> r@[0] == '+' && n >= 5 && field(r@, 1, n) == t.year && all_digits(
                r@.subrange(1, n),
            )
            &&& (t.year < -9999 || t.year > 9999) ==> r@[1] != '0'
        }),
{
    let year = crate::global::year_text(t.year as int);
    let near_year = crate::global::year_text(near.year as int);
    law_time_can_be_read_back(near, q);
    lemma_digits(near.year as nat, 4);
    let size: nat = (if t.year < 0 {
        -t.year
    } else {
        t.year as int
    }) as nat;
    lemma_digits(size, 4);
    let rest = seq!['-'] + digits(t.month as nat, 2) + seq!['-'] + digits(t.day as nat, 2) + seq![
        ' ',
    ] + digits(t.hour as nat, 2) + seq![':'] + digits(t.minute as nat, 2) + seq![':'] + digits(
        t.second as nat,
        2,
    ) + seq!['.'] + digits((t.nanosecond / 1_000_000) as nat, 3);
    assert(r@ =~= year + rest);
    assert(q@ =~= near_year + rest);
    assert(near_year.len() == 4) by {
        reveal_with_fuel(digits, 5);
    }
    assert(rest.len() == 19);
    let n = r@.len() - 19;
    assert(n == year.len());
    assert(r@.skip(n) =~= rest);
    assert(q@.skip(4) =~= rest);
    if t.year < 0 || t.year > 9999 {
        assert(r@.subrange(1, n) =~= digits(size, 4));
        if t.year < -9999 || t.year > 9999 {
            lemma_no_zero_in_front(size);
            assert(r@[1] == digits(size, 4)[0]);
        }
    }
}

proof fn lemma_no_zero_in_front(n: nat)
    requires
        n > 9999,
    ensures
        digits(n, 4)[0] != '0',
{
    lemma_digits(n, 4);
    if digits(n, 4)[0] == '0' {
        let s = digits(n, 4);
        reveal_with_fuel(number, 5);
        assert(s.len() <= 4);
        assert(number(s) <= 9999) by {
            lemma_few_digits(s);
        }
    }
}

proof fn lemma_few_digits(s: Seq<char>)
    requires
        all_digits(s),
        s.len() <= 4,
    ensures
        number(s) <= 9999,
        s.len() <= 3 ==> number(s) <= 999,
        s.len() <= 2 ==> number(s) <= 99,
        s.len() <= 1 ==> number(s) <= 9,
        s.len() == 0 ==> number(s) == 0,
    decreases s.len(),
{
    if s.len() > 0 {
        let t = s.drop_last();
        assert(s.last() == s[s.len() - 1]);
        assert forall|i: int| 0 <= i < t.len() implies '0' <= #[trigger] t[i] <= '9' by {
            assert(t[i] == s[i]);
        }
        lemma_few_digits(t);
    }
}

} // verus!
