//! Starting and ending the monitor.

use vstd::prelude::*;

use crate::global::SelectionInfo;

verus! {

pub const WM_QUIT: u32 = 0x0012;

/// Which listeners are registered.
#[derive(Clone, Copy, Debug, PartialEq, Eq, Structural)]
pub struct Listeners {
    pub report: bool,
    pub log: bool,
}

/// Why the monitor cannot be started.
#[derive(Clone, Copy, Debug, PartialEq, Eq, Structural)]
pub enum InitError {
    ReportTaken,
    LogTaken,
}

impl InitError {
    /// The error in words.
    pub open spec fn text(self) -> Seq<char> {
        match self {
            InitError::ReportTaken => "Global report listener already registered"@,
            InitError::LogTaken => "Global log listener already registered"@,
        }
    }

    /// The error in words.
    pub fn message(&self) -> (r: String)
        ensures
            r@ == self.text(),
    {
        match self {
            InitError::ReportTaken => "Global report listener already registered".to_owned(),
            InitError::LogTaken => "Global log listener already registered".to_owned(),
        }
    }
}

/// The listeners after an attempt to register both.
pub open spec fn initialized(l: Listeners) -> Listeners {
    Listeners { report: true, log: l.log || !l.report }
}

/// The result of an attempt to register both listeners.
pub open spec fn init_result(l: Listeners) -> Result<(), InitError> {
    if l.report {
        Err(InitError::ReportTaken)
    } else if l.log {
        Err(InitError::LogTaken)
    } else {
        Ok(())
    }
}

/// What is done to start the monitor, one thing after the other.
#[derive(Debug, PartialEq, Eq)]
pub enum StartStep {
    /// Remember an event of this name, so many seconds ago, unless there is
    /// one.
    SetLastEvent { name: String, seconds_ago: u64 },
    /// Remember the argument that the monitor was started with.
    StoreArgs(u32),
    /// Log this as progress.
    Info(String),
    /// Log this as an error.
    Error(String),
    /// Have the monitor thread ended with the environment.
    AddCleanupHook,
    /// Remember the current thread as the monitor thread.
    StoreThreadId,
    /// Report this selection.
    Report(SelectionInfo),
}

/// The line that a build of the monitor logs as it starts.
pub open spec fn build_text(debug_build: bool) -> Seq<char> {
    if debug_build {
        "[Debug] 当前正处于开发模式运行，开启详细日志..."@
    } else {
        "[Release] 生产模式运行"@
    }
}

/// There is nothing in the report.
pub open spec fn is_empty_report(info: SelectionInfo) -> bool {
    &&& info.content@.len() == 0
    &&& info.time@.len() == 0
    &&& info.last_mouse_x == 0
    &&& info.last_mouse_y == 0
    &&& info.selection_left == 0
    &&& info.selection_top == 0
}

/// `steps` start the monitor: they end with an empty report.
pub open spec fn is_startup(steps: Seq<StartStep>, args: u32, debug_build: bool) -> bool {
    &&& steps.len() == 7
    &&& steps[0] matches StartStep::SetLastEvent { name, seconds_ago } && name@ == "Ready"@
        && seconds_ago == 100
    &&& steps[1] == StartStep::StoreArgs(args)
    &&& steps[2] matches StartStep::Info(line) && line@ == build_text(debug_build)
    &&& steps[3] matches StartStep::Error(line) && line@ == "error occured."@
    &&& steps[4] == StartStep::AddCleanupHook
    &&& steps[5] == StartStep::StoreThreadId
    &&& steps[6] matches StartStep::Report(info) && is_empty_report(info)
}

/// What is done to start the monitor once its listeners are registered.
pub fn startup_steps(args: u32, debug_build: bool) -> (steps: Vec<StartStep>)
    ensures
        is_startup(steps@, args, debug_build),
{
    let line: String = if debug_build {
        "[Debug] 当前正处于开发模式运行，开启详细日志...".to_owned()
    } else {
        "[Release] 生产模式运行".to_owned()
    };
    let report: SelectionInfo = SelectionInfo {
        content: String::new(),
        time: String::new(),
        last_mouse_x: 0,
        last_mouse_y: 0,
        selection_left: 0,
        selection_top: 0,
    };
    let mut steps: Vec<StartStep> = Vec::new();
    steps.push(StartStep::SetLastEvent { name: "Ready".to_owned(), seconds_ago: 100 });
    steps.push(StartStep::StoreArgs(args));
    steps.push(StartStep::Info(line));
    steps.push(StartStep::Error("error occured.".to_owned()));
    steps.push(StartStep::AddCleanupHook);
    steps.push(StartStep::StoreThreadId);
    steps.push(StartStep::Report(report));
    steps
}

/// Registers a report listener and a log listener, and tells what is done to
/// start the monitor with them. Each place is taken once and for all; the
/// report listener's is taken first, and stays taken where the log listener's
/// cannot be had.
pub fn do_initialize(listeners: &mut Listeners, args: u32, debug_build: bool) -> (r: Result<
    Vec<StartStep>,
    InitError,
>)
    ensures
        match r {
            Ok(steps) => init_result(*old(listeners)) is Ok && is_startup(
                steps@,
                args,
                debug_build,
            ),
            Err(e) => init_result(*old(listeners)) == Err::<(), InitError>(e),
        },
        *final(listeners) == initialized(*old(listeners)),
{
    if listeners.report {
        return Err(InitError::ReportTaken);
    }
    listeners.report = true;
    if listeners.log {
        return Err(InitError::LogTaken);
    }
    listeners.log = true;
    Ok(startup_steps(args, debug_build))
}

/// The monitor is started at most once: after an attempt, whatever came of it,
/// no other succeeds, and none takes a place that was free.
pub proof fn law_started_at_most_once(l: Listeners)
    ensures
        init_result(initialized(l)) == Err::<(), InitError>(InitError::ReportTaken),
        initialized(initialized(l)) == initialized(l),
{
}

/// The message that ends the monitor thread, with the thread to send it to.
/// A monitor that was not started has no thread.
pub fn cleanup_monitor_thread(thread_id: u32) -> (r: Option<(u32, u32)>)
    ensures
        r == (if thread_id == 0 {
            None
        } else {
            Some((thread_id, WM_QUIT))
        }),
{
    if thread_id == 0 {
        None
    } else {
        Some((thread_id, WM_QUIT))
    }
}

} // verus!
