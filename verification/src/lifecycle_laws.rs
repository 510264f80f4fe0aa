//! What holds of starting and ending the monitor.

use vstd::prelude::*;

use crate::lifecycle::{
    cleanup_monitor_thread, do_initialize, startup_steps, InitError, Listeners, StartStep,
};

verus! {

/// The monitor is started where neither listener is registered, and both are
/// then. A taken report listener is complained of first, and nothing is
/// registered; a taken log listener is complained of once the report listener
/// is registered.
pub proof fn law_monitor_starts_with_both_listeners()
    ensures
        forall|
            listeners: &mut Listeners,
            args: u32,
            debug_build: bool,
            r: Result<Vec<StartStep>, InitError>,
        | #[trigger]
            call_ensures(do_initialize, (listeners, args, debug_build), r) ==> {
                &&& r is Ok <==> !listeners.report && !listeners.log
                &&& r == Err::<Vec<StartStep>, InitError>(InitError::ReportTaken)
                    <==> listeners.report
                &&& r == Err::<Vec<StartStep>, InitError>(InitError::LogTaken)
                    <==> !listeners.report && listeners.log
                &&& final(listeners).report
                &&& listeners.report ==> *final(listeners) == *listeners
                &&& !listeners.report ==> final(listeners).log
            },
{
}

/// The steps that start the monitor.
pub open spec fn starts(steps: Seq<StartStep>, args: u32, debug_build: bool) -> bool {
    &&& steps.len() == 7
    &&& steps[0] matches StartStep::SetLastEvent { name, seconds_ago } && name@ == seq![
        'R',
        'e',
        'a',
        'd',
        'y',
    ] && seconds_ago == 100
    &&& steps[1] == StartStep::StoreArgs(args)
    &&& steps[2] matches StartStep::Info(line) && (debug_build ==> line@
        == "[Debug] 当前正处于开发模式运行，开启详细日志..."@) && (!debug_build ==> line@
        == "[Release] 生产模式运行"@)
    &&& steps[3] matches StartStep::Error(line) && line@ == "error occured."@
    &&& steps[4] == StartStep::AddCleanupHook
    &&& steps[5] == StartStep::StoreThreadId
    &&& steps[6] matches StartStep::Report(info) && {
        &&& info.content@.len() == 0
        &&& info.time@.len() == 0
        &&& info.last_mouse_x == 0 && info.last_mouse_y == 0
        &&& info.selection_left == 0 && info.selection_top == 0
    }
}

/// The monitor is started by the same steps whether they are asked for alone
/// or come of the registration: the argument is kept, the build is logged, and
/// an empty report comes last.
pub proof fn law_monitor_is_started_in_steps(args: u32, debug_build: bool, steps: Vec<StartStep>)
    requires
        call_ensures(startup_steps, (args, debug_build), steps),
    ensures
        starts(steps@, args, debug_build),
        forall|listeners: &mut Listeners, begun: Vec<StartStep>| #[trigger]
            call_ensures(
                do_initialize,
                (listeners, args, debug_build),
                Ok::<Vec<StartStep>, InitError>(begun),
            ) ==> starts(begun@, args, debug_build),
{
    reveal_strlit("Ready");
    assert("Ready"@ =~= seq!['R', 'e', 'a', 'd', 'y']);
}

/// Each error says which listener is taken.
pub proof fn law_errors_name_the_listener(e: &InitError, r: String)
    requires
        call_ensures(InitError::message, (e,), r),
    ensures
        *e == InitError::ReportTaken ==> r@ == "Global report listener already registered"@,
        *e == InitError::LogTaken ==> r@ == "Global log listener already registered"@,
{
}

/// The message that ends a thread, 0x12, goes to the monitor thread, and to
/// none where there is no such thread.
pub proof fn law_monitor_thread_is_ended(thread_id: u32, r: Option<(u32, u32)>)
    requires
        call_ensures(cleanup_monitor_thread, (thread_id,), r),
    ensures
        r is None <==> thread_id == 0,
        r matches Some((thread, message)) ==> thread == thread_id && message == 0x12,
{
}

} // verus!
