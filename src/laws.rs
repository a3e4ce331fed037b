//! Facts that hold of every work item, proved from the step specifications.
use crate::calendar::{days_in_month, in_i64, roll_days, DateTime, Duration};
use crate::entry::{DoIfRunning, Status, Timer, Trigger};
use crate::error::{ErrorKind, RtodoError};
use crate::work::{
    check_step, decision, launches, prepare_start, restart_step, start_step, stop_step, tick_step, Decision, Process,
    WorkView,
};
use vstd::prelude::*;

verus! {

/// The work item after starting it once for each launch outcome in `ls`, and
/// whether every one of those starts succeeded.
pub open spec fn repeated_starts(w: WorkView, ls: Seq<Result<Process, RtodoError>>) -> (WorkView, bool)
    decreases ls.len(),
{
    if ls.len() == 0 {
        (w, true)
    } else {
        let (w1, r1) = start_step(w, ls[0]);
        let (w2, ok) = repeated_starts(w1, ls.drop_first());
        (w2, r1 is Ok && ok)
    }
}

/// A work item with a `Once` timer fires at most once: a successful start leaves
/// it `Paused` with one firing counted, and a later start fails as already
/// executed and changes nothing.
pub proof fn once_fires_at_most_once(
    w: WorkView,
    first: Result<Process, RtodoError>,
    second: Result<Process, RtodoError>,
)
    requires
        w.entry.action is Exec,
        w.entry.trigger matches Trigger::Timer(Timer::Once(_)),
        start_step(w, first).1 is Ok,
    ensures
        start_step(w, first).0.trigger_state.exec_times == 1,
        start_step(w, first).0.status == Status::Paused,
        start_step(start_step(w, first).0, second).1 == Err::<(), ErrorKind>(ErrorKind::AlreadyExecuted),
        start_step(start_step(w, first).0, second).0 == start_step(w, first).0,
{
}

/// Each successful start of a `ManyTimes` work item counts exactly one firing,
/// and the entry is never changed.
pub proof fn many_times_counts_starts(w: WorkView, ls: Seq<Result<Process, RtodoError>>)
    requires
        w.entry.action is Exec,
        w.entry.trigger matches Trigger::Timer(Timer::ManyTimes(_, _)),
        repeated_starts(w, ls).1,
    ensures
        repeated_starts(w, ls).0.trigger_state.exec_times == w.trigger_state.exec_times + ls.len(),
        repeated_starts(w, ls).0.entry == w.entry,
    decreases ls.len(),
{
    if ls.len() > 0 {
        let w1 = start_step(w, ls[0]).0;
        many_times_counts_starts(w1, ls.drop_first());
    }
}

/// A `ManyTimes(d, n)` work item that never fired takes exactly `n` successful
/// starts to count `n` firings; a further start fails as exceeding the count and
/// leaves the work item, its next due point included, unchanged.
pub proof fn many_times_stops_after_count(
    w: WorkView,
    d: Duration,
    n: u32,
    ls: Seq<Result<Process, RtodoError>>,
    next: Result<Process, RtodoError>,
)
    requires
        w.entry.action is Exec,
        w.entry.trigger == Trigger::Timer(Timer::ManyTimes(d, n)),
        w.trigger_state.exec_times == 0,
        ls.len() == n,
        repeated_starts(w, ls).1,
    ensures
        repeated_starts(w, ls).0.trigger_state.exec_times == n,
        start_step(repeated_starts(w, ls).0, next).1 == Err::<(), ErrorKind>(ErrorKind::OccurrencesExceeded),
        start_step(repeated_starts(w, ls).0, next).0 == repeated_starts(w, ls).0,
{
    many_times_counts_starts(w, ls);
}

/// A successful start of a `Repeat(d)` work item moves its next due point to the
/// normalized sum of the previous one and `d`; its checks never reject it for
/// having fired too often, only for a next point that cannot be computed.
pub proof fn repeat_advances_by_duration(w: WorkView, d: Duration, launched: Result<Process, RtodoError>)
    requires
        w.entry.action is Exec,
        w.entry.trigger == Trigger::Timer(Timer::Repeat(d)),
    ensures
        prepare_start(w) is Err ==> prepare_start(w) == Err::<WorkView, ErrorKind>(ErrorKind::InvalidTime),
        start_step(w, launched).1 is Ok ==> {
            &&& w.trigger_state.exec_time is Some
            &&& w.trigger_state.exec_time->Some_0.add_ok(d)
            &&& start_step(w, launched).0.trigger_state.exec_time == Some(w.trigger_state.exec_time->Some_0.spec_add(d))
            &&& w.trigger_state.exec_times < u32::MAX ==> start_step(w, launched).0.trigger_state.exec_times
                == w.trigger_state.exec_times + 1
        },
{
}

/// A restart is a stop followed, when the stop succeeded, by a start. For a
/// running work item that tracks one process and launches a command: when both
/// succeed, exactly the newly launched process is tracked; when the start fails
/// after a successful stop, the executor leaves the item in `Error` tracking no
/// process.
pub proof fn restart_replaces_processes(
    w: WorkView,
    now: int,
    killed: Result<(), RtodoError>,
    launched: Result<Process, RtodoError>,
)
    requires
        w.status == Status::Running,
        w.processes.len() == 1,
        launches(w),
    ensures
        restart_step(w, killed, launched) == (if stop_step(w, killed).1 is Err {
            stop_step(w, killed)
        } else {
            start_step(stop_step(w, killed).0, launched)
        }),
        stop_step(w, killed).1 is Ok && restart_step(w, killed, launched).1 is Ok ==> restart_step(
            w,
            killed,
            launched,
        ).0.processes == seq![launched->Ok_0],
        decision(w, now) == Decision::Restart && stop_step(w, killed).1 is Ok && restart_step(w, killed, launched).1 is Err
            ==> tick_step(w, now, killed, launched).0.status == Status::Error
            && tick_step(w, now, killed, launched).0.processes.len() == 0,
{
    assert(stop_step(w, killed).1 is Ok ==> stop_step(w, killed).0.processes.len() == 0);
    if stop_step(w, killed).1 is Ok && restart_step(w, killed, launched).1 is Ok {
        assert(stop_step(w, killed).0.processes.push(launched->Ok_0) =~= seq![launched->Ok_0]);
    }
}

/// The checker moves a running work item with a dead tracked process to
/// `Pending`, and never changes its trigger state, its entry or its tracked
/// processes.
pub proof fn checker_downgrades_dead_running(w: WorkView, alive: Seq<bool>, dead: int)
    requires
        0 <= dead < alive.len(),
        !alive[dead],
        w.status == Status::Running,
    ensures
        check_step(w, alive).status == Status::Pending,
        check_step(w, alive).trigger_state == w.trigger_state,
        check_step(w, alive).entry == w.entry,
        check_step(w, alive).processes == w.processes,
{
}

/// The count of firings stays within what the timer allows: at most one for
/// `Once`, at most `n` for `ManyTimes(_, n)`.
pub open spec fn within_count(w: WorkView) -> bool {
    match w.entry.trigger {
        Trigger::Timer(Timer::Once(_)) => w.trigger_state.exec_times <= 1,
        Trigger::Timer(Timer::ManyTimes(_, n)) => w.trigger_state.exec_times <= n,
        _ => true,
    }
}

/// Executor ticks and checker passes keep the count of firings within what the
/// timer allows, whatever terminating and launching processes gave.
pub proof fn counts_stay_within_bounds(
    w: WorkView,
    now: int,
    killed: Result<(), RtodoError>,
    launched: Result<Process, RtodoError>,
    alive: Seq<bool>,
)
    requires
        within_count(w),
    ensures
        within_count(tick_step(w, now, killed, launched).0),
        within_count(check_step(w, alive)),
{
}

/// The executor never touches a work item that is `Paused` or in `Error`.
pub proof fn paused_and_failed_work_is_left_alone(
    w: WorkView,
    now: int,
    killed: Result<(), RtodoError>,
    launched: Result<Process, RtodoError>,
)
    requires
        w.status == Status::Paused || w.status == Status::Error,
    ensures
        tick_step(w, now, killed, launched) == (w, Ok::<(), ErrorKind>(())),
{
}

/// A due `Once` work item that is `Pending` and never fired is started by one
/// executor tick: it counts one firing, becomes `Paused` and tracks the launched
/// process; any later tick leaves it as it is, however due its point stays.
pub proof fn once_fires_on_first_tick_only(
    w: WorkView,
    now: int,
    later: int,
    killed: Result<(), RtodoError>,
    launched: Result<Process, RtodoError>,
    killed2: Result<(), RtodoError>,
    launched2: Result<Process, RtodoError>,
)
    requires
        w.entry.action is Exec,
        w.entry.trigger matches Trigger::Timer(Timer::Once(_)),
        w.status == Status::Pending,
        w.trigger_state.exec_times == 0,
        w.trigger_state.exec_time matches Some(t) && t.timestamp <= now,
        launched is Ok,
    ensures
        tick_step(w, now, killed, launched).1 is Ok,
        tick_step(w, now, killed, launched).0.trigger_state.exec_times == 1,
        tick_step(w, now, killed, launched).0.status == Status::Paused,
        tick_step(w, now, killed, launched).0.processes == w.processes.push(launched->Ok_0),
        tick_step(tick_step(w, now, killed, launched).0, later, killed2, launched2) == (
            tick_step(w, now, killed, launched).0,
            Ok::<(), ErrorKind>(()),
        ),
{
}

/// A due `Repeat(d)` work item whose next point can be advanced is started by an
/// executor tick when `Pending`, and again when `Running` under `StartNew`: each
/// such tick keeps the processes already tracked, adds the launched one, leaves it
/// `Running` and moves its next point on by `d`.
pub proof fn repeat_start_new_adds_a_process(
    w: WorkView,
    d: Duration,
    now: int,
    killed: Result<(), RtodoError>,
    launched: Result<Process, RtodoError>,
)
    requires
        w.entry.action is Exec,
        w.entry.trigger == Trigger::Timer(Timer::Repeat(d)),
        w.status == Status::Pending || (w.status == Status::Running && w.entry.do_if_running == DoIfRunning::StartNew),
        w.trigger_state.exec_time matches Some(t) && t.timestamp <= now && t.add_ok(d),
        launched is Ok,
    ensures
        tick_step(w, now, killed, launched).1 is Ok,
        tick_step(w, now, killed, launched).0.status == Status::Running,
        tick_step(w, now, killed, launched).0.processes == w.processes.push(launched->Ok_0),
        tick_step(w, now, killed, launched).0.trigger_state.exec_time == Some(
            w.trigger_state.exec_time->Some_0.spec_add(d),
        ),
{
}

/// Adding a few seconds that stay within the minute moves a point's timestamp on
/// by exactly those seconds.
pub proof fn seconds_within_the_minute(t: DateTime, d: Duration)
    requires
        t.valid_fields(),
        d.year == 0 && d.month == 0 && d.day == 0 && d.hour == 0 && d.min == 0,
        t.sec + d.sec < 60,
        in_i64(t.timestamp + d.sec),
    ensures
        t.add_ok(d),
        t.spec_add(d).timestamp == t.timestamp + d.sec,
        t.spec_add(d).sec == t.sec + d.sec,
{
    let f = t.sum_fields(d);
    assert(t.month as int - 1 >= 0);
    assert((t.month as int - 1) / 12 == 0 && (t.month as int - 1) % 12 == t.month as int - 1);
    assert(t.day >= 1 && t.day <= days_in_month(t.year as int, t.month as int));
    assert(roll_days(t.year as int, t.month as int, t.day as int) == (t.year as int, t.month as int, t.day as int));
    assert(f.0 == t.year && f.1 == t.month && f.2 == t.day && f.3 == t.hour && f.4 == t.min && f.5 == t.sec + d.sec);
}

} // verus!
