//! Live work items: trigger progress, tracked processes, and the start, stop and
//! restart operations, stated as steps over a work item's view.
use crate::calendar::{clock_reading, DateTime, Duration};
use crate::entry::{Action, DoIfRunning, Entry, Execute, Status, Timer, Trigger};
use crate::error::{kind_of, ErrorKind, RtodoError};
use vstd::prelude::*;

verus! {

/// A spawned operating-system process.
#[derive(Clone, Debug)]
pub struct Process {
    pub pid: i32,
    pub output_tmp_file: Option<String>,
}

/// Progress of a work item's trigger: when it is next due, and how often it fired.
#[derive(Clone, Copy, Debug, PartialEq, Eq, Structural)]
pub struct TriggerState {
    pub exec_time: Option<DateTime>,
    pub exec_times: u32,
}

/// The live instance of an entry.
#[derive(Clone, Debug)]
pub struct Work {
    pub status: Status,
    pub entry: Entry,
    pub trigger_state: TriggerState,
    pub running_processes: Vec<Process>,
}

/// A work item as a mathematical value.
pub struct WorkView {
    pub status: Status,
    pub entry: Entry,
    pub trigger_state: TriggerState,
    pub processes: Seq<Process>,
}

impl View for Work {
    type V = WorkView;

    open spec fn view(&self) -> WorkView {
        WorkView {
            status: self.status,
            entry: self.entry,
            trigger_state: self.trigger_state,
            processes: self.running_processes@,
        }
    }
}

pub open spec fn with_status(w: WorkView, s: Status) -> WorkView {
    WorkView { status: s, ..w }
}

pub open spec fn saturating_inc(n: u32) -> u32 {
    if n == u32::MAX {
        n
    } else {
        (n + 1) as u32
    }
}

/// Moves the next due point on by `d` and counts a firing.
pub open spec fn advance_state(ts: TriggerState, d: Duration) -> Result<TriggerState, ErrorKind> {
    match ts.exec_time {
        Option::None => Err(ErrorKind::InvalidTime),
        Option::Some(t) => if t.add_ok(d) {
            Ok(TriggerState { exec_time: Option::Some(t.spec_add(d)), exec_times: saturating_inc(ts.exec_times) })
        } else {
            Err(ErrorKind::InvalidTime)
        },
    }
}

pub open spec fn advance(w: WorkView, d: Duration) -> Result<WorkView, ErrorKind> {
    match advance_state(w.trigger_state, d) {
        Ok(ts) => Ok(WorkView { trigger_state: ts, ..w }),
        Err(k) => Err(k),
    }
}

/// The checks of a start and the trigger progress it makes, before any launch.
pub open spec fn prepare_start(w: WorkView) -> Result<WorkView, ErrorKind> {
    match w.entry.action {
        Action::Nothing => Ok(with_status(w, Status::Running)),
        Action::Exec(_) => match w.entry.trigger {
            Trigger::Nothing => Ok(with_status(w, Status::Running)),
            Trigger::Timer(Timer::Never) => Err(ErrorKind::NeverTimer),
            Trigger::Timer(Timer::Once(_)) => if w.trigger_state.exec_times >= 1 {
                Err(ErrorKind::AlreadyExecuted)
            } else {
                Ok(
                    WorkView {
                        status: Status::Paused,
                        trigger_state: TriggerState {
                            exec_times: (w.trigger_state.exec_times + 1) as u32,
                            ..w.trigger_state
                        },
                        ..w
                    },
                )
            },
            Trigger::Timer(Timer::Repeat(d)) => advance(w, d),
            Trigger::Timer(Timer::ManyTimes(d, n)) => if w.trigger_state.exec_times >= n {
                Err(ErrorKind::OccurrencesExceeded)
            } else {
                advance(w, d)
            },
        },
    }
}

/// A start of `w` launches its command (once its checks pass).
pub open spec fn launches(w: WorkView) -> bool {
    &&& w.entry.action is Exec
    &&& w.entry.trigger matches Trigger::Timer(t) && !(t is Never)
}

/// A start of `w`, given what launching its command gave: the new work item and the outcome.
pub open spec fn start_step(w: WorkView, launched: Result<Process, RtodoError>) -> (WorkView, Result<(), ErrorKind>) {
    match prepare_start(w) {
        Err(k) => (w, Err(k)),
        Ok(mid) => if launches(w) {
            match launched {
                Ok(p) => (
                    WorkView {
                        processes: mid.processes.push(p),
                        status: if w.entry.trigger matches Trigger::Timer(Timer::Once(_)) {
                            Status::Paused
                        } else {
                            Status::Running
                        },
                        ..mid
                    },
                    Ok(()),
                ),
                Err(e) => (mid, Err(e.kind)),
            }
        } else {
            (mid, Ok(()))
        },
    }
}

/// A stop of `w`, given the outcome of terminating its processes.
pub open spec fn stop_step(w: WorkView, killed: Result<(), RtodoError>) -> (WorkView, Result<(), ErrorKind>) {
    match w.entry.action {
        Action::Nothing => (w, Ok(())),
        Action::Exec(_) => match killed {
            Ok(_) => (WorkView { status: Status::Paused, processes: Seq::empty(), ..w }, Ok(())),
            Err(e) => (w, Err(e.kind)),
        },
    }
}

/// A stop followed, when it succeeded, by a start.
pub open spec fn restart_step(
    w: WorkView,
    killed: Result<(), RtodoError>,
    launched: Result<Process, RtodoError>,
) -> (WorkView, Result<(), ErrorKind>) {
    let (w1, r1) = stop_step(w, killed);
    if r1 is Err {
        (w1, r1)
    } else {
        start_step(w1, launched)
    }
}

/// `spawn` can give `launched` for the command of `w`, where a start of `w` launches one.
pub open spec fn launch_from<S: Fn(&Execute) -> Result<Process, RtodoError>>(
    spawn: S,
    w: WorkView,
    launched: Result<Process, RtodoError>,
) -> bool {
    (launches(w) && prepare_start(w) is Ok) ==> spawn.ensures((&w.entry.action->Exec_0,), launched)
}

/// `killed` is what terminating the processes of `w` in order can give with `kill`:
/// success after each one succeeded, or a failure of one of them.
pub open spec fn kills_from<K: Fn(i32) -> Result<(), RtodoError>>(
    kill: K,
    w: WorkView,
    killed: Result<(), RtodoError>,
) -> bool {
    w.entry.action is Exec ==> {
        &&& killed is Ok ==> forall|i: int| 0 <= i < w.processes.len() ==> kill.ensures((w.processes[i].pid,), Ok(()))
        &&& killed is Err ==> exists|i: int| 0 <= i < w.processes.len() && kill.ensures((w.processes[i].pid,), killed)
    }
}

/// The trigger of `w` is a timer whose next point is reached by `now`.
pub open spec fn is_due(w: WorkView, now: int) -> bool {
    &&& w.entry.trigger is Timer
    &&& w.trigger_state.exec_time matches Option::Some(t) && t.timestamp <= now
}

/// A failed operation leaves its work item in `Error`.
pub open spec fn recording_failure(step: (WorkView, Result<(), ErrorKind>)) -> (WorkView, Result<(), ErrorKind>) {
    if step.1 is Err {
        (with_status(step.0, Status::Error), step.1)
    } else {
        step
    }
}

/// What an executor tick does with a work item.
#[derive(Clone, Copy, Debug, PartialEq, Eq, Structural)]
pub enum Decision {
    Wait,
    Start,
    Stop,
    Restart,
}

/// The executor's policy: a due work item that is `Pending` is started; one that is
/// `Running` follows its entry's `DoIfRunning`; nothing else is touched.
pub open spec fn decision(w: WorkView, now: int) -> Decision {
    if is_due(w, now) {
        match w.status {
            Status::Running => match w.entry.do_if_running {
                DoIfRunning::Continue => Decision::Wait,
                DoIfRunning::StartNew => Decision::Start,
                DoIfRunning::Stop => Decision::Stop,
                DoIfRunning::Restart => Decision::Restart,
            },
            Status::Pending => Decision::Start,
            _ => Decision::Wait,
        }
    } else {
        Decision::Wait
    }
}

/// One executor tick on `w` at instant `now`, given what terminating and launching gave.
pub open spec fn tick_step(
    w: WorkView,
    now: int,
    killed: Result<(), RtodoError>,
    launched: Result<Process, RtodoError>,
) -> (WorkView, Result<(), ErrorKind>) {
    match decision(w, now) {
        Decision::Wait => (w, Ok(())),
        Decision::Start => recording_failure(start_step(w, launched)),
        Decision::Stop => recording_failure(stop_step(w, killed)),
        Decision::Restart => recording_failure(restart_step(w, killed, launched)),
    }
}

/// `killed` and `launched` are what `kill` and `spawn` can give in the tick of `w` at `now`.
pub open spec fn tick_from<S: Fn(&Execute) -> Result<Process, RtodoError>, K: Fn(i32) -> Result<(), RtodoError>>(
    spawn: S,
    kill: K,
    w: WorkView,
    now: int,
    killed: Result<(), RtodoError>,
    launched: Result<Process, RtodoError>,
) -> bool {
    match decision(w, now) {
        Decision::Wait => true,
        Decision::Start => launch_from(spawn, w, launched),
        Decision::Stop => kills_from(kill, w, killed),
        Decision::Restart => kills_from(kill, w, killed) && (stop_step(w, killed).1 is Ok ==> launch_from(
            spawn,
            stop_step(w, killed).0,
            launched,
        )),
    }
}

/// One checker pass on `w`, given whether each tracked process is alive: a running
/// work item with a dead process becomes `Pending`.
pub open spec fn check_step(w: WorkView, alive: Seq<bool>) -> WorkView {
    if w.status == Status::Running && exists|i: int| 0 <= i < alive.len() && !alive[i] {
        with_status(w, Status::Pending)
    } else {
        w
    }
}

/// The point `d` after `now`, when both are known and the sum can be formed.
pub open spec fn after(now: Option<DateTime>, d: Duration) -> Option<DateTime> {
    match now {
        Option::Some(n) => if n.add_ok(d) {
            Option::Some(n.spec_add(d))
        } else {
            Option::None
        },
        Option::None => Option::None,
    }
}

/// The trigger state of a new work item for `entry`, when created at `now` (none
/// when the clock could not be read).
pub open spec fn initial_trigger_state(entry: Entry, now: Option<DateTime>) -> TriggerState {
    match entry.trigger {
        Trigger::Timer(Timer::Repeat(d)) | Trigger::Timer(Timer::ManyTimes(d, _)) => TriggerState {
            exec_time: after(now, d),
            exec_times: 0,
        },
        Trigger::Timer(Timer::Once(t)) => TriggerState { exec_time: Option::Some(t), exec_times: 0 },
        _ => TriggerState { exec_time: Option::None, exec_times: 0 },
    }
}

/// Relies on nix's `kill` with no signal: it succeeds when a process with this id
/// exists and may be signalled; what it finds depends on the system at the time.
#[verifier::external_body]
fn signal_probe(pid: i32) -> (r: bool)
    requires
        pid > 0,
{
    nix::sys::signal::kill(nix::unistd::Pid::from_raw(pid), Option::<nix::sys::signal::Signal>::None).is_ok()
}

/// Whether a process id names a live process; ids that are not positive name
/// process groups, never a single process.
pub fn check_if_process_by_pid_alive(pid: i32) -> (r: bool)
    ensures
        pid <= 0 ==> !r,
{
    if pid <= 0 {
        false
    } else {
        signal_probe(pid)
    }
}

fn point_after(now: Option<DateTime>, d: Duration) -> (r: Option<DateTime>)
    ensures
        r == after(now, d),
{
    match now {
        Option::Some(n) => n.add(d),
        Option::None => Option::None,
    }
}

impl TriggerState {
    fn initial(entry: &Entry, now: Option<DateTime>) -> (r: TriggerState)
        ensures
            r == initial_trigger_state(*entry, now),
    {
        match entry.trigger {
            Trigger::Timer(Timer::Repeat(d)) => TriggerState { exec_time: point_after(now, d), exec_times: 0 },
            Trigger::Timer(Timer::ManyTimes(d, _)) => TriggerState { exec_time: point_after(now, d), exec_times: 0 },
            Trigger::Timer(Timer::Once(t)) => TriggerState { exec_time: Option::Some(t), exec_times: 0 },
            _ => TriggerState { exec_time: Option::None, exec_times: 0 },
        }
    }

    /// The trigger state of a new work item for `entry`, created at `now`.
    pub fn from_entry_at(entry: &Entry, now: &DateTime) -> (r: TriggerState)
        ensures
            r == initial_trigger_state(*entry, Option::Some(*now)),
    {
        TriggerState::initial(entry, Option::Some(*now))
    }

    /// The trigger state of a new work item for `entry`, created now; a timer
    /// that counts from now has no next point when the clock cannot be read.
    pub fn from_entry(entry: &Entry) -> (r: TriggerState)
        ensures
            exists|now: Option<DateTime>| #[trigger] clock_reading(now) && r == initial_trigger_state(*entry, now),
    {
        let now = DateTime::now();
        assert(clock_reading(now));
        TriggerState::initial(entry, now)
    }
}

impl Work {
    fn advance_exec_time(ts: &mut TriggerState, d: Duration) -> (r: Result<(), RtodoError>)
        ensures
            match advance_state(*old(ts), d) {
                Ok(v) => r is Ok && *final(ts) == v,
                Err(k) => kind_of(r) == Err::<(), ErrorKind>(k) && *final(ts) == *old(ts),
            },
    {
        match ts.exec_time {
            Option::None => Err(RtodoError::with_kind(ErrorKind::InvalidTime, "timer has no next point")),
            Option::Some(t) => match t.add(d) {
                Option::Some(n) => {
                    ts.exec_time = Option::Some(n);
                    if ts.exec_times < u32::MAX {
                        ts.exec_times = ts.exec_times + 1;
                    }
                    Ok(())
                },
                Option::None => Err(RtodoError::with_kind(ErrorKind::InvalidTime, "invalid time")),
            },
        }
    }

    /// A new work item for `entry`, created at `now` (none when the clock could not be read).
    pub(crate) fn from_entry_when(entry: Entry, now: Option<DateTime>) -> (r: Work)
        ensures
            r@ == (WorkView {
                status: entry.status,
                entry,
                trigger_state: initial_trigger_state(entry, now),
                processes: Seq::empty(),
            }),
    {
        let trigger_state = TriggerState::initial(&entry, now);
        Work { status: entry.status, entry, trigger_state, running_processes: Vec::new() }
    }

    /// A new work item for `entry`, created at `now`, with the entry's initial status.
    pub fn from_entry_at(entry: Entry, now: &DateTime) -> (r: Work)
        ensures
            r@ == (WorkView {
                status: entry.status,
                entry,
                trigger_state: initial_trigger_state(entry, Option::Some(*now)),
                processes: Seq::empty(),
            }),
    {
        Work::from_entry_when(entry, Option::Some(*now))
    }

    /// A new work item for `entry`, created now.
    pub fn from_entry(entry: Entry) -> (r: Work)
        ensures
            r.status == entry.status && r.entry == entry && r.running_processes@ == Seq::<Process>::empty(),
            exists|now: Option<DateTime>| #[trigger] clock_reading(now) && r.trigger_state == initial_trigger_state(entry, now),
    {
        let now = DateTime::now();
        assert(clock_reading(now));
        Work::from_entry_when(entry, now)
    }

    /// Terminates every tracked process through `kill`, in order, stopping at the
    /// first failure; on success the work item is `Paused` with nothing tracked.
    pub fn stop<K: Fn(i32) -> Result<(), RtodoError>>(&mut self, kill: &K) -> (r: Result<(), RtodoError>)
        requires
            forall|pid: i32| kill.requires((pid,)),
        ensures
            exists|killed: Result<(), RtodoError>|
                kills_from(*kill, old(self)@, killed)
                && final(self)@ == stop_step(old(self)@, killed).0
                && kind_of(r) == stop_step(old(self)@, killed).1,
    {
        let ghost w0 = self@;
        let ghost ok: Result<(), RtodoError> = Ok(());
        match self.entry.action {
            Action::Nothing => {
                assert(kills_from(*kill, w0, ok) && self@ == stop_step(w0, ok).0);
                Ok(())
            },
            Action::Exec(_) => {
                let mut i: usize = 0;
                while i < self.running_processes.len()
                    invariant
                        self@ == w0,
                        w0.entry.action is Exec,
                        i <= self.running_processes.len(),
                        forall|j: int| 0 <= j < i ==> kill.ensures((w0.processes[j].pid,), Ok::<(), RtodoError>(())),
                        forall|pid: i32| kill.requires((pid,)),
                    decreases self.running_processes.len() - i,
                {
                    let pid = self.running_processes[i].pid;
                    let k = kill(pid);
                    let ghost kk = k;
                    match k {
                        Ok(u) => {
                            assert(kk is Ok);
                            assert(u == ());
                            assert(kk == Ok::<(), RtodoError>(u));
                        },
                        Err(e) => {
                            let ghost kk = k;
                            assert(kill.ensures((w0.processes[i as int].pid,), kk));
                            assert(kills_from(*kill, w0, kk));
                            let r = Err(e);
                            assert(kind_of(r) == stop_step(w0, kk).1);
                            return r;
                        },
                    }
                    i = i + 1;
                }
                self.running_processes.clear();
                self.status = Status::Paused;
                assert(self@ == stop_step(w0, ok).0);
                assert(kills_from(*kill, w0, ok));
                Ok(())
            },
        }
    }

    /// Stops the work item and, when that succeeded, starts it again.
    pub fn restart<S, K>(&mut self, spawn: &S, kill: &K) -> (r: Result<(), RtodoError>)
        where
            S: Fn(&Execute) -> Result<Process, RtodoError>,
            K: Fn(i32) -> Result<(), RtodoError>,
        requires
            forall|e: &Execute| spawn.requires((e,)),
            forall|pid: i32| kill.requires((pid,)),
        ensures
            exists|killed: Result<(), RtodoError>, launched: Result<Process, RtodoError>|
                kills_from(*kill, old(self)@, killed)
                && (stop_step(old(self)@, killed).1 is Ok ==> launch_from(*spawn, stop_step(old(self)@, killed).0, launched))
                && final(self)@ == restart_step(old(self)@, killed, launched).0
                && kind_of(r) == restart_step(old(self)@, killed, launched).1,
    {
        let ghost w0 = self@;
        let s = self.stop(kill);
        let ghost dummy: Result<Process, RtodoError> = Ok(Process { pid: 0, output_tmp_file: Option::None });
        if s.is_err() {
            let ghost killed = choose|killed: Result<(), RtodoError>|
                kills_from(*kill, w0, killed)
                && self@ == stop_step(w0, killed).0
                && kind_of(s) == stop_step(w0, killed).1;
            assert(self@ == restart_step(w0, killed, dummy).0);
            return s;
        }
        let ghost killed = choose|killed: Result<(), RtodoError>|
            kills_from(*kill, w0, killed)
            && self@ == stop_step(w0, killed).0
            && kind_of(s) == stop_step(w0, killed).1;
        let ghost w1 = self@;
        let r = self.start(spawn);
        let ghost launched = choose|launched: Result<Process, RtodoError>|
            launch_from(*spawn, w1, launched)
            && self@ == start_step(w1, launched).0
            && kind_of(r) == start_step(w1, launched).1;
        assert(self@ == restart_step(w0, killed, launched).0);
        r
    }

    /// The executor's policy for this work item at instant `now`.
    pub fn decide(&self, now: i64) -> (r: Decision)
        ensures
            r == decision(self@, now as int),
    {
        let due = match self.entry.trigger {
            Trigger::Timer(_) => match self.trigger_state.exec_time {
                Option::Some(t) => t.is_up_at(now),
                Option::None => false,
            },
            Trigger::Nothing => false,
        };
        if !due {
            return Decision::Wait;
        }
        match self.status {
            Status::Running => match self.entry.do_if_running {
                DoIfRunning::Continue => Decision::Wait,
                DoIfRunning::StartNew => Decision::Start,
                DoIfRunning::Stop => Decision::Stop,
                DoIfRunning::Restart => Decision::Restart,
            },
            Status::Pending => Decision::Start,
            _ => Decision::Wait,
        }
    }

    /// One executor tick at instant `now`: applies the policy, and records a failed
    /// operation by moving the work item to `Error`.
    pub fn executor_step<S, K>(&mut self, now: i64, spawn: &S, kill: &K) -> (r: Result<(), RtodoError>)
        where
            S: Fn(&Execute) -> Result<Process, RtodoError>,
            K: Fn(i32) -> Result<(), RtodoError>,
        requires
            forall|e: &Execute| spawn.requires((e,)),
            forall|pid: i32| kill.requires((pid,)),
        ensures
            exists|killed: Result<(), RtodoError>, launched: Result<Process, RtodoError>|
                tick_from(*spawn, *kill, old(self)@, now as int, killed, launched)
                && final(self)@ == tick_step(old(self)@, now as int, killed, launched).0
                && kind_of(r) == tick_step(old(self)@, now as int, killed, launched).1,
    {
        let ghost w0 = self@;
        let ghost ok: Result<(), RtodoError> = Ok(());
        let ghost dummy: Result<Process, RtodoError> = Ok(Process { pid: 0, output_tmp_file: Option::None });
        let r = match self.decide(now) {
            Decision::Wait => {
                assert(tick_from(*spawn, *kill, w0, now as int, ok, dummy));
                return Ok(());
            },
            Decision::Start => self.start(spawn),
            Decision::Stop => self.stop(kill),
            Decision::Restart => self.restart(spawn, kill),
        };
        let ghost w1 = self@;
        if r.is_err() {
            self.status = Status::Error;
        }
        proof {
            match decision(w0, now as int) {
                Decision::Start => {
                    let launched = choose|launched: Result<Process, RtodoError>|
                        launch_from(*spawn, w0, launched)
                        && w1 == start_step(w0, launched).0
                        && kind_of(r) == start_step(w0, launched).1;
                    assert(tick_from(*spawn, *kill, w0, now as int, ok, launched));
                    assert(self@ == tick_step(w0, now as int, ok, launched).0);
                },
                Decision::Stop => {
                    let killed = choose|killed: Result<(), RtodoError>|
                        kills_from(*kill, w0, killed)
                        && w1 == stop_step(w0, killed).0
                        && kind_of(r) == stop_step(w0, killed).1;
                    assert(tick_from(*spawn, *kill, w0, now as int, killed, dummy));
                    assert(self@ == tick_step(w0, now as int, killed, dummy).0);
                },
                Decision::Restart => {
                    let (killed, launched) = choose|killed: Result<(), RtodoError>, launched: Result<Process, RtodoError>|
                        kills_from(*kill, w0, killed)
                        && (stop_step(w0, killed).1 is Ok ==> launch_from(*spawn, stop_step(w0, killed).0, launched))
                        && w1 == restart_step(w0, killed, launched).0
                        && kind_of(r) == restart_step(w0, killed, launched).1;
                    assert(tick_from(*spawn, *kill, w0, now as int, killed, launched));
                    assert(self@ == tick_step(w0, now as int, killed, launched).0);
                },
                Decision::Wait => {},
            }
        }
        r
    }

    /// Records which tracked processes are alive (`alive[i]` for the i-th): a
    /// running work item with a dead process becomes `Pending`. The processes stay
    /// tracked and the trigger state is kept.
    pub fn apply_liveness(&mut self, alive: &Vec<bool>)
        requires
            alive.len() == old(self).running_processes.len(),
        ensures
            final(self)@ == check_step(old(self)@, alive@),
    {
        if self.status != Status::Running {
            return;
        }
        let mut i: usize = 0;
        while i < alive.len()
            invariant
                i <= alive.len(),
                self@ == old(self)@,
                self.status == Status::Running,
                forall|j: int| 0 <= j < i ==> alive@[j],
            decreases alive.len() - i,
        {
            if !alive[i] {
                self.status = Status::Pending;
                assert(!alive@[i as int]);
                return;
            }
            i = i + 1;
        }
    }

    /// One checker pass: asks `probe` whether each tracked process with a positive
    /// id is alive (other ids name no single process) and records what was found.
    pub fn check<P: Fn(i32) -> bool>(&mut self, probe: &P)
        requires
            forall|pid: i32| probe.requires((pid,)),
        ensures
            exists|alive: Seq<bool>|
                alive.len() == old(self).running_processes.len()
                && (forall|i: int| 0 <= i < alive.len() ==> (if old(self).running_processes@[i].pid > 0 {
                    probe.ensures((old(self).running_processes@[i].pid,), #[trigger] alive[i])
                } else {
                    !alive[i]
                }))
                && final(self)@ == check_step(old(self)@, alive),
    {
        let mut alive: Vec<bool> = Vec::new();
        let mut i: usize = 0;
        while i < self.running_processes.len()
            invariant
                i <= self.running_processes.len(),
                alive.len() == i,
                forall|pid: i32| probe.requires((pid,)),
                forall|j: int| 0 <= j < i ==> (if self.running_processes@[j].pid > 0 {
                    probe.ensures((self.running_processes@[j].pid,), #[trigger] alive@[j])
                } else {
                    !alive@[j]
                }),
            decreases self.running_processes.len() - i,
        {
            let pid = self.running_processes[i].pid;
            let a = if pid > 0 { probe(pid) } else { false };
            alive.push(a);
            i = i + 1;
        }
        let ghost seen = alive@;
        self.apply_liveness(&alive);
        assert(seen.len() == old(self).running_processes.len());
    }

    /// Fires the work item: checks its timer, advances its trigger state and
    /// launches its command through `spawn`, tracking the new process.
    pub fn start<S: Fn(&Execute) -> Result<Process, RtodoError>>(&mut self, spawn: &S) -> (r: Result<(), RtodoError>)
        requires
            forall|e: &Execute| spawn.requires((e,)),
        ensures
            exists|launched: Result<Process, RtodoError>|
                launch_from(*spawn, old(self)@, launched)
                && final(self)@ == start_step(old(self)@, launched).0
                && kind_of(r) == start_step(old(self)@, launched).1,
    {
        let ghost w0 = self@;
        let ghost dummy: Result<Process, RtodoError> = Ok(Process { pid: 0, output_tmp_file: Option::None });
        match &self.entry.action {
            Action::Nothing => {
                self.status = Status::Running;
                assert(launch_from(*spawn, w0, dummy) && self@ == start_step(w0, dummy).0);
                return Ok(());
            },
            Action::Exec(execute) => {
                let once: bool;
                match self.entry.trigger {
                    Trigger::Nothing => {
                        self.status = Status::Running;
                        assert(launch_from(*spawn, w0, dummy) && self@ == start_step(w0, dummy).0);
                        return Ok(());
                    },
                    Trigger::Timer(Timer::Never) => {
                        let r = Err(RtodoError::with_kind(ErrorKind::NeverTimer, "work with a Never timer was started"));
                        assert(launch_from(*spawn, w0, dummy) && self@ == start_step(w0, dummy).0
                            && kind_of(r) == start_step(w0, dummy).1);
                        return r;
                    },
                    Trigger::Timer(Timer::Once(_)) => {
                        if self.trigger_state.exec_times >= 1 {
                            let r = Err(RtodoError::with_kind(ErrorKind::AlreadyExecuted, "work with a Once timer was already executed"));
                            assert(launch_from(*spawn, w0, dummy) && self@ == start_step(w0, dummy).0
                                && kind_of(r) == start_step(w0, dummy).1);
                            return r;
                        }
                        self.trigger_state.exec_times = self.trigger_state.exec_times + 1;
                        self.status = Status::Paused;
                        once = true;
                    },
                    Trigger::Timer(Timer::Repeat(d)) => {
                        let a = Work::advance_exec_time(&mut self.trigger_state, d);
                        if a.is_err() {
                            assert(launch_from(*spawn, w0, dummy) && self@ == start_step(w0, dummy).0
                                && kind_of(a) == start_step(w0, dummy).1);
                            return a;
                        }
                        once = false;
                    },
                    Trigger::Timer(Timer::ManyTimes(d, n)) => {
                        if self.trigger_state.exec_times >= n {
                            let r = Err(RtodoError::with_kind(ErrorKind::OccurrencesExceeded, "work with a ManyTimes timer exceeded its count"));
                            assert(launch_from(*spawn, w0, dummy) && self@ == start_step(w0, dummy).0
                                && kind_of(r) == start_step(w0, dummy).1);
                            return r;
                        }
                        let a = Work::advance_exec_time(&mut self.trigger_state, d);
                        if a.is_err() {
                            assert(launch_from(*spawn, w0, dummy) && self@ == start_step(w0, dummy).0
                                && kind_of(a) == start_step(w0, dummy).1);
                            return a;
                        }
                        once = false;
                    },
                }
                assert(prepare_start(w0) == Ok::<WorkView, ErrorKind>(self@));
                let launched = spawn(execute);
                let ghost l = launched;
                assert(w0.entry.action->Exec_0 == *execute);
                assert(launch_from(*spawn, w0, l));
                match launched {
                    Ok(p) => {
                        self.running_processes.push(p);
                        if !once {
                            self.status = Status::Running;
                        }
                        assert(self@ == start_step(w0, l).0);
                        Ok(())
                    },
                    Err(e) => {
                        let r = Err(e);
                        assert(kind_of(r) == start_step(w0, l).1 && self@ == start_step(w0, l).0);
                        r
                    },
                }
            },
        }
    }
}

} // verus!
