use rtodo::{
    Action, DateTime, Decision, DoIfRunning, Duration, Entry, ErrorKind, Execute, Logger, Process, RtodoError,
    Status, Timer, Trigger, TriggerState, Work,
};

fn at(y: i32, mo: u32, d: u32, h: u32, mi: u32, s: u32) -> DateTime {
    DateTime::from_ymd_hms_utc(y, mo, d, h, mi, s).unwrap()
}

fn command(exe: &str) -> Action {
    Action::Exec(Execute {
        env: None,
        working_dir: None,
        executable: exe.to_string(),
        user: None,
        args: Some(vec!["100".to_string()]),
    })
}

fn entry(trigger: Trigger, action: Action, status: Status, policy: DoIfRunning) -> Entry {
    let mut e = Entry::new(trigger, Logger::Default, action, policy, status);
    e.name = "job".to_string();
    e
}

fn work(trigger: Trigger, exec_time: Option<DateTime>, status: Status, policy: DoIfRunning) -> Work {
    Work {
        status,
        entry: entry(trigger, command("sleep"), status, policy),
        trigger_state: TriggerState { exec_time, exec_times: 0 },
        running_processes: Vec::new(),
    }
}

fn spawn_ok(_e: &Execute) -> Result<Process, RtodoError> {
    Ok(Process { pid: 4242, output_tmp_file: None })
}

fn spawn_fail(_e: &Execute) -> Result<Process, RtodoError> {
    Err(RtodoError::with_kind(ErrorKind::Spawn, "no such file"))
}

fn kill_ok(_pid: i32) -> Result<(), RtodoError> {
    Ok(())
}

fn kill_fail(_pid: i32) -> Result<(), RtodoError> {
    Err(RtodoError::with_kind(ErrorKind::Kill, "kill failed"))
}

#[test]
fn once_start_pauses_and_refuses_second_start() {
    let t = at(2024, 5, 1, 12, 0, 0);
    let mut w = work(Trigger::Timer(Timer::Once(t)), Some(t), Status::Pending, DoIfRunning::Continue);
    assert!(w.start(&spawn_ok).is_ok());
    assert_eq!(w.trigger_state.exec_times, 1);
    assert_eq!(w.status, Status::Paused);
    assert_eq!(w.running_processes.len(), 1);
    assert_eq!(w.running_processes[0].pid, 4242);
    let second = w.start(&spawn_ok);
    assert_eq!(second.unwrap_err().kind, ErrorKind::AlreadyExecuted);
    assert_eq!(w.trigger_state.exec_times, 1);
    assert_eq!(w.running_processes.len(), 1);
}

#[test]
fn many_times_stops_after_its_count() {
    let t = at(2024, 5, 1, 12, 0, 0);
    let d = Duration::new(0, 0, 0, 0, 0, 1);
    let mut w = work(Trigger::Timer(Timer::ManyTimes(d, 3)), Some(t), Status::Pending, DoIfRunning::Continue);
    for _ in 0..3 {
        assert!(w.start(&spawn_ok).is_ok());
    }
    assert_eq!(w.trigger_state.exec_times, 3);
    assert_eq!(w.trigger_state.exec_time.unwrap(), at(2024, 5, 1, 12, 0, 3));
    let before = w.trigger_state.exec_time;
    let fourth = w.start(&spawn_ok);
    assert_eq!(fourth.unwrap_err().kind, ErrorKind::OccurrencesExceeded);
    assert_eq!(w.trigger_state.exec_times, 3);
    assert_eq!(w.trigger_state.exec_time, before);
    assert_eq!(w.running_processes.len(), 3);
}

#[test]
fn repeat_advances_by_normalized_sum() {
    let t = at(2024, 1, 31, 23, 59, 58);
    let d = Duration::new(0, 0, 0, 0, 0, 5);
    let mut w = work(Trigger::Timer(Timer::Repeat(d)), Some(t), Status::Pending, DoIfRunning::StartNew);
    for _ in 0..4 {
        assert!(w.start(&spawn_ok).is_ok());
    }
    assert_eq!(w.trigger_state.exec_time.unwrap(), at(2024, 2, 1, 0, 0, 18));
    assert_eq!(w.trigger_state.exec_times, 4);
    assert_eq!(w.status, Status::Running);
    assert_eq!(w.running_processes.len(), 4);
}

#[test]
fn repeat_without_next_point_is_invalid_time() {
    let d = Duration::new(0, 0, 0, 0, 0, 5);
    let mut w = work(Trigger::Timer(Timer::Repeat(d)), None, Status::Pending, DoIfRunning::StartNew);
    assert_eq!(w.start(&spawn_ok).unwrap_err().kind, ErrorKind::InvalidTime);
    assert_eq!(w.trigger_state.exec_times, 0);
}

#[test]
fn never_timer_cannot_start() {
    let mut w = work(Trigger::Timer(Timer::Never), None, Status::Pending, DoIfRunning::StartNew);
    assert_eq!(w.start(&spawn_ok).unwrap_err().kind, ErrorKind::NeverTimer);
    assert_eq!(w.status, Status::Pending);
}

#[test]
fn spawn_failure_is_returned_after_progress() {
    let t = at(2024, 5, 1, 12, 0, 0);
    let d = Duration::new(0, 0, 0, 0, 1, 0);
    let mut w = work(Trigger::Timer(Timer::Repeat(d)), Some(t), Status::Pending, DoIfRunning::StartNew);
    assert_eq!(w.start(&spawn_fail).unwrap_err().kind, ErrorKind::Spawn);
    assert_eq!(w.trigger_state.exec_times, 1);
    assert_eq!(w.trigger_state.exec_time.unwrap(), at(2024, 5, 1, 12, 1, 0));
    assert!(w.running_processes.is_empty());
}

#[test]
fn action_nothing_marks_running() {
    let t = at(2024, 5, 1, 12, 0, 0);
    let mut w = work(Trigger::Timer(Timer::Once(t)), Some(t), Status::Pending, DoIfRunning::Continue);
    w.entry.action = Action::Nothing;
    assert!(w.start(&spawn_fail).is_ok());
    assert_eq!(w.status, Status::Running);
    assert_eq!(w.trigger_state.exec_times, 0);
}

#[test]
fn stop_kills_and_pauses() {
    let t = at(2024, 5, 1, 12, 0, 0);
    let mut w = work(Trigger::Timer(Timer::Once(t)), Some(t), Status::Running, DoIfRunning::Stop);
    w.running_processes.push(Process { pid: 11, output_tmp_file: None });
    w.running_processes.push(Process { pid: 12, output_tmp_file: None });
    assert!(w.stop(&kill_ok).is_ok());
    assert!(w.running_processes.is_empty());
    assert_eq!(w.status, Status::Paused);
}

#[test]
fn stop_failure_keeps_processes() {
    let t = at(2024, 5, 1, 12, 0, 0);
    let mut w = work(Trigger::Timer(Timer::Once(t)), Some(t), Status::Running, DoIfRunning::Stop);
    w.running_processes.push(Process { pid: 11, output_tmp_file: None });
    assert_eq!(w.stop(&kill_fail).unwrap_err().kind, ErrorKind::Kill);
    assert_eq!(w.running_processes.len(), 1);
    assert_eq!(w.status, Status::Running);
}

#[test]
fn restart_replaces_the_tracked_process() {
    let t = at(2024, 5, 1, 12, 0, 0);
    let d = Duration::new(0, 0, 0, 0, 0, 5);
    let mut w = work(Trigger::Timer(Timer::Repeat(d)), Some(t), Status::Running, DoIfRunning::Restart);
    w.running_processes.push(Process { pid: 7, output_tmp_file: None });
    assert!(w.restart(&spawn_ok, &kill_ok).is_ok());
    assert_eq!(w.running_processes.len(), 1);
    assert_eq!(w.running_processes[0].pid, 4242);
    assert_eq!(w.status, Status::Running);
}

#[test]
fn restart_whose_start_fails_ends_in_error_without_processes() {
    let t = at(2024, 5, 1, 12, 0, 0);
    let mut w = work(Trigger::Timer(Timer::Once(t)), Some(t), Status::Running, DoIfRunning::Restart);
    w.trigger_state.exec_times = 1;
    w.running_processes.push(Process { pid: 7, output_tmp_file: None });
    let r = w.executor_step(t.timestamp, &spawn_ok, &kill_ok);
    assert_eq!(r.unwrap_err().kind, ErrorKind::AlreadyExecuted);
    assert_eq!(w.status, Status::Error);
    assert!(w.running_processes.is_empty());
}

#[test]
fn checker_marks_dead_running_work_pending() {
    let t = at(2024, 5, 1, 12, 0, 0);
    let d = Duration::new(0, 0, 0, 0, 0, 5);
    let mut w = work(Trigger::Timer(Timer::Repeat(d)), Some(t), Status::Running, DoIfRunning::StartNew);
    w.trigger_state.exec_times = 2;
    w.running_processes.push(Process { pid: 7, output_tmp_file: None });
    w.apply_liveness(&vec![false]);
    assert_eq!(w.status, Status::Pending);
    assert_eq!(w.trigger_state.exec_time, Some(t));
    assert_eq!(w.trigger_state.exec_times, 2);
    assert_eq!(w.running_processes.len(), 1);
}

#[test]
fn checker_probe_finds_missing_process() {
    let t = at(2024, 5, 1, 12, 0, 0);
    let d = Duration::new(0, 0, 0, 0, 0, 5);
    let mut w = work(Trigger::Timer(Timer::Repeat(d)), Some(t), Status::Running, DoIfRunning::StartNew);
    w.running_processes.push(Process { pid: i32::MAX, output_tmp_file: None });
    w.check(&rtodo::check_if_process_by_pid_alive);
    assert_eq!(w.status, Status::Pending);
    assert_eq!(w.trigger_state.exec_time, Some(t));
}

#[test]
fn checker_asks_the_probe_about_each_positive_pid() {
    let t = at(2024, 5, 1, 12, 0, 0);
    let mut w = work(Trigger::Timer(Timer::Once(t)), Some(t), Status::Running, DoIfRunning::Continue);
    w.running_processes.push(Process { pid: 7, output_tmp_file: None });
    w.running_processes.push(Process { pid: 0, output_tmp_file: None });
    w.check(&|pid: i32| pid == 7);
    assert_eq!(w.status, Status::Pending);
    let mut v = work(Trigger::Timer(Timer::Once(t)), Some(t), Status::Running, DoIfRunning::Continue);
    v.running_processes.push(Process { pid: 7, output_tmp_file: None });
    v.check(&|pid: i32| pid == 7);
    assert_eq!(v.status, Status::Running);
}

#[test]
fn checker_keeps_live_or_paused_work() {
    let t = at(2024, 5, 1, 12, 0, 0);
    let mut w = work(Trigger::Timer(Timer::Once(t)), Some(t), Status::Running, DoIfRunning::Continue);
    w.running_processes.push(Process { pid: 7, output_tmp_file: None });
    w.apply_liveness(&vec![true]);
    assert_eq!(w.status, Status::Running);
    w.status = Status::Paused;
    w.apply_liveness(&vec![false]);
    assert_eq!(w.status, Status::Paused);
}

#[test]
fn probe_rejects_non_positive_pids() {
    assert!(!rtodo::check_if_process_by_pid_alive(0));
    assert!(!rtodo::check_if_process_by_pid_alive(-1));
    assert!(!rtodo::check_if_process_by_pid_alive(i32::MAX));
}

#[test]
fn once_entry_runs_once_then_waits() {
    let now = at(2024, 5, 1, 12, 0, 0);
    let past = at(2024, 5, 1, 11, 59, 59);
    let e = entry(Trigger::Timer(Timer::Once(past)), command("echo"), Status::Pending, DoIfRunning::Continue);
    let mut w = Work::from_entry_at(e, &now);
    assert_eq!(w.decide(now.timestamp), Decision::Start);
    assert!(w.executor_step(now.timestamp, &spawn_ok, &kill_ok).is_ok());
    assert_eq!(w.trigger_state.exec_times, 1);
    assert_eq!(w.status, Status::Paused);
    assert_eq!(w.running_processes.len(), 1);
    assert!(past.is_up_at(now.timestamp));
    assert_eq!(w.decide(now.timestamp), Decision::Wait);
    assert!(w.executor_step(now.timestamp, &spawn_ok, &kill_ok).is_ok());
    assert_eq!(w.trigger_state.exec_times, 1);
    assert_eq!(w.status, Status::Paused);
    assert_eq!(w.running_processes.len(), 1);
}

#[test]
fn repeat_entry_with_start_new_tracks_two_processes() {
    let created = at(2024, 5, 1, 12, 0, 0);
    let d = Duration::new(0, 0, 0, 0, 0, 5);
    let e = entry(Trigger::Timer(Timer::Repeat(d)), command("sleep"), Status::Pending, DoIfRunning::StartNew);
    let mut w = Work::from_entry_at(e, &created);
    let first_due = at(2024, 5, 1, 12, 0, 5);
    assert_eq!(w.trigger_state.exec_time, Some(first_due));
    assert!(w.executor_step(first_due.timestamp, &spawn_ok, &kill_ok).is_ok());
    assert_eq!(w.status, Status::Running);
    assert_eq!(w.running_processes.len(), 1);
    assert_eq!(w.trigger_state.exec_time, Some(at(2024, 5, 1, 12, 0, 10)));
    assert!(w.executor_step(first_due.timestamp + 1, &spawn_ok, &kill_ok).is_ok());
    assert_eq!(w.running_processes.len(), 1);
    assert!(w.executor_step(first_due.timestamp + 5, &spawn_ok, &kill_ok).is_ok());
    assert_eq!(w.status, Status::Running);
    assert_eq!(w.running_processes.len(), 2);
}

#[test]
fn running_work_with_stop_policy_is_paused() {
    let t = at(2024, 5, 1, 12, 0, 0);
    let d = Duration::new(0, 0, 0, 0, 0, 5);
    let mut w = work(Trigger::Timer(Timer::Repeat(d)), Some(t), Status::Running, DoIfRunning::Stop);
    w.running_processes.push(Process { pid: 7, output_tmp_file: None });
    assert_eq!(w.decide(t.timestamp), Decision::Stop);
    assert!(w.executor_step(t.timestamp, &spawn_ok, &kill_ok).is_ok());
    assert_eq!(w.status, Status::Paused);
    assert!(w.running_processes.is_empty());
}

#[test]
fn failed_tick_records_error_and_error_is_terminal() {
    let t = at(2024, 5, 1, 12, 0, 0);
    let d = Duration::new(0, 0, 0, 0, 0, 5);
    let mut w = work(Trigger::Timer(Timer::Repeat(d)), Some(t), Status::Pending, DoIfRunning::StartNew);
    assert_eq!(w.executor_step(t.timestamp, &spawn_fail, &kill_ok).unwrap_err().kind, ErrorKind::Spawn);
    assert_eq!(w.status, Status::Error);
    assert_eq!(w.decide(i64::MAX), Decision::Wait);
}

#[test]
fn untimed_work_is_never_due() {
    let mut w = work(Trigger::Nothing, None, Status::Pending, DoIfRunning::StartNew);
    assert_eq!(w.decide(i64::MAX), Decision::Wait);
    assert!(w.executor_step(i64::MAX, &spawn_ok, &kill_ok).is_ok());
    assert_eq!(w.status, Status::Pending);
}

#[test]
fn trigger_state_of_new_entries() {
    let now = at(2024, 12, 31, 23, 0, 0);
    let day = Duration::one_day();
    let rep = entry(Trigger::Timer(Timer::Repeat(day)), command("x"), Status::Pending, DoIfRunning::StartNew);
    let ts = TriggerState::from_entry_at(&rep, &now);
    assert_eq!(ts.exec_time, Some(at(2025, 1, 1, 23, 0, 0)));
    assert_eq!(ts.exec_times, 0);
    let never = entry(Trigger::Timer(Timer::Never), command("x"), Status::Pending, DoIfRunning::StartNew);
    assert_eq!(TriggerState::from_entry_at(&never, &now).exec_time, None);
    let many = entry(Trigger::Timer(Timer::ManyTimes(day, 2)), command("x"), Status::Pending, DoIfRunning::StartNew);
    assert!(TriggerState::from_entry(&many).exec_time.is_some());
}
