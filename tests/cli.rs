use rtodo::{
    check_if_help_in_args, garg, random_name, Action, CommandHelp, DateTime, DoIfRunning, Duration, Entry,
    EntryIdentifier, ErrorKind, Execute, Logger, Operation, OperationType, Status, SystemUser, Timer, Trigger,
    UnixUser,
};
use rtodo::text::{parse_i32, parse_u32, split_by, split_first, split_words};

fn args(v: &[&str]) -> Vec<String> {
    v.iter().map(|s| s.to_string()).collect()
}

#[test]
fn numbers_parse_as_std_does() {
    assert_eq!(parse_u32("42"), Some(42));
    assert_eq!(parse_u32("+7"), Some(7));
    assert_eq!(parse_u32("4294967295"), Some(u32::MAX));
    assert_eq!(parse_u32("4294967296"), None);
    assert_eq!(parse_u32("99999999999999999999"), None);
    assert_eq!(parse_u32(""), None);
    assert_eq!(parse_u32("+"), None);
    assert_eq!(parse_u32("-1"), None);
    assert_eq!(parse_u32("1a"), None);
    assert_eq!(parse_i32("-2147483648"), Some(i32::MIN));
    assert_eq!(parse_i32("2147483648"), None);
    assert_eq!(parse_i32("-12"), Some(-12));
    assert_eq!(parse_i32("-"), None);
}

#[test]
fn splitting_matches_std() {
    assert_eq!(split_by("a b  c", ' '), vec!["a", "b", "", "c"]);
    assert_eq!(split_by("", ' '), vec![""]);
    assert_eq!(split_words("  A=1\tB=2 \n C "), vec!["A=1", "B=2", "C"]);
    assert_eq!(split_first("K=V=W", '='), Some(("K".to_string(), "V=W".to_string())));
    assert_eq!(split_first("KV", '='), None);
}

#[test]
fn help_flag_is_found() {
    assert!(check_if_help_in_args(&args(&["rtodo", "add", "--help"])));
    assert!(!check_if_help_in_args(&args(&["rtodo", "add"])));
}

#[test]
fn garg_reads_an_argument() {
    let a = args(&["x", "y"]);
    assert_eq!(garg(&a, 1), Some("y".to_string()));
    assert_eq!(garg(&a, 2), None);
    assert_eq!(random_name(), "Not impled");
}

#[test]
fn status_and_policy_flags() {
    assert_eq!(Status::from_args(&args(&["--paused"])), Status::Paused);
    assert_eq!(Status::from_args(&args(&["--other"])), Status::Pending);
    assert_eq!(DoIfRunning::from_args(&args(&["--stop-ir", "--rest-ir"])), DoIfRunning::Restart);
    assert_eq!(DoIfRunning::from_args(&args(&["--cont-ir"])), DoIfRunning::Continue);
    assert_eq!(DoIfRunning::from_args(&args(&[])), DoIfRunning::StartNew);
    assert!(DoIfRunning::cmd_help().starts_with("--rest-ir"));
}

#[test]
fn logger_flags() {
    assert!(matches!(Logger::from_args(&args(&["--log-file", "/tmp/l"])), Logger::File(p) if p == "/tmp/l"));
    assert!(matches!(Logger::from_args(&args(&["--log-file"])), Logger::Off));
    assert!(matches!(Logger::from_args(&args(&["--log-file", "a", "--log-off"])), Logger::Off));
    assert!(matches!(Logger::from_args(&args(&[])), Logger::Default));
}

#[test]
fn calendar_flags() {
    let a = args(&["--year", "2024", "--month", "2", "--day", "29", "--hour", "6"]);
    let p = DateTime::from_args(&a).unwrap();
    assert_eq!(p, DateTime::from_ymd_hms(2024, 2, 29, 6, 0, 0).unwrap());
    assert!(DateTime::from_args(&args(&["--hour", "6"])).is_none());
    assert!(DateTime::from_args(&args(&["--other"])).is_none());
    let d = Duration::from_args(&args(&["--min", "2", "--sec", "x", "--sec", "5"])).unwrap();
    assert_eq!(d, Duration::new(0, 0, 0, 0, 2, 5));
    assert_eq!(d.total_sec, 125);
    assert!(Duration::from_args(&args(&[])).is_none());
}

#[test]
fn timer_and_trigger_flags() {
    let now = DateTime::from_ymd_hms_utc(2024, 5, 1, 0, 0, 0).unwrap();
    let rep = Timer::from_args_at(&args(&["--repeat", "--sec", "5"]), &now);
    assert_eq!(rep, Some(Timer::Repeat(Duration::new(0, 0, 0, 0, 0, 5))));
    let default_once = Timer::from_args_at(&args(&["--once"]), &now);
    assert_eq!(default_once, Some(Timer::Once(DateTime::from_ymd_hms_utc(2024, 5, 2, 0, 0, 0).unwrap())));
    let given = Timer::from_args_at(&args(&["--once", "--year", "2024", "--month", "3", "--day", "5"]), &now);
    match given {
        Some(Timer::Once(p)) => {
            assert_eq!((p.year, p.month, p.day, p.hour, p.min, p.sec), (2024, 3, 5, 0, 0, 0));
            assert_eq!(p.time_zone, rtodo::TimeZone::Local);
        },
        _ => panic!("expected a once timer"),
    }
    assert_eq!(Timer::from_args_at(&args(&["--never"]), &now), None);
    assert_eq!(Timer::from_args_at(&args(&["--once", "--never"]), &now), Some(Timer::Never));
    assert_eq!(Timer::from_args_at(&args(&["--repeat"]), &now), Some(Timer::Repeat(Duration::one_day())));
    assert_eq!(Trigger::from_args_at(&args(&[]), &now), Trigger::Nothing);
    assert!(matches!(Trigger::from_args(&args(&["--repeat"])), Trigger::Timer(Timer::Repeat(_))));
}

#[test]
fn command_flags() {
    let users = vec![UnixUser { uid: 1000, gid: 100, username: "ann".to_string() }];
    let a = args(&[
        "--exec", "/bin/echo", "--args", "hello world", "--env", "A=1 B C=x=y", "--dir", "/srv", "--username", "ann",
    ]);
    let e = Execute::from_args_with(&a, &users).unwrap();
    assert_eq!(e.executable, "/bin/echo");
    assert_eq!(e.args, Some(vec!["hello".to_string(), "world".to_string()]));
    assert_eq!(
        e.env,
        Some(vec![("A".to_string(), "1".to_string()), ("C".to_string(), "x=y".to_string())])
    );
    assert_eq!(e.working_dir, Some("/srv".to_string()));
    assert!(matches!(e.user, Some(SystemUser::Unix(u)) if u.uid == 1000 && u.gid == 100));
    let unknown = Execute::from_args_with(&args(&["--exec", "x", "--username", "bob"]), &users).unwrap();
    assert!(unknown.user.is_none());
    assert!(Execute::from_args_with(&args(&["--exec"]), &users).is_none());
    assert!(matches!(Action::from_args_with(&args(&["--dir", "/"]), &users), Action::Nothing));
    assert!(matches!(Action::from_args(&args(&["--exec", "/bin/true"])), Action::Exec(_)));
}

#[test]
fn accounts_of_this_machine() {
    let e = Execute::from_args(&args(&["--exec", "x", "--username", "root"])).unwrap();
    assert!(matches!(e.user, Some(SystemUser::Unix(u)) if u.uid == 0 && u.username == "root"));
    assert!(SystemUser::from_un(Some("no-such-user-here".to_string())).is_none());
    assert!(SystemUser::from_un(None).is_none());
}

#[test]
fn entry_flags() {
    let e = Entry::from_args(
        &args(&["--name", "backup"]),
        Trigger::Nothing,
        Logger::Off,
        Action::Nothing,
        DoIfRunning::Stop,
        Status::Paused,
    )
    .unwrap();
    assert_eq!(e.name, "backup");
    assert_eq!(e.id, 0);
    assert_eq!(e.status, Status::Paused);
    let unnamed = Entry::from_args(&args(&[]), Trigger::Nothing, Logger::Off, Action::Nothing, DoIfRunning::Stop, Status::Pending)
        .unwrap();
    assert_eq!(unnamed.name, "Not impled");
    let dangling = Entry::from_args(
        &args(&["--name"]),
        Trigger::Nothing,
        Logger::Off,
        Action::Nothing,
        DoIfRunning::Stop,
        Status::Pending,
    );
    assert_eq!(dangling.unwrap_err().kind, ErrorKind::InvalidArgument);
}

#[test]
fn operations_from_command_lines() {
    assert!(matches!(Operation::from_args(&args(&["rtodo", "list"])), Ok(Operation::List())));
    assert!(matches!(Operation::from_args(&args(&["rtodo", "version"])), Ok(Operation::Version)));
    assert!(matches!(Operation::from_args(&args(&["rtodo", "start-daemon"])), Ok(Operation::StartDaemon())));
    assert!(matches!(Operation::from_args(&args(&["rtodo", "stop-daemon"])), Ok(Operation::StopDaemon())));
    assert!(matches!(Operation::from_args(&args(&["rtodo", "what"])), Ok(Operation::Help(None))));
    assert!(matches!(
        Operation::from_args(&args(&["rtodo", "help", "--help"])),
        Ok(Operation::Help(Some(OperationType::Help)))
    ));
    assert!(matches!(
        Operation::from_args(&args(&["rtodo", "delete", "--help"])),
        Ok(Operation::Help(Some(OperationType::Delete)))
    ));
    assert!(matches!(Operation::from_args(&args(&["rtodo", "delete", "12"])), Ok(Operation::Delete(EntryIdentifier::Id(12)))));
    assert!(matches!(
        Operation::from_args(&args(&["rtodo", "pause", "backup"])),
        Ok(Operation::Pause(EntryIdentifier::Name(n))) if n == "backup"
    ));
    let missing = Operation::from_args(&args(&["rtodo", "start"]));
    assert_eq!(missing.unwrap_err().kind, ErrorKind::InvalidArgument);
    let add = Operation::from_args(&args(&["rtodo", "add", "--name", "n", "--exec", "/bin/true", "--repeat", "--min", "1"]));
    match add {
        Ok(Operation::Add(e)) => {
            assert_eq!(e.name, "n");
            assert!(matches!(e.trigger, Trigger::Timer(Timer::Repeat(d)) if d.min == 1));
            assert!(matches!(e.action, Action::Exec(x) if x.executable == "/bin/true"));
        },
        _ => panic!("expected an add operation"),
    }
    assert_eq!(Operation::from_args(&args(&["rtodo", "add", "--name"])).unwrap_err().kind, ErrorKind::InvalidArgument);
}
