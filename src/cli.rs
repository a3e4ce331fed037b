//! Building entries and operations from command-line arguments.
use crate::calendar::{clock_reading, valid_date_time, year_in_range, DateTime, Duration, TimeZone, fixed_seconds};
use crate::work::after;
use crate::entry::{
    Action, DoIfRunning, Entry, EntryIdentifier, Execute, Logger, Status, SystemUser, Timer, Trigger, UnixUser,
};
use crate::error::{ErrorKind, RtodoError};
use crate::text::{
    i32_of, parse_i32, parse_u32, same_text, split_by, split_first, split_on, split_once_at, split_words, texts,
    u32_of, words,
};
use sysinfo::{SystemExt, UserExt};
use vstd::prelude::*;

verus! {

/// Some argument is `flag`.
pub open spec fn has_flag(a: Seq<Seq<char>>, flag: Seq<char>) -> bool {
    exists|i: int| 0 <= i < a.len() && a[i] == flag
}

/// The index of the last `flag` among the first `n` arguments.
pub open spec fn last_index(a: Seq<Seq<char>>, flag: Seq<char>, n: int) -> Option<int>
    decreases n,
{
    if n <= 0 {
        None
    } else if a[n - 1] == flag {
        Some(n - 1)
    } else {
        last_index(a, flag, n - 1)
    }
}

/// The argument after index `i`, if there is one.
pub open spec fn value_after(a: Seq<Seq<char>>, i: int) -> Option<Seq<char>> {
    if 0 <= i && i + 1 < a.len() {
        Some(a[i + 1])
    } else {
        None
    }
}

/// The value of the last `flag` among the first `n` arguments that is followed by a `u32`.
pub open spec fn last_u32(a: Seq<Seq<char>>, flag: Seq<char>, n: int) -> Option<u32>
    decreases n,
{
    if n <= 0 {
        None
    } else if a[n - 1] == flag && n < a.len() && u32_of(a[n]) is Some {
        u32_of(a[n])
    } else {
        last_u32(a, flag, n - 1)
    }
}

/// The value of the last `flag` among the first `n` arguments that is followed by an `i32`.
pub open spec fn last_i32(a: Seq<Seq<char>>, flag: Seq<char>, n: int) -> Option<i32>
    decreases n,
{
    if n <= 0 {
        None
    } else if a[n - 1] == flag && n < a.len() && i32_of(a[n]) is Some {
        i32_of(a[n])
    } else {
        last_i32(a, flag, n - 1)
    }
}

pub open spec fn or_zero(v: Option<u32>) -> u32 {
    match v {
        Some(x) => x,
        None => 0,
    }
}

/// The calendar fields that the arguments give, 0 for each one not given.
pub open spec fn time_fields(a: Seq<Seq<char>>) -> (int, int, int, int, int, int) {
    (
        match last_i32(a, "--year"@, a.len() as int) {
            Some(y) => y as int,
            None => 0,
        },
        or_zero(last_u32(a, "--month"@, a.len() as int)) as int,
        or_zero(last_u32(a, "--day"@, a.len() as int)) as int,
        or_zero(last_u32(a, "--hour"@, a.len() as int)) as int,
        or_zero(last_u32(a, "--min"@, a.len() as int)) as int,
        or_zero(last_u32(a, "--sec"@, a.len() as int)) as int,
    )
}

/// Some calendar field is named by the arguments.
pub open spec fn names_time(a: Seq<Seq<char>>) -> bool {
    has_flag(a, "--sec"@) || has_flag(a, "--min"@) || has_flag(a, "--hour"@) || has_flag(a, "--day"@)
        || has_flag(a, "--month"@) || has_flag(a, "--year"@)
}

/// Whether `flag` is among the arguments.
pub fn has_arg(args: &Vec<String>, flag: &str) -> (r: bool)
    ensures
        r == has_flag(texts(args@), flag@),
{
    let mut i: usize = 0;
    while i < args.len()
        invariant
            i <= args.len(),
            forall|j: int| 0 <= j < i ==> texts(args@)[j] != flag@,
        decreases args.len() - i,
    {
        if same_text(args[i].as_str(), flag) {
            assert(texts(args@)[i as int] == flag@);
            return true;
        }
        i = i + 1;
    }
    false
}

/// Whether `--help` is among the arguments.
pub fn check_if_help_in_args(args: &Vec<String>) -> (r: bool)
    ensures
        r == has_flag(texts(args@), "--help"@),
{
    has_arg(args, "--help")
}

/// The argument at `index`, if there is one.
pub fn garg(args: &Vec<String>, index: usize) -> (r: Option<String>)
    ensures
        index < args.len() ==> (r matches Some(s) && s@ == texts(args@)[index as int]),
        index >= args.len() ==> r is None,
{
    if index < args.len() {
        Some(args[index].clone())
    } else {
        None
    }
}

/// The argument at `index` read as a `u32`.
fn garg_u32(args: &Vec<String>, index: usize) -> (r: Option<u32>)
    ensures
        r == (if index < args.len() { u32_of(texts(args@)[index as int]) } else { None }),
{
    if index < args.len() {
        parse_u32(args[index].as_str())
    } else {
        None
    }
}

/// The argument at `index` read as an `i32`.
fn garg_i32(args: &Vec<String>, index: usize) -> (r: Option<i32>)
    ensures
        r == (if index < args.len() { i32_of(texts(args@)[index as int]) } else { None }),
{
    if index < args.len() {
        parse_i32(args[index].as_str())
    } else {
        None
    }
}

/// The name given to entries that are not named.
pub fn random_name() -> (r: String)
    ensures
        r@ == "Not impled"@,
{
    "Not impled".to_owned()
}

proof fn lemma_time_flags_differ()
    ensures
        "--sec"@ != "--min"@ && "--sec"@ != "--hour"@ && "--sec"@ != "--day"@ && "--sec"@ != "--month"@ && "--sec"@ != "--year"@,
        "--min"@ != "--hour"@ && "--min"@ != "--day"@ && "--min"@ != "--month"@ && "--min"@ != "--year"@,
        "--hour"@ != "--day"@ && "--hour"@ != "--month"@ && "--hour"@ != "--year"@,
        "--day"@ != "--month"@ && "--day"@ != "--year"@,
        "--month"@ != "--year"@,
{
    reveal_strlit("--sec");
    reveal_strlit("--min");
    reveal_strlit("--hour");
    reveal_strlit("--day");
    reveal_strlit("--month");
    reveal_strlit("--year");
    assert("--sec"@[2] == 's' && "--min"@[2] == 'm' && "--day"@[2] == 'd');
    assert("--hour"@[2] == 'h' && "--year"@[2] == 'y');
    assert("--min"@.len() == 5 && "--month"@.len() == 7 && "--sec"@.len() == 5 && "--hour"@.len() == 6);
}

struct TimeArgs {
    year: i32,
    month: u32,
    day: u32,
    hour: u32,
    min: u32,
    sec: u32,
    named: bool,
}

/// Reads the calendar fields that the arguments give.
fn time_args(args: &Vec<String>) -> (r: TimeArgs)
    ensures
        (r.year as int, r.month as int, r.day as int, r.hour as int, r.min as int, r.sec as int) == time_fields(texts(args@)),
        r.named == names_time(texts(args@)),
{
    let ghost a = texts(args@);
    let mut t = TimeArgs { year: 0, month: 0, day: 0, hour: 0, min: 0, sec: 0, named: false };
    let mut i: usize = 0;
    while i < args.len()
        invariant
            a == texts(args@),
            i <= args.len(),
            t.year == (match last_i32(a, "--year"@, i as int) { Some(y) => y, None => 0i32 }),
            t.month == or_zero(last_u32(a, "--month"@, i as int)),
            t.day == or_zero(last_u32(a, "--day"@, i as int)),
            t.hour == or_zero(last_u32(a, "--hour"@, i as int)),
            t.min == or_zero(last_u32(a, "--min"@, i as int)),
            t.sec == or_zero(last_u32(a, "--sec"@, i as int)),
            t.named == (exists|j: int| 0 <= j < i && (a[j] == "--sec"@ || a[j] == "--min"@ || a[j] == "--hour"@
                || a[j] == "--day"@ || a[j] == "--month"@ || a[j] == "--year"@)),
        decreases args.len() - i,
    {
        let arg = args[i].as_str();
        proof {
            lemma_time_flags_differ();
        }
        assert(a[i as int] == arg@);
        assert(i + 1 < args.len() ==> a[i + 1] == args@[i + 1]@);
        assert(last_i32(a, "--year"@, i + 1) == (if a[i as int] == "--year"@ && i + 1 < a.len() && i32_of(a[i + 1]) is Some {
            i32_of(a[i + 1])
        } else {
            last_i32(a, "--year"@, i as int)
        }));
        assert(last_u32(a, "--month"@, i + 1) == (if a[i as int] == "--month"@ && i + 1 < a.len() && u32_of(a[i + 1]) is Some {
            u32_of(a[i + 1])
        } else {
            last_u32(a, "--month"@, i as int)
        }));
        assert(last_u32(a, "--day"@, i + 1) == (if a[i as int] == "--day"@ && i + 1 < a.len() && u32_of(a[i + 1]) is Some {
            u32_of(a[i + 1])
        } else {
            last_u32(a, "--day"@, i as int)
        }));
        assert(last_u32(a, "--hour"@, i + 1) == (if a[i as int] == "--hour"@ && i + 1 < a.len() && u32_of(a[i + 1]) is Some {
            u32_of(a[i + 1])
        } else {
            last_u32(a, "--hour"@, i as int)
        }));
        assert(last_u32(a, "--min"@, i + 1) == (if a[i as int] == "--min"@ && i + 1 < a.len() && u32_of(a[i + 1]) is Some {
            u32_of(a[i + 1])
        } else {
            last_u32(a, "--min"@, i as int)
        }));
        assert(last_u32(a, "--sec"@, i + 1) == (if a[i as int] == "--sec"@ && i + 1 < a.len() && u32_of(a[i + 1]) is Some {
            u32_of(a[i + 1])
        } else {
            last_u32(a, "--sec"@, i as int)
        }));
        if same_text(arg, "--sec") {
            t.named = true;
            if let Some(v) = garg_u32(args, i + 1) {
                t.sec = v;
            }
        } else if same_text(arg, "--min") {
            t.named = true;
            if let Some(v) = garg_u32(args, i + 1) {
                t.min = v;
            }
        } else if same_text(arg, "--hour") {
            t.named = true;
            if let Some(v) = garg_u32(args, i + 1) {
                t.hour = v;
            }
        } else if same_text(arg, "--day") {
            t.named = true;
            if let Some(v) = garg_u32(args, i + 1) {
                t.day = v;
            }
        } else if same_text(arg, "--month") {
            t.named = true;
            if let Some(v) = garg_u32(args, i + 1) {
                t.month = v;
            }
        } else if same_text(arg, "--year") {
            t.named = true;
            if let Some(v) = garg_i32(args, i + 1) {
                t.year = v;
            }
        }
        i = i + 1;
    }
    proof {
        if t.named {
            let j = choose|j: int| 0 <= j < args.len() && (a[j] == "--sec"@ || a[j] == "--min"@ || a[j] == "--hour"@
                || a[j] == "--day"@ || a[j] == "--month"@ || a[j] == "--year"@);
            assert(a[j] == "--sec"@ ==> has_flag(a, "--sec"@));
            assert(a[j] == "--min"@ ==> has_flag(a, "--min"@));
            assert(a[j] == "--hour"@ ==> has_flag(a, "--hour"@));
            assert(a[j] == "--day"@ ==> has_flag(a, "--day"@));
            assert(a[j] == "--month"@ ==> has_flag(a, "--month"@));
            assert(a[j] == "--year"@ ==> has_flag(a, "--year"@));
        }
    }
    t
}

impl DateTime {
    /// The point of this machine's time zone that the calendar flags give,
    /// missing fields being 0; `None` when no such flag is given, or the fields
    /// name no valid date and time, or no single local instant.
    pub fn from_args(args: &Vec<String>) -> (r: Option<DateTime>)
        ensures
            given_point(texts(args@), r),
    {
        let t = time_args(args);
        if !t.named {
            return None;
        }
        DateTime::from_ymd_hms(t.year, t.month, t.day, t.hour, t.min, t.sec)
    }
}

impl Duration {
    /// The duration that the calendar flags give, missing fields being 0; `None`
    /// when no such flag is given.
    pub fn from_args(args: &Vec<String>) -> (r: Option<Duration>)
        ensures
            r is Some <==> names_time(texts(args@)),
            r matches Some(d) ==> {
                let f = time_fields(texts(args@));
                &&& d.year == f.0 && d.month == f.1 && d.day == f.2
                &&& d.hour == f.3 && d.min == f.4 && d.sec == f.5
                &&& d.total_sec == fixed_seconds(f.2, f.3, f.4, f.5)
            },
    {
        let t = time_args(args);
        if !t.named {
            return None;
        }
        Some(Duration::new(t.year, t.month, t.day, t.hour, t.min, t.sec))
    }
}

} // verus!

verus! {

/// The index of the last `flag` among the first `n` arguments that is followed by a value.
pub open spec fn last_valued_index(a: Seq<Seq<char>>, flag: Seq<char>, n: int) -> Option<int>
    decreases n,
{
    if n <= 0 {
        None
    } else if a[n - 1] == flag && n < a.len() {
        Some(n - 1)
    } else {
        last_valued_index(a, flag, n - 1)
    }
}

/// The value after the last `flag` that is followed by one.
pub open spec fn last_value(a: Seq<Seq<char>>, flag: Seq<char>) -> Option<Seq<char>> {
    match last_valued_index(a, flag, a.len() as int) {
        Some(i) => Some(a[i + 1]),
        None => None,
    }
}

/// The value after the last `flag`: `Some(None)` when that `flag` ends the arguments.
pub open spec fn last_setting(a: Seq<Seq<char>>, flag: Seq<char>) -> Option<Option<Seq<char>>> {
    match last_index(a, flag, a.len() as int) {
        Some(i) => Some(value_after(a, i)),
        None => None,
    }
}

pub open spec fn policy_flag(f: Seq<char>) -> Option<DoIfRunning> {
    if f == "--rest-ir"@ {
        Some(DoIfRunning::Restart)
    } else if f == "--stop-ir"@ {
        Some(DoIfRunning::Stop)
    } else if f == "--cont-ir"@ {
        Some(DoIfRunning::Continue)
    } else if f == "--stne-ir"@ {
        Some(DoIfRunning::StartNew)
    } else {
        None
    }
}

/// The policy named by the last policy flag among the first `n` arguments.
pub open spec fn last_policy(a: Seq<Seq<char>>, n: int) -> Option<DoIfRunning>
    decreases n,
{
    if n <= 0 {
        None
    } else {
        match policy_flag(a[n - 1]) {
            Some(p) => Some(p),
            None => last_policy(a, n - 1),
        }
    }
}

/// The logger named by the last logger flag among the first `n` arguments:
/// `Some(Some(path))` for a file, `Some(None)` for none.
pub open spec fn last_logger(a: Seq<Seq<char>>, n: int) -> Option<Option<Seq<char>>>
    decreases n,
{
    if n <= 0 {
        None
    } else if a[n - 1] == "--log-file"@ {
        Some(value_after(a, n - 1))
    } else if a[n - 1] == "--log-off"@ {
        Some(None)
    } else {
        last_logger(a, n - 1)
    }
}

impl Status {
    /// `Paused` when `--paused` is given, else `Pending`.
    pub fn from_args(args: &Vec<String>) -> (r: Status)
        ensures
            r == (if has_flag(texts(args@), "--paused"@) { Status::Paused } else { Status::Pending }),
    {
        let mut i: usize = 0;
        while i < args.len()
            invariant
                i <= args.len(),
                forall|j: int| 0 <= j < i ==> texts(args@)[j] != "--paused"@,
            decreases args.len() - i,
        {
            if same_text(args[i].as_str(), "--paused") {
                assert(texts(args@)[i as int] == "--paused"@);
                return Status::Paused;
            }
            i = i + 1;
        }
        Status::Pending
    }
}

impl DoIfRunning {
    /// The policy of the last policy flag, `StartNew` when there is none.
    pub fn from_args(args: &Vec<String>) -> (r: DoIfRunning)
        ensures
            r == (match last_policy(texts(args@), args@.len() as int) {
                Some(p) => p,
                None => DoIfRunning::StartNew,
            }),
    {
        let ghost a = texts(args@);
        let mut found: Option<DoIfRunning> = None;
        let mut i: usize = 0;
        while i < args.len()
            invariant
                a == texts(args@),
                i <= args.len(),
                found == last_policy(a, i as int),
            decreases args.len() - i,
        {
            let arg = args[i].as_str();
            assert(a[i as int] == arg@);
            if same_text(arg, "--rest-ir") {
                found = Some(DoIfRunning::Restart);
            } else if same_text(arg, "--stop-ir") {
                found = Some(DoIfRunning::Stop);
            } else if same_text(arg, "--cont-ir") {
                found = Some(DoIfRunning::Continue);
            } else if same_text(arg, "--stne-ir") {
                found = Some(DoIfRunning::StartNew);
            }
            i = i + 1;
        }
        match found {
            Some(p) => p,
            None => DoIfRunning::StartNew,
        }
    }
}

impl Logger {
    /// The logger of the last logger flag: a file after `--log-file` (none when
    /// the path is missing), none after `--log-off`, the default otherwise.
    pub fn from_args(args: &Vec<String>) -> (r: Logger)
        ensures
            match last_logger(texts(args@), args@.len() as int) {
                None => r is Default,
                Some(None) => r is Off,
                Some(Some(path)) => r matches Logger::File(f) && f@ == path,
            },
    {
        let ghost a = texts(args@);
        let mut logger = Logger::Default;
        let mut i: usize = 0;
        while i < args.len()
            invariant
                a == texts(args@),
                i <= args.len(),
                match last_logger(a, i as int) {
                    None => logger is Default,
                    Some(None) => logger is Off,
                    Some(Some(path)) => logger matches Logger::File(f) && f@ == path,
                },
            decreases args.len() - i,
        {
            let arg = args[i].as_str();
            assert(a[i as int] == arg@);
            if same_text(arg, "--log-file") {
                logger = match garg(args, i + 1) {
                    Some(path) => Logger::File(path),
                    None => Logger::Off,
                };
            } else if same_text(arg, "--log-off") {
                logger = Logger::Off;
            }
            i = i + 1;
        }
        logger
    }
}

impl Entry {
    /// An entry from its parts, named by the last `--name` value (or the
    /// default name); fails when the arguments end with `--name`.
    pub fn from_args(
        args: &Vec<String>,
        trigger: Trigger,
        logger: Logger,
        action: Action,
        do_if_running: DoIfRunning,
        status: Status,
    ) -> (r: Result<Entry, RtodoError>)
        ensures
            r is Err <==> (args@.len() > 0 && texts(args@).last() == "--name"@),
            r matches Err(e) ==> e.kind == ErrorKind::InvalidArgument,
            r matches Ok(e) ==> {
                &&& e.id == 0 && e.enabled
                &&& e.trigger == trigger && e.logger == logger && e.action == action
                &&& e.do_if_running == do_if_running && e.status == status
                &&& e.name@ == (match last_value(texts(args@), "--name"@) {
                    Some(v) => v,
                    None => "Not impled"@,
                })
            },
    {
        let ghost a = texts(args@);
        let mut entry = Entry::new(trigger, logger, action, do_if_running, status);
        entry.name = random_name();
        let mut i: usize = 0;
        while i < args.len()
            invariant
                a == texts(args@),
                i <= args.len(),
                forall|j: int| 0 <= j < i ==> (a[j] == "--name"@ ==> j + 1 < a.len()),
                entry.id == 0 && entry.enabled,
                entry.trigger == trigger && entry.logger == logger && entry.action == action,
                entry.do_if_running == do_if_running && entry.status == status,
                entry.name@ == (match last_valued_index(a, "--name"@, i as int) {
                    Some(k) => a[k + 1],
                    None => "Not impled"@,
                }),
            decreases args.len() - i,
        {
            let arg = args[i].as_str();
            assert(a[i as int] == arg@);
            if same_text(arg, "--name") {
                match garg(args, i + 1) {
                    Some(name) => {
                        entry.name = name;
                    },
                    None => {
                        return Err(RtodoError::with_kind(ErrorKind::InvalidArgument, "Invalid argument"));
                    },
                }
            }
            i = i + 1;
        }
        proof {
            if args@.len() > 0 {
                assert(a.last() == a[a.len() - 1]);
            }
        }
        Ok(entry)
    }
}

} // verus!

verus! {

/// Which timer flag an argument is: 1 for `--repeat`, 2 for `--once`, 3 for `--never`.
pub open spec fn timer_flag(f: Seq<char>) -> int {
    if f == "--repeat"@ {
        1
    } else if f == "--once"@ {
        2
    } else if f == "--never"@ {
        3
    } else {
        0
    }
}

/// The last timer flag among the first `n` arguments, 0 when there is none.
pub open spec fn last_timer_flag(a: Seq<Seq<char>>, n: int) -> int
    decreases n,
{
    if n <= 0 {
        0
    } else if timer_flag(a[n - 1]) != 0 {
        timer_flag(a[n - 1])
    } else {
        last_timer_flag(a, n - 1)
    }
}

/// The duration that the calendar flags give, one day when none is given.
pub open spec fn args_duration(a: Seq<Seq<char>>) -> Duration {
    if names_time(a) {
        let f = time_fields(a);
        Duration {
            year: f.0 as i32,
            month: f.1 as u32,
            day: f.2 as u32,
            hour: f.3 as u32,
            min: f.4 as u32,
            sec: f.5 as u32,
            total_sec: fixed_seconds(f.2, f.3, f.4, f.5) as u64,
        }
    } else {
        Duration { year: 0, month: 0, day: 1, hour: 0, min: 0, sec: 0, total_sec: 86400 }
    }
}

/// `g` is what the calendar flags give as a local point: none unless a flag is
/// given and the fields name a valid date and time; else a local point with
/// those fields, when the machine's zone has a single instant for them.
pub open spec fn given_point(a: Seq<Seq<char>>, g: Option<DateTime>) -> bool {
    let f = time_fields(a);
    &&& !(names_time(a) && valid_date_time(f.0, f.1, f.2, f.3, f.4, f.5) && year_in_range(f.0)) ==> g is None
    &&& g matches Some(p) ==> (p.wf() && p.time_zone == TimeZone::Local && DateTime::has_fields(p, f))
}

/// The point that the calendar flags gave, else one day after `now`.
pub open spec fn args_point(now: Option<DateTime>, given: Option<DateTime>) -> Option<DateTime> {
    match given {
        Some(p) => Some(p),
        None => after(now, Duration::spec_one_day()),
    }
}

/// The timer that the arguments give at instant `now`: none unless `--repeat` or
/// `--once` is given; otherwise the last timer flag decides. A `--once` whose
/// point cannot be computed gives `Never`.
pub open spec fn args_timer(a: Seq<Seq<char>>, now: Option<DateTime>, given: Option<DateTime>) -> Option<Timer> {
    if !(has_flag(a, "--repeat"@) || has_flag(a, "--once"@)) {
        None
    } else if last_timer_flag(a, a.len() as int) == 1 {
        Some(Timer::Repeat(args_duration(a)))
    } else if last_timer_flag(a, a.len() as int) == 2 {
        match args_point(now, given) {
            Some(p) => Some(Timer::Once(p)),
            None => Some(Timer::Never),
        }
    } else {
        Some(Timer::Never)
    }
}

pub open spec fn args_trigger(a: Seq<Seq<char>>, now: Option<DateTime>, given: Option<DateTime>) -> Trigger {
    match args_timer(a, now, given) {
        Some(t) => Trigger::Timer(t),
        None => Trigger::Nothing,
    }
}

impl Timer {
    fn timer_when(args: &Vec<String>, now: Option<DateTime>) -> (r: Option<Timer>)
        ensures
            exists|given: Option<DateTime>| given_point(texts(args@), given) && r == args_timer(texts(args@), now, given),
    {
        let ghost a = texts(args@);
        let mut last: u8 = 0;
        let mut given = false;
        let mut i: usize = 0;
        while i < args.len()
            invariant
                a == texts(args@),
                i <= args.len(),
                last as int == last_timer_flag(a, i as int),
                given == exists|j: int| 0 <= j < i && (a[j] == "--repeat"@ || a[j] == "--once"@),
            decreases args.len() - i,
        {
            let arg = args[i].as_str();
            assert(a[i as int] == arg@);
            if same_text(arg, "--repeat") {
                given = true;
                last = 1;
            } else if same_text(arg, "--once") {
                given = true;
                last = 2;
            } else if same_text(arg, "--never") {
                last = 3;
            }
            i = i + 1;
        }
        proof {
            if given {
                let j = choose|j: int| 0 <= j < a.len() && (a[j] == "--repeat"@ || a[j] == "--once"@);
                assert(a[j] == "--repeat"@ ==> has_flag(a, "--repeat"@));
                assert(a[j] == "--once"@ ==> has_flag(a, "--once"@));
            } else {
                assert(!has_flag(a, "--repeat"@));
                assert(!has_flag(a, "--once"@));
            }
        }
        let ghost none: Option<DateTime> = None;
        if !given {
            assert(given_point(a, none) && args_timer(a, now, none) is None);
            return None;
        }
        if last == 1 {
            let d = match Duration::from_args(args) {
                Some(d) => d,
                None => Duration::one_day(),
            };
            let r = Some(Timer::Repeat(d));
            assert(given_point(a, none) && r == args_timer(a, now, none));
            r
        } else if last == 2 {
            let given = DateTime::from_args(args);
            let p = match given {
                Some(p) => Some(p),
                None => match now {
                    Some(n) => n.add(Duration::one_day()),
                    None => None,
                },
            };
            let r = match p {
                Some(p) => Some(Timer::Once(p)),
                None => Some(Timer::Never),
            };
            assert(given_point(texts(args@), given) && r == args_timer(texts(args@), now, given));
            r
        } else {
            let r = Some(Timer::Never);
            assert(given_point(a, none) && r == args_timer(a, now, none));
            r
        }
    }

    /// The timer that the arguments give, with `now` as the current instant.
    pub fn from_args_at(args: &Vec<String>, now: &DateTime) -> (r: Option<Timer>)
        ensures
            exists|given: Option<DateTime>| given_point(texts(args@), given) && r == args_timer(texts(args@), Some(*now), given),
    {
        Timer::timer_when(args, Some(*now))
    }

    /// The timer that the arguments give, a default `--once` point being one day from now.
    pub fn from_args(args: &Vec<String>) -> (r: Option<Timer>)
        ensures
            exists|now: Option<DateTime>, given: Option<DateTime>|
                clock_reading(now) && given_point(texts(args@), given) && r == args_timer(texts(args@), now, given),
    {
        Timer::timer_when(args, DateTime::now())
    }
}

impl Trigger {
    /// The trigger that the arguments give, with `now` as the current instant.
    pub fn from_args_at(args: &Vec<String>, now: &DateTime) -> (r: Trigger)
        ensures
            exists|given: Option<DateTime>| given_point(texts(args@), given) && r == args_trigger(texts(args@), Some(*now), given),
    {
        match Timer::from_args_at(args, now) {
            Some(t) => Trigger::Timer(t),
            None => Trigger::Nothing,
        }
    }

    /// A timer trigger when the arguments give a timer, else none.
    pub fn from_args(args: &Vec<String>) -> (r: Trigger)
        ensures
            exists|now: Option<DateTime>, given: Option<DateTime>|
                clock_reading(now) && given_point(texts(args@), given) && r == args_trigger(texts(args@), now, given),
    {
        let t = Timer::from_args(args);
        let ghost (now, given) = choose|now: Option<DateTime>, given: Option<DateTime>|
            clock_reading(now) && given_point(texts(args@), given) && t == args_timer(texts(args@), now, given);
        let r = match t {
            Some(t) => Trigger::Timer(t),
            None => Trigger::Nothing,
        };
        assert(r == args_trigger(texts(args@), now, given));
        r
    }
}

} // verus!

verus! {

/// The `NAME=VALUE` pairs among `ws`, in order; words without `=` are skipped.
pub open spec fn env_pairs(ws: Seq<Seq<char>>) -> Seq<(Seq<char>, Seq<char>)>
    decreases ws.len(),
{
    if ws.len() == 0 {
        Seq::empty()
    } else {
        env_pairs(ws.drop_last()) + match split_once_at(ws.last(), '=') {
            Some(p) => seq![p],
            None => Seq::empty(),
        }
    }
}

pub open spec fn pair_texts(v: Seq<(String, String)>) -> Seq<(Seq<char>, Seq<char>)> {
    v.map_values(|p: (String, String)| (p.0@, p.1@))
}

/// The first account at or after `from` named `name`.
pub open spec fn first_user(users: Seq<UnixUser>, name: Seq<char>, from: int) -> Option<int>
    decreases users.len() - from,
{
    if from < 0 || from >= users.len() {
        None
    } else if users[from].username@ == name {
        Some(from)
    } else {
        first_user(users, name, from + 1)
    }
}

/// `u` is the first account of `users` named `name`, or none when there is none.
pub open spec fn user_is(u: Option<SystemUser>, users: Seq<UnixUser>, name: Seq<char>) -> bool {
    match first_user(users, name, 0) {
        None => u is None,
        Some(k) => u matches Some(SystemUser::Unix(x)) && x.uid == users[k].uid && x.gid == users[k].gid
            && x.username@ == name,
    }
}

/// `e` is the command that the arguments describe, accounts being looked up in `users`.
pub open spec fn execute_from(e: Execute, a: Seq<Seq<char>>, users: Seq<UnixUser>) -> bool {
    &&& last_value(a, "--exec"@) == Some(e.executable@)
    &&& match last_value(a, "--env"@) {
        None => e.env is None,
        Some(v) => e.env matches Some(p) && pair_texts(p@) == env_pairs(words(v)),
    }
    &&& match last_setting(a, "--args"@) {
        Some(Some(v)) => e.args matches Some(x) && texts(x@) == split_on(v, ' '),
        _ => e.args is None,
    }
    &&& match last_setting(a, "--dir"@) {
        Some(Some(v)) => e.working_dir matches Some(d) && d@ == v,
        _ => e.working_dir is None,
    }
    &&& match last_setting(a, "--username"@) {
        Some(Some(v)) => user_is(e.user, users, v),
        _ => e.user is None,
    }
}

/// The action that the arguments describe: a command when `--exec` has a value.
pub open spec fn action_from(act: Action, a: Seq<Seq<char>>, users: Seq<UnixUser>) -> bool {
    match last_value(a, "--exec"@) {
        None => act is Nothing,
        Some(_) => act matches Action::Exec(e) && execute_from(e, a, users),
    }
}

/// Relies on sysinfo's `System::users`, after refreshing the list of users: the
/// accounts of this machine, as the system reports them at the time of the call.
#[verifier::external_body]
fn system_users() -> (r: Vec<UnixUser>) {
    let info = sysinfo::System::new_with_specifics(sysinfo::RefreshKind::new().with_users_list());
    info.users().iter().map(|u| UnixUser { uid: **u.id(), gid: *u.group_id(), username: u.name().to_string() }).collect()
}

impl SystemUser {
    /// The first account of `users` named `name`.
    pub fn lookup(name: &String, users: &Vec<UnixUser>) -> (r: Option<SystemUser>)
        ensures
            user_is(r, users@, name@),
    {
        let mut i: usize = 0;
        while i < users.len()
            invariant
                i <= users.len(),
                first_user(users@, name@, 0) == first_user(users@, name@, i as int),
            decreases users.len() - i,
        {
            if *name == users[i].username {
                return Some(SystemUser::Unix(UnixUser { uid: users[i].uid, gid: users[i].gid, username: name.clone() }));
            }
            i = i + 1;
        }
        None
    }

    /// The account of this machine named `un`, if there is one.
    pub fn from_un(un: Option<String>) -> (r: Option<SystemUser>)
        ensures
            un is None ==> r is None,
            un matches Some(n) ==> exists|users: Seq<UnixUser>| user_is(r, users, n@),
    {
        match un {
            Some(n) => {
                let users = system_users();
                SystemUser::lookup(&n, &users)
            },
            None => None,
        }
    }
}

/// The pairs of an `--env` value.
fn env_from(v: &String) -> (r: Vec<(String, String)>)
    ensures
        pair_texts(r@) == env_pairs(words(v@)),
{
    let ws = split_words(v.as_str());
    let mut pairs: Vec<(String, String)> = Vec::new();
    let mut i: usize = 0;
    while i < ws.len()
        invariant
            i <= ws.len(),
            texts(ws@) == words(v@),
            pair_texts(pairs@) == env_pairs(texts(ws@).subrange(0, i as int)),
        decreases ws.len() - i,
    {
        let ghost pre = texts(ws@).subrange(0, i as int);
        let ghost next = texts(ws@).subrange(0, i + 1);
        assert(next.drop_last() =~= pre);
        assert(next.last() == ws@[i as int]@);
        match split_first(ws[i].as_str(), '=') {
            Some(p) => {
                pairs.push(p);
                assert(pair_texts(pairs@) =~= env_pairs(next));
            },
            None => {
                assert(pair_texts(pairs@) =~= env_pairs(next));
            },
        }
        i = i + 1;
    }
    assert(texts(ws@).subrange(0, ws.len() as int) =~= texts(ws@));
    pairs
}

proof fn lemma_exec_flags_differ()
    ensures
        "--exec"@ != "--env"@ && "--exec"@ != "--args"@ && "--exec"@ != "--dir"@ && "--exec"@ != "--username"@,
        "--env"@ != "--args"@ && "--env"@ != "--dir"@ && "--env"@ != "--username"@,
        "--args"@ != "--dir"@ && "--args"@ != "--username"@,
        "--dir"@ != "--username"@,
{
    reveal_strlit("--exec");
    reveal_strlit("--env");
    reveal_strlit("--args");
    reveal_strlit("--dir");
    reveal_strlit("--username");
    assert("--exec"@.len() == 6 && "--env"@.len() == 5 && "--args"@.len() == 6 && "--dir"@.len() == 5);
    assert("--exec"@[2] == 'e' && "--env"@[2] == 'e' && "--args"@[2] == 'a' && "--dir"@[2] == 'd');
    assert("--username"@.len() == 10);
}

impl Execute {
    /// The command that the arguments describe, accounts being looked up in
    /// `users`; `None` unless `--exec` has a value.
    pub fn from_args_with(args: &Vec<String>, users: &Vec<UnixUser>) -> (r: Option<Execute>)
        ensures
            r is Some <==> last_value(texts(args@), "--exec"@) is Some,
            r matches Some(e) ==> execute_from(e, texts(args@), users@),
    {
        let ghost a = texts(args@);
        let mut exe: Option<String> = None;
        let mut env: Option<Vec<(String, String)>> = None;
        let mut xargs: Option<Vec<String>> = None;
        let mut dir: Option<String> = None;
        let mut user: Option<SystemUser> = None;
        let mut i: usize = 0;
        while i < args.len()
            invariant
                a == texts(args@),
                i <= args.len(),
                match last_valued_index(a, "--exec"@, i as int) {
                    Some(k) => exe matches Some(x) && x@ == a[k + 1],
                    None => exe is None,
                },
                match last_valued_index(a, "--env"@, i as int) {
                    Some(k) => env matches Some(p) && pair_texts(p@) == env_pairs(words(a[k + 1])),
                    None => env is None,
                },
                match last_index(a, "--args"@, i as int) {
                    Some(k) => match value_after(a, k) {
                        Some(v) => xargs matches Some(x) && texts(x@) == split_on(v, ' '),
                        None => xargs is None,
                    },
                    None => xargs is None,
                },
                match last_index(a, "--dir"@, i as int) {
                    Some(k) => match value_after(a, k) {
                        Some(v) => dir matches Some(d) && d@ == v,
                        None => dir is None,
                    },
                    None => dir is None,
                },
                match last_index(a, "--username"@, i as int) {
                    Some(k) => match value_after(a, k) {
                        Some(v) => user_is(user, users@, v),
                        None => user is None,
                    },
                    None => user is None,
                },
            decreases args.len() - i,
        {
            proof {
                lemma_exec_flags_differ();
            }
            let arg = args[i].as_str();
            assert(a[i as int] == arg@);
            assert(i + 1 < args.len() ==> a[i + 1] == args@[i + 1]@);
            if same_text(arg, "--exec") {
                if let Some(v) = garg(args, i + 1) {
                    exe = Some(v);
                }
            } else if same_text(arg, "--env") {
                if let Some(v) = garg(args, i + 1) {
                    env = Some(env_from(&v));
                }
            } else if same_text(arg, "--args") {
                xargs = match garg(args, i + 1) {
                    Some(v) => Some(split_by(v.as_str(), ' ')),
                    None => None,
                };
            } else if same_text(arg, "--dir") {
                dir = garg(args, i + 1);
            } else if same_text(arg, "--username") {
                user = match garg(args, i + 1) {
                    Some(v) => SystemUser::lookup(&v, users),
                    None => None,
                };
            }
            i = i + 1;
        }
        match exe {
            Some(executable) => Some(Execute { env, working_dir: dir, executable, user, args: xargs }),
            None => None,
        }
    }

    /// The command that the arguments describe, accounts being those of this machine.
    pub fn from_args(args: &Vec<String>) -> (r: Option<Execute>)
        ensures
            r is Some <==> last_value(texts(args@), "--exec"@) is Some,
            r matches Some(e) ==> exists|users: Seq<UnixUser>| execute_from(e, texts(args@), users),
    {
        let users = if has_arg(args, "--username") { system_users() } else { Vec::new() };
        Execute::from_args_with(args, &users)
    }
}

impl Action {
    /// A command when `--exec` has a value, else nothing; accounts are looked up in `users`.
    pub fn from_args_with(args: &Vec<String>, users: &Vec<UnixUser>) -> (r: Action)
        ensures
            action_from(r, texts(args@), users@),
    {
        match Execute::from_args_with(args, users) {
            Some(e) => Action::Exec(e),
            None => Action::Nothing,
        }
    }

    /// A command when `--exec` has a value, else nothing.
    pub fn from_args(args: &Vec<String>) -> (r: Action)
        ensures
            exists|users: Seq<UnixUser>| action_from(r, texts(args@), users),
    {
        let users = if has_arg(args, "--username") { system_users() } else { Vec::new() };
        Action::from_args_with(args, &users)
    }
}

} // verus!

verus! {

/// The kinds of operation of the command line.
#[derive(Clone, Copy, Debug, PartialEq, Eq, Structural)]
pub enum OperationType {
    Add,
    Delete,
    Start,
    Pause,
    StartDaemon,
    StopDaemon,
    List,
    Detail,
    Help,
    Version,
}

/// An operation asked for on the command line.
#[derive(Clone, Debug)]
pub enum Operation {
    Add(Entry),
    Delete(EntryIdentifier),
    Start(EntryIdentifier),
    Pause(EntryIdentifier),
    StartDaemon(),
    StopDaemon(),
    List(),
    Detail(EntryIdentifier),
    Help(Option<OperationType>),
    Version,
}

/// Help text for a group of command-line flags.
pub trait CommandHelp {
    fn cmd_help() -> String;
}

impl CommandHelp for DoIfRunning {
    fn cmd_help() -> String {
        "--rest-ir: Restart if work is running\n--stop-ir: Stop if work is running\n--cont-ir: Continue if work is running\n--stne-ir: Start new if work is running\n".to_owned()
    }
}

/// The kind of operation that a command word names.
pub open spec fn command_of(w: Seq<char>) -> Option<OperationType> {
    if w == "add"@ {
        Some(OperationType::Add)
    } else if w == "delete"@ {
        Some(OperationType::Delete)
    } else if w == "start"@ {
        Some(OperationType::Start)
    } else if w == "pause"@ {
        Some(OperationType::Pause)
    } else if w == "start-daemon"@ {
        Some(OperationType::StartDaemon)
    } else if w == "stop-daemon"@ {
        Some(OperationType::StopDaemon)
    } else if w == "list"@ {
        Some(OperationType::List)
    } else if w == "detail"@ {
        Some(OperationType::Detail)
    } else if w == "help"@ {
        Some(OperationType::Help)
    } else if w == "version"@ {
        Some(OperationType::Version)
    } else {
        None
    }
}

/// `id` names an entry by the number that `t` writes, or else by `t` itself.
pub open spec fn identifier_is(id: EntryIdentifier, t: Seq<char>) -> bool {
    match u32_of(t) {
        Some(n) => id matches EntryIdentifier::Id(m) && m == n,
        None => id matches EntryIdentifier::Name(s) && s@ == t,
    }
}

/// The kinds of operation that act on one entry.
pub open spec fn targets_entry(k: OperationType) -> bool {
    k == OperationType::Delete || k == OperationType::Start || k == OperationType::Pause || k == OperationType::Detail
}

/// `op` is the operation of kind `k` on the entry that `t` names.
pub open spec fn on_entry(op: Operation, k: OperationType, t: Seq<char>) -> bool {
    match k {
        OperationType::Delete => op matches Operation::Delete(id) && identifier_is(id, t),
        OperationType::Start => op matches Operation::Start(id) && identifier_is(id, t),
        OperationType::Pause => op matches Operation::Pause(id) && identifier_is(id, t),
        OperationType::Detail => op matches Operation::Detail(id) && identifier_is(id, t),
        _ => false,
    }
}

/// `e` is the entry that the arguments of `add` describe.
pub open spec fn entry_from(e: Entry, a: Seq<Seq<char>>) -> bool {
    &&& e.id == 0
    &&& e.name@ == (match last_value(a, "--name"@) {
        Some(v) => v,
        None => "Not impled"@,
    })
    &&& e.status == (if has_flag(a, "--paused"@) { Status::Paused } else { Status::Pending })
    &&& e.do_if_running == (match last_policy(a, a.len() as int) {
        Some(p) => p,
        None => DoIfRunning::StartNew,
    })
    &&& exists|now: Option<DateTime>, given: Option<DateTime>|
        clock_reading(now) && given_point(a, given) && e.trigger == args_trigger(a, now, given)
    &&& exists|users: Seq<UnixUser>| action_from(e.action, a, users)
}

/// `r` is what `add` without `--help` gives for the arguments.
pub open spec fn add_result(r: Result<Operation, RtodoError>, a: Seq<Seq<char>>) -> bool {
    &&& (r is Err <==> (a.len() > 0 && a.last() == "--name"@))
    &&& (r matches Err(e) ==> e.kind == ErrorKind::InvalidArgument)
    &&& (r matches Ok(op) ==> (op matches Operation::Add(e) && entry_from(e, a)))
}

/// `r` is what a command of kind `k` on one entry gives for the arguments.
pub open spec fn entry_command_result(r: Result<Operation, RtodoError>, k: OperationType, a: Seq<Seq<char>>) -> bool {
    if has_flag(a, "--help"@) {
        r matches Ok(Operation::Help(Some(h))) && h == k
    } else if a.len() < 3 {
        r matches Err(e) && e.kind == ErrorKind::InvalidArgument
    } else {
        r matches Ok(op) && on_entry(op, k, a[2])
    }
}

/// `r` is the operation that the arguments ask for.
pub open spec fn operation_result(r: Result<Operation, RtodoError>, a: Seq<Seq<char>>) -> bool {
    let help = has_flag(a, "--help"@);
    match command_of(a[1]) {
        Some(OperationType::Add) => if help {
            r matches Ok(Operation::Help(Some(OperationType::Add)))
        } else {
            add_result(r, a)
        },
        Some(OperationType::StartDaemon) => r matches Ok(Operation::StartDaemon()),
        Some(OperationType::StopDaemon) => r matches Ok(Operation::StopDaemon()),
        Some(OperationType::List) => r matches Ok(Operation::List()),
        Some(OperationType::Version) => r matches Ok(Operation::Version),
        Some(OperationType::Help) => if help {
            r matches Ok(Operation::Help(Some(OperationType::Help)))
        } else {
            r matches Ok(Operation::Help(None))
        },
        Some(k) => entry_command_result(r, k, a),
        None => r matches Ok(Operation::Help(None)),
    }
}

fn identifier(t: &String) -> (r: EntryIdentifier)
    ensures
        identifier_is(r, t@),
{
    match parse_u32(t.as_str()) {
        Some(n) => EntryIdentifier::Id(n),
        None => EntryIdentifier::Name(t.clone()),
    }
}

fn command(w: &str) -> (r: Option<OperationType>)
    ensures
        r == command_of(w@),
{
    if same_text(w, "add") {
        Some(OperationType::Add)
    } else if same_text(w, "delete") {
        Some(OperationType::Delete)
    } else if same_text(w, "start") {
        Some(OperationType::Start)
    } else if same_text(w, "pause") {
        Some(OperationType::Pause)
    } else if same_text(w, "start-daemon") {
        Some(OperationType::StartDaemon)
    } else if same_text(w, "stop-daemon") {
        Some(OperationType::StopDaemon)
    } else if same_text(w, "list") {
        Some(OperationType::List)
    } else if same_text(w, "detail") {
        Some(OperationType::Detail)
    } else if same_text(w, "help") {
        Some(OperationType::Help)
    } else if same_text(w, "version") {
        Some(OperationType::Version)
    } else {
        None
    }
}

fn add_operation(args: &Vec<String>) -> (r: Result<Operation, RtodoError>)
    ensures
        add_result(r, texts(args@)),
{
    let trigger = Trigger::from_args(args);
    let logger = Logger::from_args(args);
    let action = Action::from_args(args);
    let do_if_running = DoIfRunning::from_args(args);
    let status = Status::from_args(args);
    match Entry::from_args(args, trigger, logger, action, do_if_running, status) {
        Ok(entry) => Ok(Operation::Add(entry)),
        Err(e) => Err(e),
    }
}

fn entry_operation(args: &Vec<String>, k: OperationType, help: bool) -> (r: Result<Operation, RtodoError>)
    requires
        targets_entry(k),
        help == has_flag(texts(args@), "--help"@),
    ensures
        entry_command_result(r, k, texts(args@)),
{
    if help {
        return Ok(Operation::Help(Some(k)));
    }
    if args.len() < 3 {
        return Err(RtodoError::with_kind(ErrorKind::InvalidArgument, "Invalid entry identifier"));
    }
    assert(texts(args@)[2] == args@[2]@);
    let id = identifier(&args[2]);
    match k {
        OperationType::Delete => Ok(Operation::Delete(id)),
        OperationType::Start => Ok(Operation::Start(id)),
        OperationType::Pause => Ok(Operation::Pause(id)),
        _ => Ok(Operation::Detail(id)),
    }
}

impl Operation {
    /// The operation that the arguments ask for; `args[1]` is the command word.
    /// `--help` with a command that takes arguments asks for that command's help;
    /// a command on one entry fails without the entry's identifier; `add` fails
    /// when the arguments end with `--name`; an unknown word asks for help.
    pub fn from_args(args: &Vec<String>) -> (r: Result<Operation, RtodoError>)
        requires
            args.len() >= 2,
        ensures
            operation_result(r, texts(args@)),
    {
        assert(texts(args@)[1] == args@[1]@);
        let kind = command(args[1].as_str());
        let help = check_if_help_in_args(args);
        match kind {
            Some(OperationType::Add) => if help {
                Ok(Operation::Help(Some(OperationType::Add)))
            } else {
                add_operation(args)
            },
            Some(OperationType::StartDaemon) => Ok(Operation::StartDaemon()),
            Some(OperationType::StopDaemon) => Ok(Operation::StopDaemon()),
            Some(OperationType::List) => Ok(Operation::List()),
            Some(OperationType::Version) => Ok(Operation::Version),
            Some(OperationType::Help) => if help {
                Ok(Operation::Help(Some(OperationType::Help)))
            } else {
                Ok(Operation::Help(None))
            },
            Some(k) => entry_operation(args, k, help),
            None => Ok(Operation::Help(None)),
        }
    }
}

} // verus!
