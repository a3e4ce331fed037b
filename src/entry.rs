//! What a user declares: entries, their actions, triggers and policies.
use crate::calendar::{DateTime, Duration};
use vstd::prelude::*;

verus! {

/// The state of a work item.
#[derive(Clone, Copy, Debug, PartialEq, Eq, Structural)]
pub enum Status {
    Error,
    Running,
    Paused,
    Pending,
}

impl Default for Status {
    fn default() -> (r: Status)
        ensures
            r == Status::Pending,
    {
        Status::Pending
    }
}

/// When a timer fires.
#[derive(Clone, Copy, Debug, PartialEq, Eq, Structural)]
pub enum Timer {
    Repeat(Duration),
    Once(DateTime),
    ManyTimes(Duration, u32),
    Never,
}

/// The condition that makes a work item due.
#[derive(Clone, Copy, Debug, PartialEq, Eq, Structural)]
pub enum Trigger {
    Timer(Timer),
    Nothing,
}

/// What to do when a trigger fires while the work item is running.
#[derive(Clone, Copy, Debug, PartialEq, Eq, Structural)]
pub enum DoIfRunning {
    StartNew,
    Stop,
    Restart,
    Continue,
}

impl Default for DoIfRunning {
    fn default() -> (r: DoIfRunning)
        ensures
            r == DoIfRunning::StartNew,
    {
        DoIfRunning::StartNew
    }
}

/// Where an entry's output is logged.
#[derive(Clone, Debug)]
pub enum Logger {
    File(String),
    Default,
    Off,
}

impl Default for Logger {
    fn default() -> (r: Logger)
        ensures
            r is Default,
    {
        Logger::Default
    }
}

/// A Unix account that a command runs as.
#[derive(Clone, Debug)]
pub struct UnixUser {
    pub uid: u32,
    pub gid: u32,
    pub username: String,
}

/// A Windows account that a command runs as.
#[derive(Clone, Debug)]
pub struct WindowsUser {
    pub username: String,
    pub group_windows: Vec<String>,
}

/// A system account that a command runs as.
#[derive(Clone, Debug)]
pub enum SystemUser {
    Unix(UnixUser),
    Windows(WindowsUser),
}

/// An external command: executable, arguments, environment (pairs applied in
/// order), working directory and account.
#[derive(Clone, Debug)]
pub struct Execute {
    pub env: Option<Vec<(String, String)>>,
    pub working_dir: Option<String>,
    pub executable: String,
    pub user: Option<SystemUser>,
    pub args: Option<Vec<String>>,
}

/// The effect of firing an entry.
#[derive(Clone, Debug)]
pub enum Action {
    Exec(Execute),
    Nothing,
}

/// How a request names an entry.
#[derive(Clone, Debug)]
pub enum EntryIdentifier {
    Id(u32),
    Name(String),
}

/// A user-declared job.
#[derive(Clone, Debug)]
pub struct Entry {
    pub id: u32,
    pub name: String,
    pub action: Action,
    pub logger: Logger,
    pub trigger: Trigger,
    pub status: Status,
    pub do_if_running: DoIfRunning,
    pub enabled: bool,
}

impl Entry {
    /// An entry with id 0 and an empty name.
    pub fn new(trigger: Trigger, logger: Logger, action: Action, do_if_running: DoIfRunning, status: Status) -> (r: Entry)
        ensures
            r.id == 0,
            r.name@ == Seq::<char>::empty(),
            r.trigger == trigger,
            r.logger == logger,
            r.action == action,
            r.do_if_running == do_if_running,
            r.status == status,
            r.enabled,
    {
        Entry { id: 0, name: String::new(), action, logger, trigger, status, do_if_running, enabled: true }
    }
}


pub open spec fn same_user(a: SystemUser, b: SystemUser) -> bool {
    match (a, b) {
        (SystemUser::Unix(x), SystemUser::Unix(y)) => x == y,
        (SystemUser::Windows(x), SystemUser::Windows(y)) => x.username == y.username && x.group_windows@
            == y.group_windows@,
        _ => false,
    }
}

/// Two commands that launch the same way.
pub open spec fn same_execute(a: Execute, b: Execute) -> bool {
    &&& match (a.env, b.env) {
        (Some(p), Some(q)) => p@ == q@,
        (None, None) => true,
        _ => false,
    }
    &&& a.working_dir == b.working_dir
    &&& a.executable == b.executable
    &&& match (a.user, b.user) {
        (Some(u), Some(v)) => same_user(u, v),
        (None, None) => true,
        _ => false,
    }
    &&& match (a.args, b.args) {
        (Some(p), Some(q)) => p@ == q@,
        (None, None) => true,
        _ => false,
    }
}

/// Two entries that hold the same declaration.
pub open spec fn same_entry(a: Entry, b: Entry) -> bool {
    &&& a.id == b.id
    &&& a.name == b.name
    &&& match (a.action, b.action) {
        (Action::Exec(x), Action::Exec(y)) => same_execute(x, y),
        (Action::Nothing, Action::Nothing) => true,
        _ => false,
    }
    &&& a.logger == b.logger
    &&& a.trigger == b.trigger
    &&& a.status == b.status
    &&& a.do_if_running == b.do_if_running
    &&& a.enabled == b.enabled
}

/// A copy of a list of strings.
pub fn copy_texts(v: &Vec<String>) -> (r: Vec<String>)
    ensures
        r@ == v@,
{
    let mut out: Vec<String> = Vec::new();
    let mut i: usize = 0;
    while i < v.len()
        invariant
            i <= v.len(),
            out@ == v@.subrange(0, i as int),
        decreases v.len() - i,
    {
        out.push(v[i].clone());
        assert(out@ =~= v@.subrange(0, i + 1));
        i = i + 1;
    }
    assert(out@ =~= v@);
    out
}

/// A copy of a list of string pairs.
pub fn copy_pairs(v: &Vec<(String, String)>) -> (r: Vec<(String, String)>)
    ensures
        r@ == v@,
{
    let mut out: Vec<(String, String)> = Vec::new();
    let mut i: usize = 0;
    while i < v.len()
        invariant
            i <= v.len(),
            out@ == v@.subrange(0, i as int),
        decreases v.len() - i,
    {
        out.push((v[i].0.clone(), v[i].1.clone()));
        assert(out@ =~= v@.subrange(0, i + 1));
        i = i + 1;
    }
    assert(out@ =~= v@);
    out
}

fn copy_opt_text(v: &Option<String>) -> (r: Option<String>)
    ensures
        r == *v,
{
    match v {
        Some(s) => Some(s.clone()),
        None => None,
    }
}

impl SystemUser {
    /// A copy of this account.
    pub fn duplicate(&self) -> (r: SystemUser)
        ensures
            same_user(r, *self),
    {
        match self {
            SystemUser::Unix(u) => SystemUser::Unix(UnixUser { uid: u.uid, gid: u.gid, username: u.username.clone() }),
            SystemUser::Windows(w) => SystemUser::Windows(
                WindowsUser { username: w.username.clone(), group_windows: copy_texts(&w.group_windows) },
            ),
        }
    }
}

impl Execute {
    /// A copy of this command.
    pub fn duplicate(&self) -> (r: Execute)
        ensures
            same_execute(r, *self),
    {
        Execute {
            env: match &self.env {
                Some(p) => Some(copy_pairs(p)),
                None => None,
            },
            working_dir: copy_opt_text(&self.working_dir),
            executable: self.executable.clone(),
            user: match &self.user {
                Some(u) => Some(u.duplicate()),
                None => None,
            },
            args: match &self.args {
                Some(a) => Some(copy_texts(a)),
                None => None,
            },
        }
    }
}

impl Entry {
    /// A copy of this entry.
    pub fn duplicate(&self) -> (r: Entry)
        ensures
            same_entry(r, *self),
    {
        Entry {
            id: self.id,
            name: self.name.clone(),
            action: match &self.action {
                Action::Exec(e) => Action::Exec(e.duplicate()),
                Action::Nothing => Action::Nothing,
            },
            logger: match &self.logger {
                Logger::File(f) => Logger::File(f.clone()),
                Logger::Default => Logger::Default,
                Logger::Off => Logger::Off,
            },
            trigger: self.trigger,
            status: self.status,
            do_if_running: self.do_if_running,
            enabled: self.enabled,
        }
    }
}

impl Execute {
    /// The directory the command runs in: its own, else `/tmp`.
    pub fn launch_dir(&self) -> (r: String)
        ensures
            r@ == (match self.working_dir {
                Some(d) => d@,
                None => "/tmp"@,
            }),
    {
        match &self.working_dir {
            Some(d) => d.clone(),
            None => "/tmp".to_owned(),
        }
    }

    /// The command's arguments, none when it declares none.
    pub fn launch_args(&self) -> (r: Vec<String>)
        ensures
            r@ == (match self.args {
                Some(a) => a@,
                None => Seq::<String>::empty(),
            }),
    {
        match &self.args {
            Some(a) => copy_texts(a),
            None => Vec::new(),
        }
    }

    /// The command's environment pairs, applied in order; none when it declares none.
    pub fn launch_env(&self) -> (r: Vec<(String, String)>)
        ensures
            r@ == (match self.env {
                Some(p) => p@,
                None => Seq::<(String, String)>::empty(),
            }),
    {
        match &self.env {
            Some(p) => copy_pairs(p),
            None => Vec::new(),
        }
    }
}

} // verus!
