//! A job scheduler engine: entries with time triggers and actions, the work
//! state machine that fires and supervises them, and the decisions of the
//! executor and checker loops.
use vstd::prelude::*;

pub mod calendar;
pub mod cli;
pub mod daemon;
pub mod entry;
pub mod error;
pub mod laws;
pub mod reply;
pub mod text;
pub mod work;

pub use calendar::{DateTime, Duration, TimeZone};
pub use cli::{check_if_help_in_args, garg, random_name, CommandHelp, Operation, OperationType};
pub use daemon::{generate_token, token_from_digits, Config, ReqCommonData, ResCommonData, Rtodo, RtodoDaemonStatus};
pub use entry::{
    Action, DoIfRunning, Entry, EntryIdentifier, Execute, Logger, Status, SystemUser, Timer, Trigger, UnixUser,
    WindowsUser,
};
pub use error::{ErrorKind, RtodoError};
pub use reply::{ErrReply, Succ};
pub use work::{check_if_process_by_pid_alive, Decision, Process, TriggerState, Work};

verus! {

} // verus!
