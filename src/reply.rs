//! Response bodies for failures and successes.
use vstd::prelude::*;

verus! {

/// A failure response: a code and a message.
#[derive(Clone, Debug)]
pub struct ErrReply {
    pub code: i32,
    pub msg: String,
}

impl ErrReply {
    pub fn new(code: i32, msg: &str) -> (r: ErrReply)
        ensures
            r.code == code,
            r.msg@ == msg@,
    {
        ErrReply { code, msg: msg.to_owned() }
    }
}

/// A success response: a code and data.
#[derive(Clone, Debug)]
pub struct Succ<T> {
    pub code: i32,
    pub data: T,
}

impl<T> Succ<T> {
    pub fn new(code: i32, data: T) -> (r: Succ<T>)
        ensures
            r.code == code,
            r.data == data,
    {
        Succ { code, data }
    }
}

} // verus!
