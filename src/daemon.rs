//! The daemon's configuration, its entry list and the scalars shared by its
//! activities; the work items themselves are kept beside it, one lock each.
use crate::entry::{same_entry, Entry, EntryIdentifier};
use crate::error::{ErrorKind, RtodoError};
use crate::text::same_text;
use crate::work::{initial_trigger_state, Work};
use crate::calendar::{clock_reading, DateTime};
use rand::Rng;
use vstd::prelude::*;
use vstd::string::*;

verus! {

/// Whether the daemon keeps running.
#[derive(Clone, Copy, Debug, PartialEq, Eq, Structural)]
pub enum RtodoDaemonStatus {
    Running,
    Stopped,
}

/// The persisted configuration: entries, listening address, access token.
#[derive(Clone, Debug)]
pub struct Config {
    pub entries: Vec<Entry>,
    pub address: String,
    pub token: String,
}

pub open spec fn is_lower_hex(c: char) -> bool {
    ('0' <= c <= '9') || ('a' <= c <= 'f')
}

/// Thirty-two lower-case hexadecimal digits.
pub open spec fn is_token(s: Seq<char>) -> bool {
    s.len() == 32 && forall|i: int| 0 <= i < s.len() ==> is_lower_hex(#[trigger] s[i])
}

/// Relies on rand's `thread_rng().gen_range`: a number drawn from `0..bound`.
#[verifier::external_body]
fn draw_below(bound: u8) -> (r: u8)
    requires
        bound > 0,
    ensures
        r < bound,
{
    rand::thread_rng().gen_range(0..bound)
}

/// The lower-case hexadecimal digit of `n` (below 16).
pub open spec fn hex_char(n: int) -> char {
    "0123456789abcdef"@[n]
}

/// The token written by `digits` (each below 16), one hexadecimal digit each.
pub fn token_from_digits(digits: &Vec<u8>) -> (r: String)
    requires
        forall|i: int| 0 <= i < digits@.len() ==> digits@[i] < 16,
    ensures
        r@.len() == digits@.len(),
        forall|i: int| 0 <= i < digits@.len() ==> r@[i] == hex_char(digits@[i] as int),
{
    let hex = "0123456789abcdef";
    proof {
        reveal_strlit("0123456789abcdef");
    }
    let mut token = String::new();
    let mut i: usize = 0;
    while i < digits.len()
        invariant
            i <= digits@.len(),
            hex@.len() == 16,
            hex@ == "0123456789abcdef"@,
            forall|j: int| 0 <= j < digits@.len() ==> digits@[j] < 16,
            token@.len() == i,
            forall|j: int| 0 <= j < i ==> token@[j] == hex_char(digits@[j] as int),
        decreases digits.len() - i,
    {
        let k = digits[i] as usize;
        let d = hex.substring_char(k, k + 1);
        assert(d@ =~= seq![hex@[k as int]]);
        let ghost before = token@;
        token.append(d);
        assert(forall|j: int| 0 <= j < i ==> token@[j] == before[j]);
        i = i + 1;
    }
    token
}

/// A fresh random access token: thirty-two digits drawn below 16, written in hexadecimal.
pub fn generate_token() -> (r: String)
    ensures
        is_token(r@),
        exists|ds: Seq<u8>|
            ds.len() == 32 && (forall|i: int| 0 <= i < 32 ==> ds[i] < 16) && forall|i: int|
                0 <= i < 32 ==> #[trigger] r@[i] == hex_char(ds[i] as int),
{
    let mut digits: Vec<u8> = Vec::new();
    let mut i: usize = 0;
    while i < 32
        invariant
            i <= 32,
            digits@.len() == i,
            forall|j: int| 0 <= j < i ==> digits@[j] < 16,
        decreases 32 - i,
    {
        digits.push(draw_below(16));
        i = i + 1;
    }
    let token = token_from_digits(&digits);
    proof {
        reveal_strlit("0123456789abcdef");
        assert("0123456789abcdef"@ =~= seq!['0', '1', '2', '3', '4', '5', '6', '7', '8', '9', 'a', 'b', 'c', 'd', 'e', 'f']);
        assert forall|j: int| 0 <= j < token@.len() implies is_lower_hex(#[trigger] token@[j]) by {
            let n = digits@[j] as int;
            assert(0 <= n < 16);
            assert(token@[j] == "0123456789abcdef"@[n]);
        }
    }
    token
}

/// The largest id among `s`, 0 for none.
pub open spec fn max_id(s: Seq<Entry>) -> int
    decreases s.len(),
{
    if s.len() == 0 {
        0
    } else if s.last().id > max_id(s.drop_last()) {
        s.last().id as int
    } else {
        max_id(s.drop_last())
    }
}

proof fn lemma_max_id_range(s: Seq<Entry>)
    ensures
        0 <= max_id(s) <= u32::MAX,
    decreases s.len(),
{
    if s.len() > 0 {
        lemma_max_id_range(s.drop_last());
    }
}

/// `e` is named by `ident`.
pub open spec fn identifies(ident: EntryIdentifier, e: Entry) -> bool {
    match ident {
        EntryIdentifier::Id(n) => e.id == n,
        EntryIdentifier::Name(s) => e.name@ == s@,
    }
}

/// The entries of `s` that `ident` does not name, in order.
pub open spec fn without(s: Seq<Entry>, ident: EntryIdentifier) -> Seq<Entry>
    decreases s.len(),
{
    if s.len() == 0 {
        s
    } else if identifies(ident, s.last()) {
        without(s.drop_last(), ident)
    } else {
        without(s.drop_last(), ident).push(s.last())
    }
}

/// `a` and `b` hold the same declarations, in order.
pub open spec fn same_entries(a: Seq<Entry>, b: Seq<Entry>) -> bool {
    a.len() == b.len() && forall|i: int| 0 <= i < a.len() ==> same_entry(#[trigger] a[i], b[i])
}

/// The first index at or after `from` of an entry with id `id`.
pub open spec fn index_of_id(s: Seq<Entry>, id: u32, from: int) -> Option<int>
    decreases s.len() - from,
{
    if from < 0 || from >= s.len() {
        None
    } else if s[from].id == id {
        Some(from)
    } else {
        index_of_id(s, id, from + 1)
    }
}

fn name_is(e: &Entry, ident: &EntryIdentifier) -> (r: bool)
    ensures
        r == identifies(*ident, *e),
{
    match ident {
        EntryIdentifier::Id(n) => e.id == *n,
        EntryIdentifier::Name(s) => same_text(e.name.as_str(), s.as_str()),
    }
}

impl Default for Config {
    fn default() -> (r: Config)
        ensures
            r.entries@.len() == 0,
            r.address@ == "0.0.0.0:6472"@,
            is_token(r.token@),
    {
        Config { entries: Vec::new(), address: "0.0.0.0:6472".to_owned(), token: generate_token() }
    }
}

impl Config {
    /// Appends a copy of `entry` under id `id`.
    pub fn add_entry(&mut self, entry: &Entry, id: u32)
        ensures
            final(self).entries@.len() == old(self).entries@.len() + 1,
            forall|i: int| 0 <= i < old(self).entries@.len() ==> final(self).entries@[i] == old(self).entries@[i],
            same_entry(final(self).entries@.last(), Entry { id, ..*entry }),
            final(self).address == old(self).address,
            final(self).token == old(self).token,
    {
        let mut e = entry.duplicate();
        e.id = id;
        self.entries.push(e);
    }

    /// The id for a new entry: one more than the largest id in use.
    pub fn next_id(&self) -> (r: Result<u32, RtodoError>)
        ensures
            max_id(self.entries@) < u32::MAX ==> r == Ok::<u32, RtodoError>((max_id(self.entries@) + 1) as u32),
            max_id(self.entries@) >= u32::MAX ==> (r matches Err(e) && e.kind == ErrorKind::IdExhausted),
    {
        let mut m: u32 = 0;
        let mut i: usize = 0;
        while i < self.entries.len()
            invariant
                i <= self.entries.len(),
                m == max_id(self.entries@.subrange(0, i as int)),
            decreases self.entries.len() - i,
        {
            let ghost pre = self.entries@.subrange(0, i as int);
            assert(self.entries@.subrange(0, i + 1).drop_last() =~= pre);
            if self.entries[i].id > m {
                m = self.entries[i].id;
            }
            i = i + 1;
        }
        assert(self.entries@.subrange(0, self.entries.len() as int) =~= self.entries@);
        if m == u32::MAX {
            Err(RtodoError::with_kind(ErrorKind::IdExhausted, "no entry id is left"))
        } else {
            Ok(m + 1)
        }
    }

    /// Removes every entry that `ident` names; fails when there is none.
    pub fn delete_entry(&mut self, ident: &EntryIdentifier) -> (r: Result<(), RtodoError>)
        ensures
            without(old(self).entries@, *ident).len() == old(self).entries@.len() ==> (r matches Err(e)
                && e.kind == ErrorKind::EntryNotFound && final(self).entries@ == old(self).entries@),
            without(old(self).entries@, *ident).len() < old(self).entries@.len() ==> (r is Ok && same_entries(
                final(self).entries@,
                without(old(self).entries@, *ident),
            )),
            final(self).address == old(self).address,
            final(self).token == old(self).token,
    {
        let ghost s = self.entries@;
        let mut kept: Vec<Entry> = Vec::new();
        let mut i: usize = 0;
        while i < self.entries.len()
            invariant
                s == self.entries@,
                i <= self.entries.len(),
                same_entries(kept@, without(s.subrange(0, i as int), *ident)),
                without(s.subrange(0, i as int), *ident).len() <= i,
            decreases self.entries.len() - i,
        {
            assert(s.subrange(0, i + 1).drop_last() =~= s.subrange(0, i as int));
            assert(s.subrange(0, i + 1).last() == s[i as int]);
            if !name_is(&self.entries[i], ident) {
                kept.push(self.entries[i].duplicate());
            }
            i = i + 1;
        }
        assert(s.subrange(0, s.len() as int) =~= s);
        if kept.len() == self.entries.len() {
            return Err(RtodoError::with_kind(ErrorKind::EntryNotFound, "no such entry"));
        }
        self.entries = kept;
        Ok(())
    }

    /// Replaces the entry with the id of `entry` by a copy of it; fails when there is none.
    pub fn edit_entry(&mut self, entry: &Entry) -> (r: Result<(), RtodoError>)
        ensures
            match index_of_id(old(self).entries@, entry.id, 0) {
                None => r matches Err(e) && e.kind == ErrorKind::EntryNotFound && final(self).entries@ == old(self).entries@,
                Some(k) => r is Ok && final(self).entries@.len() == old(self).entries@.len()
                    && same_entry(final(self).entries@[k], *entry)
                    && forall|j: int| 0 <= j < old(self).entries@.len() && j != k ==> final(self).entries@[j] == old(self).entries@[j],
            },
            final(self).address == old(self).address,
            final(self).token == old(self).token,
    {
        let mut i: usize = 0;
        while i < self.entries.len()
            invariant
                i <= self.entries.len(),
                self.entries@ == old(self).entries@,
                self.address == old(self).address,
                self.token == old(self).token,
                index_of_id(self.entries@, entry.id, 0) == index_of_id(self.entries@, entry.id, i as int),
            decreases self.entries.len() - i,
        {
            if self.entries[i].id == entry.id {
                let ghost before = self.entries@;
                self.entries.remove(i);
                self.entries.insert(i, entry.duplicate());
                assert forall|j: int| 0 <= j < before.len() && j != i implies self.entries@[j] == before[j] by {
                    if j < i {
                    } else {
                    }
                }
                return Ok(());
            }
            i = i + 1;
        }
        Err(RtodoError::with_kind(ErrorKind::EntryNotFound, "no such entry"))
    }
}

/// The daemon's configuration and the scalars that its activities share.
pub struct Rtodo {
    pub config: Config,
    pub cur_entry_id: u32,
    pub conf_path: String,
    pub executor_pid: i32,
    pub checker_pid: i32,
    pub server_pid: i32,
    pub daemon_status: RtodoDaemonStatus,
}

impl Rtodo {
    /// A running daemon over `config`, persisted at `conf_path`.
    pub fn new(config: Config, conf_path: String) -> (r: Rtodo)
        ensures
            r.cur_entry_id == max_id(config.entries@),
            r.conf_path == conf_path,
            r.daemon_status == RtodoDaemonStatus::Running,
            r.config.entries@ == config.entries@,
            r.config.token == config.token,
            r.config.address == config.address,
    {
        proof {
            lemma_max_id_range(config.entries@);
        }
        let cur = match config.next_id() {
            Ok(n) => n - 1,
            Err(_) => u32::MAX,
        };
        Rtodo {
            config,
            cur_entry_id: cur,
            conf_path,
            executor_pid: 0,
            checker_pid: 0,
            server_pid: 0,
            daemon_status: RtodoDaemonStatus::Running,
        }
    }

    /// Adds `entry` under the next free id, which it returns.
    pub fn add_entry(&mut self, entry: &Entry) -> (r: Result<u32, RtodoError>)
        ensures
            max_id(old(self).config.entries@) < u32::MAX ==> {
                &&& r == Ok::<u32, RtodoError>((max_id(old(self).config.entries@) + 1) as u32)
                &&& final(self).config.entries@.len() == old(self).config.entries@.len() + 1
                &&& forall|i: int| 0 <= i < old(self).config.entries@.len() ==> final(self).config.entries@[i] == old(self).config.entries@[i]
                &&& same_entry(final(self).config.entries@.last(), Entry { id: r->Ok_0, ..*entry })
                &&& final(self).cur_entry_id == r->Ok_0
            },
            max_id(old(self).config.entries@) >= u32::MAX ==> (r matches Err(e) && e.kind == ErrorKind::IdExhausted
                && final(self).config.entries@ == old(self).config.entries@),
            final(self).config.token == old(self).config.token,
    {
        let id = match self.config.next_id() {
            Ok(id) => id,
            Err(e) => return Err(e),
        };
        self.config.add_entry(entry, id);
        self.cur_entry_id = id;
        Ok(id)
    }

    /// The entries, in order.
    pub fn get_entries(&self) -> (r: &Vec<Entry>)
        ensures
            r@ == self.config.entries@,
    {
        &self.config.entries
    }

    /// The access token.
    pub fn get_token(&self) -> (r: &str)
        ensures
            r@ == self.config.token@,
    {
        self.config.token.as_str()
    }

    /// Whether `token` is the access token.
    pub fn check_token(&self, token: &str) -> (r: bool)
        ensures
            r == (token@ == self.config.token@),
    {
        same_text(token, self.config.token.as_str())
    }

    /// Asks every activity of the daemon to end.
    pub fn stop_daemon(&mut self)
        ensures
            final(self).daemon_status == RtodoDaemonStatus::Stopped,
            final(self).config.entries@ == old(self).config.entries@,
    {
        self.daemon_status = RtodoDaemonStatus::Stopped;
    }

    fn works_when(&self, now: Option<DateTime>) -> (r: Vec<Work>)
        ensures
            r@.len() == self.config.entries@.len(),
            forall|i: int| 0 <= i < r@.len() ==> {
                let e = self.config.entries@[i];
                &&& same_entry(#[trigger] r@[i].entry, e)
                &&& r@[i].status == e.status
                &&& r@[i].trigger_state == initial_trigger_state(r@[i].entry, now)
                &&& r@[i].running_processes@.len() == 0
            },
    {
        let mut works: Vec<Work> = Vec::new();
        let mut i: usize = 0;
        while i < self.config.entries.len()
            invariant
                i <= self.config.entries.len(),
                works@.len() == i,
                forall|j: int| 0 <= j < i ==> {
                    let e = self.config.entries@[j];
                    &&& same_entry(#[trigger] works@[j].entry, e)
                    &&& works@[j].status == e.status
                    &&& works@[j].trigger_state == initial_trigger_state(works@[j].entry, now)
                    &&& works@[j].running_processes@.len() == 0
                },
            decreases self.config.entries.len() - i,
        {
            let w = Work::from_entry_when(self.config.entries[i].duplicate(), now);
            works.push(w);
            i = i + 1;
        }
        works
    }

    /// One work item per entry, in order, created at `now`, each tracking no process.
    pub fn init_works_at(&self, now: &DateTime) -> (r: Vec<Work>)
        ensures
            r@.len() == self.config.entries@.len(),
            forall|i: int| 0 <= i < r@.len() ==> {
                let e = self.config.entries@[i];
                &&& same_entry(#[trigger] r@[i].entry, e)
                &&& r@[i].status == e.status
                &&& r@[i].trigger_state == initial_trigger_state(r@[i].entry, Option::Some(*now))
                &&& r@[i].running_processes@.len() == 0
            },
    {
        self.works_when(Option::Some(*now))
    }

    /// One work item per entry, in order, created now, each tracking no process; a
    /// timer that counts from now has no next point when the clock cannot be read.
    pub fn init_works(&self) -> (r: Vec<Work>)
        ensures
            r@.len() == self.config.entries@.len(),
            forall|i: int| 0 <= i < r@.len() ==> same_entry(#[trigger] r@[i].entry, self.config.entries@[i])
                && r@[i].status == self.config.entries@[i].status && r@[i].running_processes@.len() == 0,
            exists|now: Option<DateTime>|
                #[trigger] clock_reading(now) && forall|i: int| 0 <= i < r@.len()
                    ==> #[trigger] r@[i].trigger_state == initial_trigger_state(r@[i].entry, now),
    {
        let now = DateTime::now();
        let r = self.works_when(now);
        assert(clock_reading(now) && forall|i: int| 0 <= i < r@.len()
            ==> #[trigger] r@[i].trigger_state == initial_trigger_state(r@[i].entry, now));
        r
    }
}

/// A request body: the caller's token and its data.
#[derive(Clone, Debug)]
pub struct ReqCommonData<T> {
    pub token: String,
    pub data: Option<T>,
}

impl<T> ReqCommonData<T> {
    /// Whether the request carries the daemon's token.
    pub fn check_token(&self, rtodo: &Rtodo) -> (r: bool)
        ensures
            r == (self.token@ == rtodo.config.token@),
    {
        rtodo.check_token(self.token.as_str())
    }
}

/// A response body: a code and data.
#[derive(Clone, Debug)]
pub struct ResCommonData<T> {
    pub code: i32,
    pub data: T,
}

} // verus!
