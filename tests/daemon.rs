use rtodo::{
    generate_token, Action, Config, DoIfRunning, Entry, EntryIdentifier, ErrReply, ErrorKind, Logger,
    ReqCommonData, ResCommonData, Rtodo, RtodoDaemonStatus, RtodoError, Status, Succ, Trigger,
};

fn named(name: &str, id: u32) -> Entry {
    let mut e = Entry::new(Trigger::Nothing, Logger::Default, Action::Nothing, DoIfRunning::StartNew, Status::Paused);
    e.name = name.to_string();
    e.id = id;
    e
}

fn config(entries: Vec<Entry>) -> Config {
    Config { entries, address: "127.0.0.1:1".to_string(), token: "secret".to_string() }
}

#[test]
fn tokens_write_digits_in_hex() {
    assert_eq!(rtodo::token_from_digits(&vec![0, 9, 10, 15]), "09af");
    assert_eq!(rtodo::token_from_digits(&vec![]), "");
}

#[test]
fn tokens_are_hex() {
    let t = generate_token();
    assert_eq!(t.len(), 32);
    assert!(t.chars().all(|c| c.is_ascii_digit() || ('a'..='f').contains(&c)));
    assert_ne!(generate_token(), generate_token());
    let c = Config::default();
    assert_eq!(c.address, "0.0.0.0:6472");
    assert_eq!(c.token.len(), 32);
}

#[test]
fn new_entries_get_max_id_plus_one() {
    let mut r = Rtodo::new(config(vec![named("a", 3), named("b", 9), named("c", 4)]), "/tmp/c".to_string());
    assert_eq!(r.cur_entry_id, 9);
    assert_eq!(r.add_entry(&named("d", 0)).unwrap(), 10);
    assert_eq!(r.add_entry(&named("e", 0)).unwrap(), 11);
    assert_eq!(r.get_entries().len(), 5);
    assert_eq!(r.get_entries()[4].name, "e");
    assert_eq!(r.cur_entry_id, 11);
}

#[test]
fn ids_run_out() {
    let mut r = Rtodo::new(config(vec![named("a", u32::MAX)]), "/tmp/c".to_string());
    assert_eq!(r.add_entry(&named("d", 0)).unwrap_err().kind, ErrorKind::IdExhausted);
    assert_eq!(r.get_entries().len(), 1);
}

#[test]
fn delete_by_id_or_name() {
    let mut c = config(vec![named("a", 1), named("b", 2), named("a", 3)]);
    assert!(c.delete_entry(&EntryIdentifier::Name("a".to_string())).is_ok());
    assert_eq!(c.entries.len(), 1);
    assert_eq!(c.entries[0].id, 2);
    assert_eq!(c.delete_entry(&EntryIdentifier::Id(7)).unwrap_err().kind, ErrorKind::EntryNotFound);
    assert!(c.delete_entry(&EntryIdentifier::Id(2)).is_ok());
    assert!(c.entries.is_empty());
}

#[test]
fn edit_replaces_by_id() {
    let mut c = config(vec![named("a", 1), named("b", 2)]);
    assert!(c.edit_entry(&named("z", 2)).is_ok());
    assert_eq!(c.entries[1].name, "z");
    assert_eq!(c.entries[0].name, "a");
    assert_eq!(c.edit_entry(&named("q", 5)).unwrap_err().kind, ErrorKind::EntryNotFound);
    c.add_entry(&named("n", 0), 8);
    assert_eq!(c.entries[2].id, 8);
}

#[test]
fn tokens_are_checked_and_daemon_stops() {
    let mut r = Rtodo::new(config(vec![named("a", 1)]), "/tmp/c".to_string());
    assert!(r.check_token("secret"));
    assert!(!r.check_token("secreT"));
    assert_eq!(r.get_token(), "secret");
    let req: ReqCommonData<u32> = ReqCommonData { token: "secret".to_string(), data: Some(1) };
    assert!(req.check_token(&r));
    r.stop_daemon();
    assert_eq!(r.daemon_status, RtodoDaemonStatus::Stopped);
}

#[test]
fn works_follow_entries() {
    let r = Rtodo::new(config(vec![named("a", 1), named("b", 2)]), "/tmp/c".to_string());
    let works = r.init_works();
    assert_eq!(works.len(), 2);
    assert_eq!(works[1].entry.name, "b");
    assert_eq!(works[0].status, Status::Paused);
    assert!(works[0].running_processes.is_empty());
}

#[test]
fn replies_and_errors() {
    let e = ErrReply::new(100, "Invalid token");
    assert_eq!(e.code, 100);
    assert_eq!(e.msg, "Invalid token");
    let s = Succ::new(200, "ok");
    assert_eq!(s.code, 200);
    let r = ResCommonData { code: 200, data: 5 };
    assert_eq!(r.data, 5);
    let err = RtodoError::new("boom");
    assert_eq!(err.kind, ErrorKind::Other);
    assert_eq!(err.message(), "boom");
}
