use mediapedia::vault::{
    carry_out, Account, Command, KeyPair, Reply, Request, Session, Stage, NO_ENTRY,
};
use std::cell::RefCell;
use std::collections::HashMap;

/// A store that is in reach and keeps what it is given.
fn answer(store: &mut HashMap<Account, String>, request: &Request) -> Reply {
    match request {
        Request::Read(account) => match store.get(account) {
            Some(secret) => Reply::Secret(secret.clone()),
            None => Reply::NoEntry,
        },
        Request::Write(account, secret) => {
            store.insert(*account, secret.clone());
            Reply::Done
        }
        Request::Delete(account) => match store.remove(account) {
            Some(_) => Reply::Done,
            None => Reply::NoEntry,
        },
    }
}

fn serve(store: &mut HashMap<Account, String>, command: Command) -> Session {
    let mut session = Session::new(command);
    while let Some(request) = session.pending() {
        let reply = answer(store, &request);
        session.resolve(reply);
    }
    session
}

fn replay(command: Command, replies: Vec<Reply>) -> Session {
    let mut session = Session::new(command);
    for reply in replies {
        session.resolve(reply);
    }
    session
}

fn set(omdb: &str, tmdb: &str) -> Command {
    Command::SetKeys { omdb_key: omdb.to_string(), tmdb_key: tmdb.to_string() }
}

fn pair(omdb: Option<&str>, tmdb: Option<&str>) -> KeyPair {
    KeyPair { omdb_key: omdb.map(str::to_string), tmdb_key: tmdb.map(str::to_string) }
}

#[test]
fn account_names() {
    assert_eq!(Account::Omdb.name(), "omdb");
    assert_eq!(Account::Tmdb.name(), "tmdb");
}

#[test]
fn requests_of_each_command() {
    assert!(Command::GetKeys.request(Account::Omdb) == Request::Read(Account::Omdb));
    assert!(Command::GetKeys.request(Account::Tmdb) == Request::Read(Account::Tmdb));
    assert!(set("a", "b").request(Account::Omdb) == Request::Write(Account::Omdb, "a".to_string()));
    assert!(set("a", "b").request(Account::Tmdb) == Request::Write(Account::Tmdb, "b".to_string()));
    assert!(Command::ResetKeys.request(Account::Omdb) == Request::Delete(Account::Omdb));
    assert!(Command::ResetKeys.request(Account::Tmdb) == Request::Delete(Account::Tmdb));
    assert_eq!(Request::Write(Account::Tmdb, "b".to_string()).account(), Account::Tmdb);
    assert_eq!(Request::Read(Account::Omdb).account(), Account::Omdb);
    assert_eq!(Request::Delete(Account::Tmdb).account(), Account::Tmdb);
}

#[test]
fn a_session_asks_for_omdb_then_tmdb_then_nothing() {
    let mut session = Session::new(Command::GetKeys);
    assert_eq!(session.stage, Stage::Awaiting(Account::Omdb));
    assert!(session.pending() == Some(Request::Read(Account::Omdb)));
    session.resolve(Reply::NoEntry);
    assert!(session.pending() == Some(Request::Read(Account::Tmdb)));
    session.resolve(Reply::Secret("t".to_string()));
    assert_eq!(session.stage, Stage::Closed);
    assert!(session.pending().is_none());
    let before = session.clone();
    session.resolve(Reply::Secret("late".to_string()));
    assert!(session == before);
    assert!(session.into_keys() == pair(None, Some("t")));
}

#[test]
fn set_then_get_returns_the_pair() {
    for (a, b) in [("alpha", "beta"), ("x", "x"), ("k-1", "another key"), ("", "")] {
        let mut store = HashMap::new();
        store.insert(Account::Omdb, "stale".to_string());
        assert_eq!(serve(&mut store, set(a, b)).into_result(), Ok(()));
        assert!(serve(&mut store, Command::GetKeys).into_keys() == pair(Some(a), Some(b)));
    }
}

#[test]
fn reset_then_get_finds_both_absent() {
    let mut store = HashMap::new();
    assert_eq!(serve(&mut store, set("alpha", "beta")).into_result(), Ok(()));
    assert_eq!(serve(&mut store, Command::ResetKeys).into_result(), Ok(()));
    assert!(store.is_empty());
    assert!(serve(&mut store, Command::GetKeys).into_keys() == pair(None, None));
    assert_eq!(serve(&mut store, Command::ResetKeys).into_result(), Ok(()));
}

#[test]
fn get_before_any_set_finds_both_absent() {
    let mut store = HashMap::new();
    let session = serve(&mut store, Command::GetKeys);
    assert!(session.rejection.is_none());
    assert_eq!(session.clone().into_result(), Ok(()));
    assert!(session.into_keys() == pair(None, None));
}

#[test]
fn get_keys_treats_every_failure_as_absence() {
    let failures = [
        Reply::NoEntry,
        Reply::Unopened("no keychain".to_string()),
        Reply::Failed("locked".to_string()),
        Reply::Done,
    ];
    for first in failures.iter() {
        for second in failures.iter() {
            let session = replay(Command::GetKeys, vec![first.clone(), second.clone()]);
            assert_eq!(session.stage, Stage::Closed);
            assert!(session.rejection.is_none());
            assert!(session.into_keys() == pair(None, None));
        }
    }
    let mixed = replay(
        Command::GetKeys,
        vec![Reply::Secret("o".to_string()), Reply::Failed("locked".to_string())],
    );
    assert!(mixed.into_keys() == pair(Some("o"), None));
}

#[test]
fn set_keys_stops_at_the_first_failure() {
    for (failure, text) in [
        (Reply::Unopened("no keychain".to_string()), "no keychain"),
        (Reply::Failed("permission denied".to_string()), "permission denied"),
        (Reply::NoEntry, "No secret is stored for this account"),
    ] {
        let mut session = Session::new(set("a", "b"));
        session.resolve(failure.clone());
        assert_eq!(session.stage, Stage::Closed);
        assert!(session.pending().is_none());
        assert_eq!(session.into_result(), Err(text.to_string()));

        let second = replay(set("a", "b"), vec![Reply::Done, failure]);
        assert_eq!(second.stage, Stage::Closed);
        assert_eq!(second.into_result(), Err(text.to_string()));
    }
    assert_eq!(NO_ENTRY, "No secret is stored for this account");
}

#[test]
fn set_keys_succeeds_after_two_writes() {
    let mut session = Session::new(set("a", "b"));
    assert!(session.pending() == Some(Request::Write(Account::Omdb, "a".to_string())));
    session.resolve(Reply::Done);
    assert!(session.pending() == Some(Request::Write(Account::Tmdb, "b".to_string())));
    session.resolve(Reply::Done);
    assert!(session.pending().is_none());
    assert_eq!(session.into_result(), Ok(()));
}

#[test]
fn reset_keys_fails_only_on_an_unopened_entry() {
    let passed_over = [Reply::Done, Reply::NoEntry, Reply::Failed("busy".to_string())];
    for first in passed_over.iter() {
        for second in passed_over.iter() {
            let session = replay(Command::ResetKeys, vec![first.clone(), second.clone()]);
            assert_eq!(session.stage, Stage::Closed);
            assert_eq!(session.into_result(), Ok(()));
        }
    }
    let mut first = Session::new(Command::ResetKeys);
    first.resolve(Reply::Unopened("no keychain".to_string()));
    assert!(first.pending().is_none());
    assert_eq!(first.into_result(), Err("no keychain".to_string()));
    let second = replay(
        Command::ResetKeys,
        vec![Reply::Failed("busy".to_string()), Reply::Unopened("gone".to_string())],
    );
    assert_eq!(second.into_result(), Err("gone".to_string()));
}

#[test]
fn reply_texts() {
    assert_eq!(Reply::Unopened("u".to_string()).text(), "u");
    assert_eq!(Reply::Failed("f".to_string()).text(), "f");
    assert_eq!(Reply::NoEntry.text(), "No secret is stored for this account");
    assert_eq!(Reply::Done.text(), "");
    assert_eq!(Reply::Secret("hidden".to_string()).text(), "");
}

#[test]
fn stops_on_by_command() {
    let replies = [
        Reply::Secret("s".to_string()),
        Reply::Done,
        Reply::NoEntry,
        Reply::Unopened("u".to_string()),
        Reply::Failed("f".to_string()),
    ];
    let stops = |command: &Command| -> Vec<bool> {
        replies.iter().map(|reply| command.stops_on(reply)).collect()
    };
    assert_eq!(stops(&Command::GetKeys), [false, false, false, false, false]);
    assert_eq!(stops(&set("a", "b")), [false, false, true, true, true]);
    assert_eq!(stops(&Command::ResetKeys), [false, false, false, true, false]);
}

#[test]
fn a_fault_is_a_missing_entry_or_a_failure() {
    assert!(Reply::from_fault(true, "No matching entry".to_string()) == Reply::NoEntry);
    assert!(Reply::from_fault(false, "locked".to_string()) == Reply::Failed("locked".to_string()));
    assert!(Reply::from_fault(false, String::new()) == Reply::Failed(String::new()));
}

#[test]
fn carry_out_asks_for_omdb_then_tmdb() {
    let asked: RefCell<Vec<Request>> = RefCell::new(Vec::new());
    let closed = carry_out(Command::GetKeys, |request| {
        asked.borrow_mut().push(request.clone());
        match request.account() {
            Account::Omdb => Reply::Secret("o".to_string()),
            Account::Tmdb => Reply::NoEntry,
        }
    });
    assert!(*asked.borrow() == [Request::Read(Account::Omdb), Request::Read(Account::Tmdb)]);
    assert_eq!(closed.stage, Stage::Closed);
    assert!(closed.command == Command::GetKeys);
    assert!(closed.into_keys() == pair(Some("o"), None));
}

#[test]
fn carry_out_against_a_store_that_keeps_what_it_is_given() {
    let store: RefCell<HashMap<Account, String>> = RefCell::new(HashMap::new());
    let ask = |request: &Request| answer(&mut store.borrow_mut(), request);
    assert!(carry_out(Command::GetKeys, ask).into_keys() == pair(None, None));
    assert_eq!(carry_out(set("alpha", "beta"), ask).into_result(), Ok(()));
    assert!(carry_out(Command::GetKeys, ask).into_keys() == pair(Some("alpha"), Some("beta")));
    assert_eq!(carry_out(set("gamma", "delta"), ask).into_result(), Ok(()));
    assert!(carry_out(Command::GetKeys, ask).into_keys() == pair(Some("gamma"), Some("delta")));
    assert_eq!(carry_out(Command::ResetKeys, ask).into_result(), Ok(()));
    assert!(carry_out(Command::GetKeys, ask).into_keys() == pair(None, None));
    assert_eq!(carry_out(Command::ResetKeys, ask).into_result(), Ok(()));
}

#[test]
fn carry_out_asks_nothing_more_after_the_reply_that_ends_the_command() {
    let asked: RefCell<Vec<Request>> = RefCell::new(Vec::new());
    let closed = carry_out(set("a", "b"), |request| {
        asked.borrow_mut().push(request.clone());
        Reply::Failed("locked".to_string())
    });
    assert!(*asked.borrow() == [Request::Write(Account::Omdb, "a".to_string())]);
    assert_eq!(closed.into_result(), Err("locked".to_string()));

    asked.borrow_mut().clear();
    let closed = carry_out(Command::ResetKeys, |request| {
        asked.borrow_mut().push(request.clone());
        match request.account() {
            Account::Omdb => Reply::Failed("busy".to_string()),
            Account::Tmdb => Reply::Unopened("gone".to_string()),
        }
    });
    assert!(*asked.borrow() == [Request::Delete(Account::Omdb), Request::Delete(Account::Tmdb)]);
    assert_eq!(closed.into_result(), Err("gone".to_string()));
}
