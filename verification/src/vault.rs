//! The credential vault's rules, apart from any store: which requests a
//! command puts to the secure store, in which order, and what the replies
//! make of it.
//!
//! A `Session` is one command under way. It names the next request, takes
//! the store's reply, and is closed when nothing is left to ask.
//! `carry_out` runs a command to its end against any store, given as the
//! function that answers one request; `crate::keychain` hands it the
//! operating system's store.
//!
//! Types that carry a secret do not implement `Debug`: secrets are never
//! printed.

use vstd::prelude::*;

verus! {

/// The two secrets that the vault manages, and no others.
#[derive(Clone, Copy, Debug, PartialEq, Eq, Hash)]
pub enum Account {
    Omdb,
    Tmdb,
}

impl Account {
    /// The account's identifier in the secure store.
    pub open spec fn name_spec(self) -> Seq<char> {
        match self {
            Account::Omdb => "omdb"@,
            Account::Tmdb => "tmdb"@,
        }
    }

    pub fn name(self) -> (name: &'static str)
        ensures
            name@ == self.name_spec(),
    {
        match self {
            Account::Omdb => "omdb",
            Account::Tmdb => "tmdb",
        }
    }
}

/// The secrets as the user interface sees them. `None` is an absent secret.
#[derive(Clone, PartialEq, Eq)]
pub struct KeyPair {
    pub omdb_key: Option<String>,
    pub tmdb_key: Option<String>,
}

impl KeyPair {
    /// Both secrets absent.
    pub open spec fn absent() -> KeyPair {
        KeyPair { omdb_key: None, tmdb_key: None }
    }

    /// The pair with the secret of `account` replaced.
    pub open spec fn with(self, account: Account, secret: Option<String>) -> KeyPair {
        match account {
            Account::Omdb => KeyPair { omdb_key: secret, tmdb_key: self.tmdb_key },
            Account::Tmdb => KeyPair { omdb_key: self.omdb_key, tmdb_key: secret },
        }
    }
}

/// One operation on one secret of the store.
#[derive(Clone, PartialEq, Eq)]
pub enum Request {
    Read(Account),
    Write(Account, String),
    Delete(Account),
}

impl Request {
    pub open spec fn account_spec(self) -> Account {
        match self {
            Request::Read(account) => account,
            Request::Write(account, _) => account,
            Request::Delete(account) => account,
        }
    }

    /// The account that the request is about.
    pub fn account(&self) -> (account: Account)
        ensures
            account == self.account_spec(),
    {
        match self {
            Request::Read(account) => *account,
            Request::Write(account, _) => *account,
            Request::Delete(account) => *account,
        }
    }
}

/// What the store answered.
#[derive(Clone, PartialEq, Eq)]
pub enum Reply {
    /// The secret that was read.
    Secret(String),
    /// The secret was written or deleted.
    Done,
    /// Nothing is stored under the account.
    NoEntry,
    /// The account's entry could not be opened: the store is out of reach.
    Unopened(String),
    /// The entry was opened and the operation on it failed.
    Failed(String),
}

/// The text reported where a missing entry ends a command.
pub const NO_ENTRY: &'static str = "No secret is stored for this account";

impl Reply {
    /// The secret that the reply carries, if it carries one.
    pub open spec fn secret(self) -> Option<String> {
        match self {
            Reply::Secret(secret) => Some(secret),
            _ => None,
        }
    }

    /// The reply as an error text: the store's own words where it gave
    /// any.
    pub open spec fn text_spec(self) -> Seq<char> {
        match self {
            Reply::Unopened(reason) => reason@,
            Reply::Failed(reason) => reason@,
            Reply::NoEntry => NO_ENTRY@,
            Reply::Secret(_) => Seq::empty(),
            Reply::Done => Seq::empty(),
        }
    }

    pub fn text(&self) -> (text: String)
        ensures
            text@ == self.text_spec(),
    {
        match self {
            Reply::Unopened(reason) => reason.clone(),
            Reply::Failed(reason) => reason.clone(),
            Reply::NoEntry => NO_ENTRY.to_owned(),
            Reply::Secret(_) => String::new(),
            Reply::Done => String::new(),
        }
    }

    /// The reply for a read or a delete that the store refused on an open
    /// entry: `NoEntry` where the store says that nothing is stored there,
    /// which is no failure of the store, else `Failed` with the store's
    /// words.
    pub open spec fn of_fault(missing: bool, text: String) -> Reply {
        if missing {
            Reply::NoEntry
        } else {
            Reply::Failed(text)
        }
    }

    pub fn from_fault(missing: bool, text: String) -> (reply: Reply)
        ensures
            reply == Reply::of_fault(missing, text),
    {
        if missing {
            Reply::NoEntry
        } else {
            Reply::Failed(text)
        }
    }

    /// Whether a store may give this reply to `request`: only a read
    /// yields a secret, and a write never finds the entry missing.
    pub open spec fn fits(self, request: Request) -> bool {
        match request {
            Request::Read(_) => !(self is Done),
            Request::Write(_, _) => !(self is Secret) && !(self is NoEntry),
            Request::Delete(_) => !(self is Secret),
        }
    }
}

/// An entry point of the vault.
#[derive(Clone, PartialEq, Eq)]
pub enum Command {
    /// Read both secrets. Never fails: a secret that cannot be read is
    /// absent.
    GetKeys,
    /// Write both secrets, the first failure ending the command.
    SetKeys { omdb_key: String, tmdb_key: String },
    /// Delete both secrets, as far as they exist.
    ResetKeys,
}

impl Command {
    /// The request that the command puts to the store for `account`.
    pub open spec fn request_spec(self, account: Account) -> Request {
        match self {
            Command::GetKeys => Request::Read(account),
            Command::SetKeys { omdb_key, tmdb_key } => Request::Write(
                account,
                match account {
                    Account::Omdb => omdb_key,
                    Account::Tmdb => tmdb_key,
                },
            ),
            Command::ResetKeys => Request::Delete(account),
        }
    }

    pub fn request(&self, account: Account) -> (request: Request)
        ensures
            request == self.request_spec(account),
    {
        match self {
            Command::GetKeys => Request::Read(account),
            Command::SetKeys { omdb_key, tmdb_key } => match account {
                Account::Omdb => Request::Write(account, omdb_key.clone()),
                Account::Tmdb => Request::Write(account, tmdb_key.clone()),
            },
            Command::ResetKeys => Request::Delete(account),
        }
    }

    /// Whether `reply` ends the command at once, as a failure. Reading
    /// goes on whatever happens. Writing stops at anything but success.
    /// Deleting stops only where the entry could not be opened: a secret
    /// that is missing, or that the store would not delete, is passed over.
    pub open spec fn stops_on_spec(self, reply: Reply) -> bool {
        match self {
            Command::GetKeys => false,
            Command::SetKeys { .. } => reply is NoEntry || reply is Unopened || reply is Failed,
            Command::ResetKeys => reply is Unopened,
        }
    }

    pub fn stops_on(&self, reply: &Reply) -> (stops: bool)
        ensures
            stops == self.stops_on_spec(*reply),
    {
        match self {
            Command::GetKeys => false,
            Command::SetKeys { .. } => match reply {
                Reply::NoEntry => true,
                Reply::Unopened(_) => true,
                Reply::Failed(_) => true,
                _ => false,
            },
            Command::ResetKeys => match reply {
                Reply::Unopened(_) => true,
                _ => false,
            },
        }
    }
}

/// How far a session has come.
#[derive(Clone, Copy, Debug, PartialEq, Eq)]
pub enum Stage {
    /// The request for this account is due or under way.
    Awaiting(Account),
    /// Nothing is left to ask.
    Closed,
}

impl Stage {
    /// The stage after a reply that did not end the command: the accounts
    /// come in the order `omdb`, `tmdb`.
    pub open spec fn following(self) -> Stage {
        match self {
            Stage::Awaiting(Account::Omdb) => Stage::Awaiting(Account::Tmdb),
            _ => Stage::Closed,
        }
    }

    /// The number of requests that may still be due.
    pub open spec fn remaining(self) -> nat {
        match self {
            Stage::Awaiting(Account::Omdb) => 2,
            Stage::Awaiting(Account::Tmdb) => 1,
            Stage::Closed => 0,
        }
    }
}

/// One command under way.
#[derive(Clone, PartialEq, Eq)]
pub struct Session {
    pub command: Command,
    pub stage: Stage,
    /// The secrets read so far.
    pub keys: KeyPair,
    /// The reply that ended the command as a failure.
    pub rejection: Option<Reply>,
}

impl Session {
    /// The session of `command` before its first request.
    pub open spec fn start(command: Command) -> Session {
        Session {
            command,
            stage: Stage::Awaiting(Account::Omdb),
            keys: KeyPair::absent(),
            rejection: None,
        }
    }

    /// The request that is due, `None` once the session is closed.
    pub open spec fn pending_spec(self) -> Option<Request> {
        match self.stage {
            Stage::Awaiting(account) => Some(self.command.request_spec(account)),
            Stage::Closed => None,
        }
    }

    /// The session after the store gave `reply` to the pending request. A
    /// reply on which the command stops closes the session and is kept as
    /// the rejection. Any other reply leaves its secret, if it has one,
    /// under the account, and the session moves to the next account. A
    /// closed session takes no reply.
    pub open spec fn after(self, reply: Reply) -> Session {
        match self.stage {
            Stage::Closed => self,
            Stage::Awaiting(account) => if self.command.stops_on_spec(reply) {
                Session {
                    command: self.command,
                    stage: Stage::Closed,
                    keys: self.keys,
                    rejection: Some(reply),
                }
            } else {
                Session {
                    command: self.command,
                    stage: self.stage.following(),
                    keys: self.keys.with(account, reply.secret()),
                    rejection: self.rejection,
                }
            },
        }
    }

    /// The result of a command that reports success or failure.
    pub open spec fn result_spec(self) -> Result<(), Seq<char>> {
        match self.rejection {
            None => Ok(()),
            Some(reply) => Err(reply.text_spec()),
        }
    }

    pub fn new(command: Command) -> (session: Session)
        ensures
            session == Session::start(command),
    {
        Session {
            command,
            stage: Stage::Awaiting(Account::Omdb),
            keys: KeyPair { omdb_key: None, tmdb_key: None },
            rejection: None,
        }
    }

    pub fn pending(&self) -> (request: Option<Request>)
        ensures
            request == self.pending_spec(),
    {
        match self.stage {
            Stage::Awaiting(account) => Some(self.command.request(account)),
            Stage::Closed => None,
        }
    }

    /// Takes the store's reply to the pending request.
    pub fn resolve(&mut self, reply: Reply)
        ensures
            *final(self) == old(self).after(reply),
            final(self).stage.remaining() < old(self).stage.remaining() || old(self).stage
                is Closed,
    {
        match self.stage {
            Stage::Closed => {},
            Stage::Awaiting(account) => {
                if self.command.stops_on(&reply) {
                    self.stage = Stage::Closed;
                    self.rejection = Some(reply);
                } else {
                    let secret = match reply {
                        Reply::Secret(secret) => Some(secret),
                        _ => None,
                    };
                    match account {
                        Account::Omdb => {
                            self.keys.omdb_key = secret;
                            self.stage = Stage::Awaiting(Account::Tmdb);
                        },
                        Account::Tmdb => {
                            self.keys.tmdb_key = secret;
                            self.stage = Stage::Closed;
                        },
                    }
                }
            },
        }
    }

    /// The secrets that the session read.
    pub fn into_keys(self) -> (keys: KeyPair)
        ensures
            keys == self.keys,
    {
        self.keys
    }

    /// Success, or the text of the reply that ended the command.
    pub fn into_result(self) -> (result: Result<(), String>)
        ensures
            match result {
                Ok(_) => self.result_spec() is Ok,
                Err(text) => self.result_spec() == Err::<(), Seq<char>>(text@),
            },
    {
        match self.rejection {
            None => Ok(()),
            Some(reply) => Err(reply.text()),
        }
    }
}

/// The session of `command` after the store answered `first` to the request
/// for `omdb` and `second` to the request for `tmdb`. Where `first` ended
/// the command, `second` was never asked for and changes nothing.
pub open spec fn closing(command: Command, first: Reply, second: Reply) -> Session {
    Session::start(command).after(first).after(second)
}

/// Carries `command` out against the store that `ask` reaches: puts the
/// request for `omdb` to it, then, unless the reply ended the command, the
/// request for `tmdb`, and returns the session that the replies leave. The
/// replies are what `ask` gave to exactly these requests.
pub fn carry_out<F>(command: Command, ask: F) -> (closed: Session) where
    F: Fn(&Request) -> Reply,

    requires
        forall|request: &Request| #[trigger] ask.requires((request,)),
    ensures
        closed.stage is Closed,
        closed.command == command,
        exists|first: Reply, second: Reply|
            {
                let start = Session::start(command);
                &&& closed == #[trigger] closing(command, first, second)
                &&& start.pending_spec() matches Some(due) && ask.ensures((&due,), first)
                &&& start.after(first).pending_spec() matches Some(due) ==> ask.ensures(
                    (&due,),
                    second,
                )
            },
{
    let mut session = Session::new(command);
    match session.pending() {
        None => {},
        Some(due) => {
            let first = ask(&due);
            let ghost first_reply = first;
            session.resolve(first);
            match session.pending() {
                None => {
                    assert(session == closing(command, first_reply, first_reply));
                },
                Some(due) => {
                    let second = ask(&due);
                    let ghost second_reply = second;
                    session.resolve(second);
                    assert(session == closing(command, first_reply, second_reply));
                },
            }
        },
    }
    session
}

/// What a store holds: the secret of each account that has one.
pub type Contents = Map<Account, String>;

/// The reply of a store that is in reach and keeps what it is given.
pub open spec fn ideal_reply(contents: Contents, request: Request) -> Reply {
    match request {
        Request::Read(account) => if contents.contains_key(account) {
            Reply::Secret(contents[account])
        } else {
            Reply::NoEntry
        },
        Request::Write(_, _) => Reply::Done,
        Request::Delete(account) => if contents.contains_key(account) {
            Reply::Done
        } else {
            Reply::NoEntry
        },
    }
}

/// What such a store holds after the request: a write creates or
/// overwrites the secret, a delete removes it, a read changes nothing.
pub open spec fn ideal_effect(contents: Contents, request: Request) -> Contents {
    match request {
        Request::Read(_) => contents,
        Request::Write(account, secret) => contents.insert(account, secret),
        Request::Delete(account) => contents.remove(account),
    }
}

/// The session carried to its end against such a store, and what the store
/// holds then.
pub open spec fn served(session: Session, contents: Contents) -> (Session, Contents)
    decreases session.stage.remaining(),
{
    match session.pending_spec() {
        None => (session, contents),
        Some(request) => served(
            session.after(ideal_reply(contents, request)),
            ideal_effect(contents, request),
        ),
    }
}

/// Whatever the store answers, reading the keys closes after two replies
/// without a rejection, and each key is present exactly where its reply
/// carried a secret.
pub proof fn law_get_keys_never_fails(first: Reply, second: Reply)
    ensures
        ({
            let closed = Session::start(Command::GetKeys).after(first).after(second);
            &&& closed.stage is Closed
            &&& closed.rejection is None
            &&& closed.keys == KeyPair { omdb_key: first.secret(), tmdb_key: second.secret() }
        }),
{
}

/// Against a store that keeps what it is given, whatever it held before:
/// setting the keys succeeds, and reading them afterwards returns the pair
/// that was set.
pub proof fn law_set_then_get(contents: Contents, omdb_key: String, tmdb_key: String)
    ensures
        ({
            let set = served(Session::start(Command::SetKeys { omdb_key, tmdb_key }), contents);
            let get = served(Session::start(Command::GetKeys), set.1);
            &&& set.0.stage is Closed
            &&& set.0.result_spec() is Ok
            &&& get.0.stage is Closed
            &&& get.0.keys == KeyPair { omdb_key: Some(omdb_key), tmdb_key: Some(tmdb_key) }
            &&& get.1 == set.1
        }),
{
    reveal_with_fuel(served, 3);
}

/// Against such a store, whatever it held before: resetting succeeds, also
/// where a secret was already absent, and reading afterwards finds both
/// keys absent.
pub proof fn law_reset_then_get(contents: Contents)
    ensures
        ({
            let reset = served(Session::start(Command::ResetKeys), contents);
            let get = served(Session::start(Command::GetKeys), reset.1);
            &&& reset.0.stage is Closed
            &&& reset.0.result_spec() is Ok
            &&& get.0.stage is Closed
            &&& get.0.keys == KeyPair::absent()
        }),
{
    reveal_with_fuel(served, 3);
}

/// Reading from a store into which nothing was ever written finds both
/// keys absent, and is no error.
pub proof fn law_get_before_any_set()
    ensures
        ({
            let get = served(Session::start(Command::GetKeys), Map::empty());
            &&& get.0.stage is Closed
            &&& get.0.rejection is None
            &&& get.0.keys == KeyPair::absent()
        }),
{
    reveal_with_fuel(served, 3);
}

/// Setting the keys makes no second request once the first write has
/// failed, and reports the text of that failure.
pub proof fn law_set_stops_at_first_failure(omdb_key: String, tmdb_key: String, first: Reply)
    requires
        first is NoEntry || first is Unopened || first is Failed,
    ensures
        ({
            let closed = Session::start(Command::SetKeys { omdb_key, tmdb_key }).after(first);
            &&& closed.pending_spec() is None
            &&& closed.result_spec() == Err::<(), Seq<char>>(first.text_spec())
        }),
{
}

/// Resetting passes over a secret that is missing or that the store would
/// not delete, and fails only where an entry could not be opened.
pub proof fn law_reset_is_best_effort(first: Reply, second: Reply)
    ensures
        ({
            let closed = Session::start(Command::ResetKeys).after(first).after(second);
            &&& closed.stage is Closed
            &&& closed.result_spec() is Ok <==> !(first is Unopened) && !(second is Unopened)
            &&& first is Unopened ==> closed.result_spec() == Err::<(), Seq<char>>(
                first.text_spec(),
            )
        }),
{
}

/// What `served` computes is what `carry_out` returns where the store keeps
/// what it is given: the session closes as under the replies that such a
/// store gives, first to the request for `omdb`, then, with the effect of
/// that request, to the request for `tmdb`; and the store ends with the
/// effect of both.
pub proof fn law_served_is_carried_out(command: Command, contents: Contents)
    ensures
        ({
            let first_due = command.request_spec(Account::Omdb);
            let second_due = command.request_spec(Account::Tmdb);
            let first = ideal_reply(contents, first_due);
            let between = ideal_effect(contents, first_due);
            let second = ideal_reply(between, second_due);
            &&& !command.stops_on_spec(first)
            &&& !command.stops_on_spec(second)
            &&& served(Session::start(command), contents).0 == closing(command, first, second)
            &&& served(Session::start(command), contents).1 == ideal_effect(between, second_due)
        }),
{
    reveal_with_fuel(served, 3);
}

} // verus!
