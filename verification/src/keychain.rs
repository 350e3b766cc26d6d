//! The vault over the operating system's secure store, reached through the
//! `keyring` crate: each request opens the entry of its account under the
//! vault's service name and performs one operation on it.

use crate::vault::{carry_out, closing, Account, Command, KeyPair, Reply, Request, Session};
use vstd::prelude::*;

verus! {

/// The service name under which MediaPedia keeps its secrets.
pub const SERVICE_NAME: &'static str = "MediaPedia";

/// `keyring::Entry`: the handle to one credential of the store. Nothing of
/// its inside is known here.
#[verifier::external_type_specification]
#[verifier::external_body]
pub struct ExEntry(keyring::Entry);

/// `keyring::Error`: the store's error. Nothing of its inside is known
/// here.
#[verifier::external_type_specification]
#[verifier::external_body]
pub struct ExError(keyring::Error);

/// `keyring::Entry::new`: builds the entry for a service and a user name,
/// or reports why the store cannot have one. Nothing is claimed of the
/// result.
pub assume_specification[ keyring::Entry::new ](service: &str, user: &str) -> (entry:
    keyring::Result<keyring::Entry>);

/// `keyring::Entry::get_password`: the password stored for the entry, or
/// the store's error. Nothing is claimed of the result.
pub assume_specification[ keyring::Entry::get_password ](entry: &keyring::Entry) -> (password:
    keyring::Result<String>);

/// `keyring::Entry::set_password`: stores the password for the entry.
/// Nothing is claimed of the result.
pub assume_specification[ keyring::Entry::set_password ](
    entry: &keyring::Entry,
    password: &str,
) -> (stored: keyring::Result<()>);

/// `keyring::Entry::delete_password`: removes the entry's password from the
/// store. Nothing is claimed of the result.
pub assume_specification[ keyring::Entry::delete_password ](entry: &keyring::Entry) -> (deleted:
    keyring::Result<()>);

/// The words of a `keyring::Error`, through its `Display`.
#[verifier::external_body]
fn error_text(error: &keyring::Error) -> (text: String) {
    error.to_string()
}

/// Whether a `keyring::Error` is its `NoEntry` variant: no credential
/// exists in the store for the entry.
#[verifier::external_body]
fn is_no_entry(error: &keyring::Error) -> (missing: bool) {
    matches!(error, keyring::Error::NoEntry)
}

/// The reply for a read or a delete that failed on an open entry. The
/// store's error decides which reply it is: `Reply::of_fault` says which,
/// for what the error turns out to be. Whatever the error, the reply is
/// `NoEntry` or `Failed`.
fn failure(error: &keyring::Error) -> (reply: Reply)
    ensures
        reply is NoEntry || reply is Failed,
{
    let missing = is_no_entry(error);
    let text = error_text(error);
    Reply::from_fault(missing, text)
}

/// Puts one request to the store under `service`: opens the entry of the
/// request's account and performs the one operation on it. The store
/// decides the reply; whatever it is, it is one that fits the request.
pub fn perform(service: &str, request: &Request) -> (reply: Reply)
    ensures
        reply.fits(*request),
{
    match keyring::Entry::new(service, request.account().name()) {
        Err(error) => Reply::Unopened(error_text(&error)),
        Ok(entry) => match request {
            Request::Read(_) => match entry.get_password() {
                Ok(secret) => Reply::Secret(secret),
                Err(error) => failure(&error),
            },
            Request::Write(_, secret) => match entry.set_password(secret.as_str()) {
                Ok(_) => Reply::Done,
                Err(error) => Reply::Failed(error_text(&error)),
            },
            Request::Delete(_) => match entry.delete_password() {
                Ok(_) => Reply::Done,
                Err(error) => failure(&error),
            },
        },
    }
}

/// Carries `command` out against the store under `service`. The session
/// comes back closed, as the replies of the store leave it; each reply is
/// one that fits its request.
fn serve(service: &str, command: Command) -> (closed: Session)
    ensures
        closed.stage is Closed,
        closed.command == command,
        exists|first: Reply, second: Reply|
            {
                &&& closed == #[trigger] closing(command, first, second)
                &&& first.fits(command.request_spec(Account::Omdb))
                &&& second.fits(command.request_spec(Account::Tmdb))
            },
{
    let ask = |request: &Request| -> (reply: Reply)
        ensures
            reply.fits(*request),
        {
            perform(service, request)
        };
    let closed = carry_out(command, ask);
    proof {
        let (first, second) = choose|first: Reply, second: Reply|
            {
                let start = Session::start(command);
                &&& closed == #[trigger] closing(command, first, second)
                &&& start.pending_spec() matches Some(due) && first.fits(due)
                &&& start.after(first).pending_spec() matches Some(due) ==> second.fits(due)
            };
        if Session::start(command).after(first).stage is Closed {
            assert(closed == closing(command, first, first));
        }
    }
    closed
}

/// The vault of one service in the operating system's secure store.
pub struct CredentialVault {
    service: String,
}

impl CredentialVault {
    /// The service name that scopes the vault's two accounts.
    pub closed spec fn service_spec(&self) -> Seq<char> {
        self.service@
    }

    pub fn new(service: &str) -> (vault: Self)
        ensures
            vault.service_spec() == service@,
    {
        CredentialVault { service: service.to_owned() }
    }

    pub fn service(&self) -> (service: &str)
        ensures
            service@ == self.service_spec(),
    {
        self.service.as_str()
    }

    /// Reads both secrets. There is no failure: the store answers the read
    /// of `omdb` and the read of `tmdb`, and each key is present exactly
    /// where its answer carried a secret.
    pub fn get_keys(&self) -> (keys: KeyPair)
        ensures
            exists|first: Reply, second: Reply|
                {
                    &&& keys == (#[trigger] closing(Command::GetKeys, first, second)).keys
                    &&& first.fits(Request::Read(Account::Omdb))
                    &&& second.fits(Request::Read(Account::Tmdb))
                },
    {
        serve(self.service.as_str(), Command::GetKeys).into_keys()
    }

    /// Writes both secrets, `omdb` first. The result is what the store's
    /// answers to the two writes make of the command: success where both
    /// were done, else the words of the first answer that was a failure,
    /// after which nothing more is asked.
    pub fn set_keys(&self, omdb_key: String, tmdb_key: String) -> (result: Result<(), String>)
        ensures
            exists|first: Reply, second: Reply|
                {
                    let closed = #[trigger] closing(
                        Command::SetKeys { omdb_key, tmdb_key },
                        first,
                        second,
                    );
                    &&& first.fits(Request::Write(Account::Omdb, omdb_key))
                    &&& second.fits(Request::Write(Account::Tmdb, tmdb_key))
                    &&& match result {
                        Ok(_) => closed.result_spec() is Ok,
                        Err(text) => closed.result_spec() == Err::<(), Seq<char>>(text@),
                    }
                },
    {
        serve(self.service.as_str(), Command::SetKeys { omdb_key, tmdb_key }).into_result()
    }

    /// Deletes both secrets, as far as they exist. The result is what the
    /// store's answers to the two deletes make of the command: a failure
    /// only where an entry could not be opened, in the store's words.
    pub fn reset_keys(&self) -> (result: Result<(), String>)
        ensures
            exists|first: Reply, second: Reply|
                {
                    let closed = #[trigger] closing(Command::ResetKeys, first, second);
                    &&& first.fits(Request::Delete(Account::Omdb))
                    &&& second.fits(Request::Delete(Account::Tmdb))
                    &&& match result {
                        Ok(_) => closed.result_spec() is Ok,
                        Err(text) => closed.result_spec() == Err::<(), Seq<char>>(text@),
                    }
                },
    {
        serve(self.service.as_str(), Command::ResetKeys).into_result()
    }
}

/// Reads MediaPedia's two keys from the secure store.
pub fn get_keys() -> (keys: KeyPair)
    ensures
        exists|first: Reply, second: Reply|
            {
                &&& keys == (#[trigger] closing(Command::GetKeys, first, second)).keys
                &&& first.fits(Request::Read(Account::Omdb))
                &&& second.fits(Request::Read(Account::Tmdb))
            },
{
    CredentialVault::new(SERVICE_NAME).get_keys()
}

/// Writes MediaPedia's two keys to the secure store.
pub fn set_keys(omdb_key: String, tmdb_key: String) -> (result: Result<(), String>)
    ensures
        exists|first: Reply, second: Reply|
            {
                let closed = #[trigger] closing(
                    Command::SetKeys { omdb_key, tmdb_key },
                    first,
                    second,
                );
                &&& first.fits(Request::Write(Account::Omdb, omdb_key))
                &&& second.fits(Request::Write(Account::Tmdb, tmdb_key))
                &&& match result {
                    Ok(_) => closed.result_spec() is Ok,
                    Err(text) => closed.result_spec() == Err::<(), Seq<char>>(text@),
                }
            },
{
    CredentialVault::new(SERVICE_NAME).set_keys(omdb_key, tmdb_key)
}

/// Removes MediaPedia's two keys from the secure store.
pub fn reset_keys() -> (result: Result<(), String>)
    ensures
        exists|first: Reply, second: Reply|
            {
                let closed = #[trigger] closing(Command::ResetKeys, first, second);
                &&& first.fits(Request::Delete(Account::Omdb))
                &&& second.fits(Request::Delete(Account::Tmdb))
                &&& match result {
                    Ok(_) => closed.result_spec() is Ok,
                    Err(text) => closed.result_spec() == Err::<(), Seq<char>>(text@),
                }
            },
{
    CredentialVault::new(SERVICE_NAME).reset_keys()
}

} // verus!
