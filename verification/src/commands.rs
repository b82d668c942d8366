//! The three requests that an application sends to the store, each answered
//! once: with the outcome, and with the lines to log for it.

use vstd::prelude::*;
use crate::error::{message_of, Fault};
use crate::journal::{
    delete_transcript, get_transcript, journal_delete, journal_get, journal_set, set_transcript,
};
use crate::store::{delete_spec, get_spec, set_spec, CredentialStore};

verus! {

/// The answer to a request.
pub struct Reply<T> {
    /// How the operation ended.
    pub outcome: Result<T, Fault>,
    /// The lines to log, in order.
    pub log: Vec<String>,
}

/// How an operation failed, if it did.
pub open spec fn failing<T>(outcome: Result<T, Fault>) -> Option<Fault> {
    match outcome {
        Ok(_) => None,
        Err(fault) => Some(fault),
    }
}

/// The answer as it crosses to the caller: the value, or the text of the
/// failure's kind.
pub open spec fn answered<T>(outcome: Result<T, Fault>, answer: Result<T, String>) -> bool {
    match outcome {
        Ok(value) => answer == Ok::<T, String>(value),
        Err(fault) => answer matches Err(text) && text@ == message_of(fault.error),
    }
}

impl<T> Reply<T> {
    /// Gives the answer up as the caller takes it, a failure as plain text.
    pub fn into_result(self) -> (answer: Result<T, String>)
        ensures
            answered(self.outcome, answer),
    {
        match self.outcome {
            Ok(value) => Ok(value),
            Err(fault) => Err(fault.error.message()),
        }
    }
}

/// How an operation failed, if it did.
fn failure<T>(outcome: &Result<T, Fault>) -> (fault: Option<Fault>)
    ensures
        fault == failing(*outcome),
{
    match outcome {
        Ok(_) => None,
        Err(fault) => Some(*fault),
    }
}

/// Stores `password` under (service, account), in place of any earlier one.
///
/// The lines to log are those of `set_transcript`, which knows the identity
/// and the outcome and not the password.
pub fn keyring_set(
    store: &mut CredentialStore,
    service: &str,
    account: &str,
    password: &str,
) -> (reply: Reply<()>)
    ensures
        set_spec(old(store)@, final(store)@, service@, account@, password@, reply.outcome),
        reply.log.deep_view() == set_transcript(service@, account@, failing(reply.outcome)),
{
    let outcome = store.set(service, account, password);
    let log = journal_set(service, account, failure(&outcome));
    Reply { outcome, log }
}

/// Reads the password stored under (service, account), as it was stored.
///
/// The lines to log say whether a password was found and never what it is.
pub fn keyring_get(store: &CredentialStore, service: &str, account: &str) -> (reply: Reply<
    String,
>)
    ensures
        get_spec(store@, service@, account@, reply.outcome),
        reply.log.deep_view() == get_transcript(service@, account@, failing(reply.outcome)),
{
    let outcome = store.get(service, account);
    let log = journal_get(service, account, failure(&outcome));
    Reply { outcome, log }
}

/// Removes what is stored under (service, account).
///
/// The lines to log are those of `delete_transcript`.
pub fn keyring_delete(store: &mut CredentialStore, service: &str, account: &str) -> (reply:
    Reply<()>)
    ensures
        delete_spec(old(store)@, final(store)@, service@, account@, reply.outcome),
        reply.log.deep_view() == delete_transcript(service@, account@, failing(reply.outcome)),
{
    let outcome = store.delete(service, account);
    let log = journal_delete(service, account, failure(&outcome));
    Reply { outcome, log }
}

} // verus!
