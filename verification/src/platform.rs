//! The platform's keychain, as the `keyring` crate offers it.
//!
//! Nothing in this file is proved. What an entry answers depends on the
//! keychain of the machine, on its user and on the other programs that write
//! to it, so no call is given a promise about its result: the callers are
//! verified for whatever comes back.

use vstd::prelude::*;
use crate::error::BackendFailure;

verus! {

/// `keyring::Entry`: the handle for one identity in the platform's keychain.
#[verifier::external_type_specification]
#[verifier::external_body]
pub struct ExEntry(keyring::Entry);

/// `keyring::Error`: the failure that an entry reports.
#[verifier::external_type_specification]
#[verifier::external_body]
pub struct ExKeyringError(keyring::Error);

/// `keyring::Entry::new` builds the handle for a service and a user. It may
/// fail for either of them, and which values fail is the platform's matter:
/// nothing is claimed of the result.
pub assume_specification[ keyring::Entry::new ](service: &str, user: &str) -> (entry: Result<
    keyring::Entry,
    keyring::Error,
>)
;

/// `keyring::Entry::set_password` stores a password under the entry. Whether
/// it succeeds rests with the platform: nothing is claimed of the result.
pub assume_specification[ keyring::Entry::set_password ](
    entry: &keyring::Entry,
    password: &str,
) -> (done: Result<(), keyring::Error>)
;

/// `keyring::Entry::get_password` reads the password stored under the entry.
/// What is there is whatever was last stored by anyone: nothing is claimed of
/// the result.
pub assume_specification[ keyring::Entry::get_password ](entry: &keyring::Entry) -> (password:
    Result<String, keyring::Error>)
;

/// `keyring::Entry::delete_credential` removes what is stored under the
/// entry. Nothing is claimed of the result.
pub assume_specification[ keyring::Entry::delete_credential ](entry: &keyring::Entry) -> (done:
    Result<(), keyring::Error>)
;

/// Tells the variants of `keyring::Error` apart and drops what they carry.
/// The enum may grow, so a variant without a name here is `Unrecognized`.
/// Nothing is claimed of which name comes out for a given error.
#[verifier::external_body]
pub(crate) fn failure_of(error: keyring::Error) -> BackendFailure {
    match error {
        keyring::Error::PlatformFailure(_) => BackendFailure::PlatformFailure,
        keyring::Error::NoStorageAccess(_) => BackendFailure::NoStorageAccess,
        keyring::Error::NoEntry => BackendFailure::NoEntry,
        keyring::Error::BadEncoding(_) => BackendFailure::BadEncoding,
        keyring::Error::TooLong(_, _) => BackendFailure::TooLong,
        keyring::Error::Invalid(_, _) => BackendFailure::Invalid,
        keyring::Error::Ambiguous(_) => BackendFailure::Ambiguous,
        _ => BackendFailure::Unrecognized,
    }
}

} // verus!
