//! The credential store: three operations on secrets kept by identity, over
//! the platform's keychain or over an in-memory vault.

use vstd::prelude::*;
use crate::error::{
    from_backend, from_write, rejected_identity, settle, settle_write, BackendFailure, Fault,
    Stage, StoreError,
};
use crate::platform::failure_of;
use crate::vault::Vault;

verus! {

/// An identity names a slot only if neither of its parts is empty.
pub open spec fn valid_identity(service: Seq<char>, account: Seq<char>) -> bool {
    service.len() > 0 && account.len() > 0
}

/// The fault of an operation that found nothing under the identity.
pub open spec fn nothing_stored() -> Fault {
    Fault { stage: Stage::Access, error: StoreError::NotFound }
}

/// What `set` does. `before` and `after` are what the store holds, `None`
/// where the secrets are in the platform's keychain, of which nothing is known.
///
/// An invalid identity is turned away and nothing changes. In memory, the
/// secret takes the identity's slot, whatever was there. On the platform the
/// operation may fail, but never on the identity once the entry is resolved,
/// and never with `NotFound`: a slot that is not there yet is made.
pub open spec fn set_spec(
    before: Option<Map<(Seq<char>, Seq<char>), Seq<char>>>,
    after: Option<Map<(Seq<char>, Seq<char>), Seq<char>>>,
    service: Seq<char>,
    account: Seq<char>,
    secret: Seq<char>,
    outcome: Result<(), Fault>,
) -> bool {
    if !valid_identity(service, account) {
        outcome == Err::<(), Fault>(rejected_identity()) && after == before
    } else {
        match before {
            Some(held) => outcome is Ok && after == Some(held.insert((service, account), secret)),
            None => after is None && (outcome matches Err(fault) ==> from_write(fault)),
        }
    }
}

/// What `get` answers. In memory it is the secret in the identity's slot, as
/// it was stored, and `NotFound` where the slot is empty.
pub open spec fn get_spec(
    held: Option<Map<(Seq<char>, Seq<char>), Seq<char>>>,
    service: Seq<char>,
    account: Seq<char>,
    outcome: Result<String, Fault>,
) -> bool {
    if !valid_identity(service, account) {
        outcome == Err::<String, Fault>(rejected_identity())
    } else {
        match held {
            Some(held) => if held.dom().contains((service, account)) {
                outcome matches Ok(secret) && secret@ == held[(service, account)]
            } else {
                outcome == Err::<String, Fault>(nothing_stored())
            },
            None => outcome matches Err(fault) ==> from_backend(fault),
        }
    }
}

/// What `delete` does. In memory it empties the identity's slot, and fails
/// with `NotFound`, changing nothing, where the slot is empty already.
pub open spec fn delete_spec(
    before: Option<Map<(Seq<char>, Seq<char>), Seq<char>>>,
    after: Option<Map<(Seq<char>, Seq<char>), Seq<char>>>,
    service: Seq<char>,
    account: Seq<char>,
    outcome: Result<(), Fault>,
) -> bool {
    if !valid_identity(service, account) {
        outcome == Err::<(), Fault>(rejected_identity()) && after == before
    } else {
        match before {
            Some(held) => if held.dom().contains((service, account)) {
                outcome is Ok && after == Some(held.remove((service, account)))
            } else {
                outcome == Err::<(), Fault>(nothing_stored()) && after == before
            },
            None => after is None && (outcome matches Err(fault) ==> from_backend(fault)),
        }
    }
}

/// Every identity held is valid. Of the platform's keychain nothing is said.
pub open spec fn valid_holdings(held: Option<Map<(Seq<char>, Seq<char>), Seq<char>>>) -> bool {
    held matches Some(held) ==> forall|service: Seq<char>, account: Seq<char>|
        held.dom().contains((service, account)) ==> valid_identity(service, account)
}

/// Turns away an identity with an empty part.
pub fn check_identity(service: &str, account: &str) -> (checked: Result<(), Fault>)
    ensures
        valid_identity(service@, account@) ==> checked is Ok,
        !valid_identity(service@, account@) ==> checked == Err::<(), Fault>(rejected_identity()),
{
    if service.is_empty() || account.is_empty() {
        Err(Fault { stage: Stage::Resolve, error: StoreError::InvalidIdentity })
    } else {
        Ok(())
    }
}

/// Tells a value from a failure in what `keyring` answered, and names the
/// failure.
fn classify<T>(answer: Result<T, keyring::Error>) -> (classified: Result<T, BackendFailure>)
    ensures
        match answer {
            Ok(value) => classified == Ok::<T, BackendFailure>(value),
            Err(_) => classified is Err,
        },
{
    match answer {
        Ok(value) => Ok(value),
        Err(error) => Err(failure_of(error)),
    }
}

/// Stores a secret in the platform's keychain: resolves the entry, then
/// writes. Each step is tried once.
fn platform_set(service: &str, account: &str, secret: &str) -> (outcome: Result<(), Fault>)
    ensures
        outcome matches Err(fault) ==> from_write(fault),
{
    match settle_write(Stage::Resolve, classify(keyring::Entry::new(service, account))) {
        Err(fault) => Err(fault),
        Ok(entry) => settle_write(Stage::Access, classify(entry.set_password(secret))),
    }
}

/// Reads a secret from the platform's keychain, as it is stored there.
fn platform_get(service: &str, account: &str) -> (outcome: Result<String, Fault>)
    ensures
        outcome matches Err(fault) ==> from_backend(fault),
{
    match settle(Stage::Resolve, classify(keyring::Entry::new(service, account))) {
        Err(fault) => Err(fault),
        Ok(entry) => settle(Stage::Access, classify(entry.get_password())),
    }
}

/// Removes a credential from the platform's keychain.
fn platform_delete(service: &str, account: &str) -> (outcome: Result<(), Fault>)
    ensures
        outcome matches Err(fault) ==> from_backend(fault),
{
    match settle(Stage::Resolve, classify(keyring::Entry::new(service, account))) {
        Err(fault) => Err(fault),
        Ok(entry) => settle(Stage::Access, classify(entry.delete_credential())),
    }
}

/// A store of secrets by (service, account).
pub struct CredentialStore {
    /// The vault of a store that keeps its secrets in memory.
    memory: Option<Vault>,
}

/// The identities that name a slot.
spec fn valid_keys() -> Set<(Seq<char>, Seq<char>)> {
    Set::new(|key: (Seq<char>, Seq<char>)| valid_identity(key.0, key.1))
}

impl CredentialStore {
    /// The vault holds valid identities only.
    #[verifier::type_invariant]
    spec fn well_formed(self) -> bool {
        self.memory matches Some(vault) ==> vault@.dom().subset_of(valid_keys())
    }

    /// What the store holds: the secrets by identity where they are kept in
    /// memory, `None` where they are in the platform's keychain. Only a
    /// valid identity is ever in it.
    pub closed spec fn view(&self) -> Option<Map<(Seq<char>, Seq<char>), Seq<char>>> {
        match self.memory {
            Some(vault) => Some(vault@.restrict(valid_keys())),
            None => None,
        }
    }

    /// Whatever the store, every identity that it holds is valid.
    pub proof fn lemma_holds_valid_identities(self)
        ensures
            valid_holdings(self@),
    {
    }

    /// The store over the platform's keychain.
    pub fn platform() -> (store: CredentialStore)
        ensures
            store@ is None,
    {
        CredentialStore { memory: None }
    }

    /// A store that keeps its secrets in memory and starts empty.
    pub fn in_memory() -> (store: CredentialStore)
        ensures
            store@ == Some(Map::<(Seq<char>, Seq<char>), Seq<char>>::empty()),
    {
        let vault = Vault::new();
        assert(vault@.restrict(valid_keys()) =~= vault@);
        CredentialStore { memory: Some(vault) }
    }

    /// Stores `secret` under (service, account), in place of any earlier one.
    pub fn set(&mut self, service: &str, account: &str, secret: &str) -> (outcome: Result<
        (),
        Fault,
    >)
        ensures
            set_spec(old(self)@, final(self)@, service@, account@, secret@, outcome),
    {
        proof {
            use_type_invariant(&*self);
        }
        match check_identity(service, account) {
            Err(fault) => Err(fault),
            Ok(()) => {
                let mut memory: Option<Vault> = None;
                std::mem::swap(&mut memory, &mut self.memory);
                match memory {
                    Some(mut vault) => {
                        let ghost before = vault@;
                        vault.put(service, account, secret);
                        assert(vault@.restrict(valid_keys()) =~= before.restrict(
                            valid_keys(),
                        ).insert((service@, account@), secret@));
                        self.memory = Some(vault);
                        Ok(())
                    },
                    None => platform_set(service, account, secret),
                }
            },
        }
    }

    /// Reads the secret stored under (service, account).
    pub fn get(&self, service: &str, account: &str) -> (outcome: Result<String, Fault>)
        ensures
            get_spec(self@, service@, account@, outcome),
    {
        match check_identity(service, account) {
            Err(fault) => Err(fault),
            Ok(()) => match &self.memory {
                Some(vault) => match vault.lookup(service, account) {
                    Some(secret) => Ok(secret),
                    None => Err(Fault { stage: Stage::Access, error: StoreError::NotFound }),
                },
                None => platform_get(service, account),
            },
        }
    }

    /// Removes what is stored under (service, account).
    pub fn delete(&mut self, service: &str, account: &str) -> (outcome: Result<(), Fault>)
        ensures
            delete_spec(old(self)@, final(self)@, service@, account@, outcome),
    {
        proof {
            use_type_invariant(&*self);
        }
        match check_identity(service, account) {
            Err(fault) => Err(fault),
            Ok(()) => {
                let mut memory: Option<Vault> = None;
                std::mem::swap(&mut memory, &mut self.memory);
                match memory {
                    Some(mut vault) => {
                        let ghost before = vault@;
                        let removed = vault.remove(service, account);
                        assert(vault@.restrict(valid_keys()) =~= before.restrict(
                            valid_keys(),
                        ).remove((service@, account@)));
                        self.memory = Some(vault);
                        if removed {
                            Ok(())
                        } else {
                            Err(Fault { stage: Stage::Access, error: StoreError::NotFound })
                        }
                    },
                    None => platform_delete(service, account),
                }
            },
        }
    }
}

} // verus!
