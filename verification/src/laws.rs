//! What holds of the store across several operations.
//!
//! Each law speaks of a store that keeps its secrets in memory. Of the
//! platform's keychain none can be proved: another program may write to it
//! between two calls, and the user may refuse any of them.

use vstd::prelude::*;
use crate::commands::{answered, failing, Reply};
use crate::error::{from_backend, message_of, rejected_identity, Fault, StoreError};
use crate::journal::{delete_transcript, get_transcript, set_transcript};
use crate::store::{
    delete_spec, get_spec, nothing_stored, set_spec, valid_identity, CredentialStore,
};

verus! {

/// A secret that was stored is the one read back, exactly.
pub proof fn lemma_set_then_get(
    held: Map<(Seq<char>, Seq<char>), Seq<char>>,
    after: Option<Map<(Seq<char>, Seq<char>), Seq<char>>>,
    service: Seq<char>,
    account: Seq<char>,
    secret: Seq<char>,
    stored: Result<(), Fault>,
    read: Result<String, Fault>,
)
    requires
        valid_identity(service, account),
        set_spec(Some(held), after, service, account, secret, stored),
        get_spec(after, service, account, read),
    ensures
        stored is Ok,
        read matches Ok(found) && found@ == secret,
{
}

/// Of two secrets stored under one identity, only the second is read back.
pub proof fn lemma_second_set_wins(
    held: Map<(Seq<char>, Seq<char>), Seq<char>>,
    between: Option<Map<(Seq<char>, Seq<char>), Seq<char>>>,
    after: Option<Map<(Seq<char>, Seq<char>), Seq<char>>>,
    service: Seq<char>,
    account: Seq<char>,
    first: Seq<char>,
    second: Seq<char>,
    stored_first: Result<(), Fault>,
    stored_second: Result<(), Fault>,
    read: Result<String, Fault>,
)
    requires
        valid_identity(service, account),
        set_spec(Some(held), between, service, account, first, stored_first),
        set_spec(between, after, service, account, second, stored_second),
        get_spec(after, service, account, read),
    ensures
        stored_first is Ok,
        stored_second is Ok,
        read matches Ok(found) && found@ == second,
        after == Some(held.insert((service, account), second)),
{
    assert(held.insert((service, account), first).insert((service, account), second)
        =~= held.insert((service, account), second));
}

/// Once an identity's credential is deleted, reading it fails with `NotFound`.
pub proof fn lemma_delete_then_get(
    held: Map<(Seq<char>, Seq<char>), Seq<char>>,
    after: Option<Map<(Seq<char>, Seq<char>), Seq<char>>>,
    service: Seq<char>,
    account: Seq<char>,
    deleted: Result<(), Fault>,
    read: Result<String, Fault>,
)
    requires
        deleted is Ok,
        delete_spec(Some(held), after, service, account, deleted),
        get_spec(after, service, account, read),
    ensures
        read == Err::<String, Fault>(nothing_stored()),
{
}

/// Deleting under an identity that holds nothing fails with `NotFound` and
/// leaves the store as it was.
pub proof fn lemma_delete_of_nothing(
    held: Map<(Seq<char>, Seq<char>), Seq<char>>,
    after: Option<Map<(Seq<char>, Seq<char>), Seq<char>>>,
    service: Seq<char>,
    account: Seq<char>,
    deleted: Result<(), Fault>,
)
    requires
        valid_identity(service, account),
        !held.dom().contains((service, account)),
        delete_spec(Some(held), after, service, account, deleted),
    ensures
        deleted == Err::<(), Fault>(nothing_stored()),
        after == Some(held),
{
}

/// Storing under one identity changes what no other identity reads: every
/// answer that `get` could give for the other before, it gives after, and no
/// other.
pub proof fn lemma_set_leaves_others(
    held: Map<(Seq<char>, Seq<char>), Seq<char>>,
    after: Option<Map<(Seq<char>, Seq<char>), Seq<char>>>,
    service: Seq<char>,
    account: Seq<char>,
    secret: Seq<char>,
    stored: Result<(), Fault>,
    other_service: Seq<char>,
    other_account: Seq<char>,
    read: Result<String, Fault>,
)
    requires
        set_spec(Some(held), after, service, account, secret, stored),
        (service, account) != (other_service, other_account),
    ensures
        get_spec(after, other_service, other_account, read) <==> get_spec(
            Some(held),
            other_service,
            other_account,
            read,
        ),
{
}

/// Deleting under one identity changes what no other identity reads.
pub proof fn lemma_delete_leaves_others(
    held: Map<(Seq<char>, Seq<char>), Seq<char>>,
    after: Option<Map<(Seq<char>, Seq<char>), Seq<char>>>,
    service: Seq<char>,
    account: Seq<char>,
    deleted: Result<(), Fault>,
    other_service: Seq<char>,
    other_account: Seq<char>,
    read: Result<String, Fault>,
)
    requires
        delete_spec(Some(held), after, service, account, deleted),
        (service, account) != (other_service, other_account),
    ensures
        get_spec(after, other_service, other_account, read) <==> get_spec(
            Some(held),
            other_service,
            other_account,
            read,
        ),
{
}

/// Two secrets stored under two identities are each read back under their
/// own: the second never shows under the first.
pub proof fn lemma_two_identities(
    held: Map<(Seq<char>, Seq<char>), Seq<char>>,
    between: Option<Map<(Seq<char>, Seq<char>), Seq<char>>>,
    after: Option<Map<(Seq<char>, Seq<char>), Seq<char>>>,
    service: Seq<char>,
    account: Seq<char>,
    secret: Seq<char>,
    other_service: Seq<char>,
    other_account: Seq<char>,
    other_secret: Seq<char>,
    stored: Result<(), Fault>,
    stored_other: Result<(), Fault>,
    read: Result<String, Fault>,
)
    requires
        valid_identity(service, account),
        valid_identity(other_service, other_account),
        (service, account) != (other_service, other_account),
        set_spec(Some(held), between, service, account, secret, stored),
        set_spec(between, after, other_service, other_account, other_secret, stored_other),
        get_spec(after, service, account, read),
    ensures
        read matches Ok(found) && found@ == secret,
{
}

/// `needle` stands in `text` from position `at` on.
pub open spec fn found_at(needle: Seq<char>, text: Seq<char>, at: int) -> bool {
    0 <= at && at + needle.len() <= text.len() && text.subrange(at, at + needle.len()) == needle
}

/// `needle` stands somewhere in `text`.
pub open spec fn occurs_in(needle: Seq<char>, text: Seq<char>) -> bool {
    exists|at: int| found_at(needle, text, at)
}

/// The ways in which an operation on an identity may end, whatever the store:
/// an invalid identity is turned away, a valid one succeeds or fails as a
/// backend can fail. `None` is success.
pub open spec fn may_end_with(service: Seq<char>, account: Seq<char>, fault: Option<Fault>) -> bool {
    if valid_identity(service, account) {
        fault matches Some(fault) ==> from_backend(fault)
    } else {
        fault == Some(rejected_identity())
    }
}

/// The ways in which a `set` on an identity may end: as any operation may,
/// but never with `NotFound`.
pub open spec fn set_may_end_with(
    service: Seq<char>,
    account: Seq<char>,
    fault: Option<Fault>,
) -> bool {
    may_end_with(service, account, fault) && (fault matches Some(fault) ==> fault.error
        != StoreError::NotFound)
}

/// What occurs in a text occurs in the text with a lead before it.
proof fn lemma_occurs_behind_lead(needle: Seq<char>, lead: Seq<char>, text: Seq<char>)
    requires
        occurs_in(needle, text),
    ensures
        occurs_in(needle, lead + text),
{
    let at = choose|at: int| found_at(needle, text, at);
    let whole = lead + text;
    assert(whole.subrange(lead.len() + at, lead.len() + at + needle.len()) =~= text.subrange(
        at,
        at + needle.len(),
    ));
    assert(found_at(needle, whole, lead.len() + at));
}

/// Two `set` requests for one identity that end the same way log the same
/// lines and answer the same text, whatever secrets they carried.
pub proof fn lemma_set_output_ignores_secret(
    before: Option<Map<(Seq<char>, Seq<char>), Seq<char>>>,
    after: Option<Map<(Seq<char>, Seq<char>), Seq<char>>>,
    other_before: Option<Map<(Seq<char>, Seq<char>), Seq<char>>>,
    other_after: Option<Map<(Seq<char>, Seq<char>), Seq<char>>>,
    service: Seq<char>,
    account: Seq<char>,
    secret: Seq<char>,
    other_secret: Seq<char>,
    reply: Reply<()>,
    other_reply: Reply<()>,
    answer: Result<(), String>,
    other_answer: Result<(), String>,
)
    requires
        set_spec(before, after, service, account, secret, reply.outcome),
        set_spec(other_before, other_after, service, account, other_secret, other_reply.outcome),
        reply.log.deep_view() == set_transcript(service, account, failing(reply.outcome)),
        other_reply.log.deep_view() == set_transcript(
            service,
            account,
            failing(other_reply.outcome),
        ),
        answered(reply.outcome, answer),
        answered(other_reply.outcome, other_answer),
        failing(reply.outcome) == failing(other_reply.outcome),
    ensures
        reply.log.deep_view() == other_reply.log.deep_view(),
        answer is Ok <==> other_answer is Ok,
        answer matches Err(text) ==> other_answer matches Err(other_text) && text@ == other_text@,
{
}

/// A `set` shows its secret in no line that it logs and in no text that it
/// answers, unless the secret already stands in a line that a `set` on this
/// identity may log whatever the secret: in the service, in the account or
/// in the fixed wording. The empty secret stands in every line.
pub proof fn lemma_set_shows_no_secret(
    before: Option<Map<(Seq<char>, Seq<char>), Seq<char>>>,
    after: Option<Map<(Seq<char>, Seq<char>), Seq<char>>>,
    service: Seq<char>,
    account: Seq<char>,
    secret: Seq<char>,
    reply: Reply<()>,
    answer: Result<(), String>,
)
    requires
        set_spec(before, after, service, account, secret, reply.outcome),
        reply.log.deep_view() == set_transcript(service, account, failing(reply.outcome)),
        answered(reply.outcome, answer),
        forall|fault: Option<Fault>, i: int|
            set_may_end_with(service, account, fault) && 0 <= i < 2 ==> !occurs_in(
                secret,
                #[trigger] set_transcript(service, account, fault)[i],
            ),
    ensures
        forall|i: int|
            0 <= i < reply.log.deep_view().len() ==> !occurs_in(
                secret,
                #[trigger] reply.log.deep_view()[i],
            ),
        answer matches Err(text) ==> !occurs_in(secret, text@),
{
    let fault = failing(reply.outcome);
    assert(set_may_end_with(service, account, fault));
    let lines = set_transcript(service, account, fault);
    assert(!occurs_in(secret, lines[0]));
    assert(!occurs_in(secret, lines[1]));
    if let Err(text) = answer {
        let failed = fault->0;
        if occurs_in(secret, text@) {
            lemma_occurs_behind_lead(
                secret,
                "Rust: Failed to create entry: "@,
                message_of(failed.error),
            );
            lemma_occurs_behind_lead(
                secret,
                "Rust: Failed to set password: "@,
                message_of(failed.error),
            );
            assert(occurs_in(secret, lines[1]));
        }
    }
}

/// A `get` shows no secret in a line that it logs or in a text that it
/// answers: neither the one it read nor any other that does not already
/// stand in a line that a `get` on this identity may log.
pub proof fn lemma_get_shows_no_secret(
    held: Option<Map<(Seq<char>, Seq<char>), Seq<char>>>,
    service: Seq<char>,
    account: Seq<char>,
    secret: Seq<char>,
    reply: Reply<String>,
    answer: Result<String, String>,
)
    requires
        get_spec(held, service, account, reply.outcome),
        reply.log.deep_view() == get_transcript(service, account, failing(reply.outcome)),
        answered(reply.outcome, answer),
        forall|fault: Option<Fault>, i: int|
            may_end_with(service, account, fault) && 0 <= i < 2 ==> !occurs_in(
                secret,
                #[trigger] get_transcript(service, account, fault)[i],
            ),
    ensures
        forall|i: int|
            0 <= i < reply.log.deep_view().len() ==> !occurs_in(
                secret,
                #[trigger] reply.log.deep_view()[i],
            ),
        answer matches Err(text) ==> !occurs_in(secret, text@),
{
    let fault = failing(reply.outcome);
    assert(may_end_with(service, account, fault));
    let lines = get_transcript(service, account, fault);
    assert(!occurs_in(secret, lines[0]));
    assert(!occurs_in(secret, lines[1]));
    if let Err(text) = answer {
        let failed = fault->0;
        if occurs_in(secret, text@) {
            lemma_occurs_behind_lead(
                secret,
                "Rust: Failed to create entry for get: "@,
                message_of(failed.error),
            );
            lemma_occurs_behind_lead(
                secret,
                "Rust: Failed to get password: "@,
                message_of(failed.error),
            );
            assert(occurs_in(secret, lines[1]));
        }
    }
}

/// A `delete` shows no secret in a line that it logs or in a text that it
/// answers, unless the secret already stands in a line that a `delete` on
/// this identity may log.
pub proof fn lemma_delete_shows_no_secret(
    before: Option<Map<(Seq<char>, Seq<char>), Seq<char>>>,
    after: Option<Map<(Seq<char>, Seq<char>), Seq<char>>>,
    service: Seq<char>,
    account: Seq<char>,
    secret: Seq<char>,
    reply: Reply<()>,
    answer: Result<(), String>,
)
    requires
        delete_spec(before, after, service, account, reply.outcome),
        reply.log.deep_view() == delete_transcript(service, account, failing(reply.outcome)),
        answered(reply.outcome, answer),
        forall|fault: Option<Fault>, i: int|
            may_end_with(service, account, fault) && 0 <= i < 2 ==> !occurs_in(
                secret,
                #[trigger] delete_transcript(service, account, fault)[i],
            ),
    ensures
        forall|i: int|
            0 <= i < reply.log.deep_view().len() ==> !occurs_in(
                secret,
                #[trigger] reply.log.deep_view()[i],
            ),
        answer matches Err(text) ==> !occurs_in(secret, text@),
{
    let fault = failing(reply.outcome);
    assert(may_end_with(service, account, fault));
    let lines = delete_transcript(service, account, fault);
    assert(!occurs_in(secret, lines[0]));
    assert(!occurs_in(secret, lines[1]));
    if let Err(text) = answer {
        let failed = fault->0;
        if occurs_in(secret, text@) {
            lemma_occurs_behind_lead(
                secret,
                "Rust: Failed to create entry for delete: "@,
                message_of(failed.error),
            );
            lemma_occurs_behind_lead(
                secret,
                "Rust: Failed to delete password: "@,
                message_of(failed.error),
            );
            assert(occurs_in(secret, lines[1]));
        }
    }
}

/// Deleting what a store holds succeeds and takes only that away: an
/// identity that is held is valid, so nothing stands in the way.
pub proof fn lemma_delete_of_held(
    store: CredentialStore,
    after: Option<Map<(Seq<char>, Seq<char>), Seq<char>>>,
    service: Seq<char>,
    account: Seq<char>,
    deleted: Result<(), Fault>,
)
    requires
        store@ matches Some(held) && held.dom().contains((service, account)),
        delete_spec(store@, after, service, account, deleted),
    ensures
        deleted is Ok,
        after == Some(store@->0.remove((service, account))),
{
    store.lemma_holds_valid_identities();
}

/// Reading what a store holds succeeds with the secret held.
pub proof fn lemma_get_of_held(
    store: CredentialStore,
    service: Seq<char>,
    account: Seq<char>,
    read: Result<String, Fault>,
)
    requires
        store@ matches Some(held) && held.dom().contains((service, account)),
        get_spec(store@, service, account, read),
    ensures
        read matches Ok(found) && found@ == store@->0[(service, account)],
{
    store.lemma_holds_valid_identities();
}

} // verus!
