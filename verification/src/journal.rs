//! The lines that an operation leaves for whoever debugs the application.
//!
//! Each operation leaves two: the first names the service and the account,
//! the second says how the operation ended. The functions here are never
//! handed a secret.

use vstd::prelude::*;
use vstd::string::StringExecFns;
use crate::error::{message_of, Fault, Stage};

verus! {

/// The line that opens an operation: a lead, then the identity.
pub open spec fn opening_line(lead: Seq<char>, service: Seq<char>, account: Seq<char>) -> Seq<
    char,
> {
    lead + service + ", account: "@ + account
}

/// The line that closes a `set`.
pub open spec fn set_closing_line(fault: Option<Fault>) -> Seq<char> {
    match fault {
        None => "Rust: Password set successfully"@,
        Some(fault) => match fault.stage {
            Stage::Resolve => "Rust: Failed to create entry: "@ + message_of(fault.error),
            Stage::Access => "Rust: Failed to set password: "@ + message_of(fault.error),
        },
    }
}

/// The line that closes a `get`.
pub open spec fn get_closing_line(fault: Option<Fault>) -> Seq<char> {
    match fault {
        None => "Rust: Password retrieved successfully"@,
        Some(fault) => match fault.stage {
            Stage::Resolve => "Rust: Failed to create entry for get: "@ + message_of(fault.error),
            Stage::Access => "Rust: Failed to get password: "@ + message_of(fault.error),
        },
    }
}

/// The line that closes a `delete`.
pub open spec fn delete_closing_line(fault: Option<Fault>) -> Seq<char> {
    match fault {
        None => "Rust: Password deleted successfully"@,
        Some(fault) => match fault.stage {
            Stage::Resolve => "Rust: Failed to create entry for delete: "@ + message_of(
                fault.error,
            ),
            Stage::Access => "Rust: Failed to delete password: "@ + message_of(fault.error),
        },
    }
}

/// The lines of a `set`, in order: `fault` is how it failed, if it did.
pub open spec fn set_transcript(
    service: Seq<char>,
    account: Seq<char>,
    fault: Option<Fault>,
) -> Seq<Seq<char>> {
    seq![
        opening_line("Rust: Setting keyring - service: "@, service, account),
        set_closing_line(fault),
    ]
}

/// The lines of a `get`, in order.
pub open spec fn get_transcript(
    service: Seq<char>,
    account: Seq<char>,
    fault: Option<Fault>,
) -> Seq<Seq<char>> {
    seq![
        opening_line("Rust: Getting keyring - service: "@, service, account),
        get_closing_line(fault),
    ]
}

/// The lines of a `delete`, in order.
pub open spec fn delete_transcript(
    service: Seq<char>,
    account: Seq<char>,
    fault: Option<Fault>,
) -> Seq<Seq<char>> {
    seq![
        opening_line("Rust: Deleting keyring - service: "@, service, account),
        delete_closing_line(fault),
    ]
}

/// Writes an opening line.
fn open_line(lead: &str, service: &str, account: &str) -> (line: String)
    ensures
        line@ == opening_line(lead@, service@, account@),
{
    let mut line = lead.to_owned();
    line.append(service);
    line.append(", account: ");
    line.append(account);
    line
}

/// Writes the line of a failure: a lead, then the text of its kind.
fn failure_line(lead: &str, fault: Fault) -> (line: String)
    ensures
        line@ == lead@ + message_of(fault.error),
{
    let mut line = lead.to_owned();
    let text = fault.error.message();
    line.append(text.as_str());
    line
}

/// The lines to log for a `set` that ended with `fault`, or well.
pub fn journal_set(service: &str, account: &str, fault: Option<Fault>) -> (lines: Vec<String>)
    ensures
        lines.deep_view() == set_transcript(service@, account@, fault),
{
    let opening = open_line("Rust: Setting keyring - service: ", service, account);
    let closing = match fault {
        None => "Rust: Password set successfully".to_owned(),
        Some(fault) => match fault.stage {
            Stage::Resolve => failure_line("Rust: Failed to create entry: ", fault),
            Stage::Access => failure_line("Rust: Failed to set password: ", fault),
        },
    };
    let mut lines: Vec<String> = Vec::new();
    lines.push(opening);
    lines.push(closing);
    assert(lines.deep_view() =~= set_transcript(service@, account@, fault));
    lines
}

/// The lines to log for a `get` that ended with `fault`, or well.
pub fn journal_get(service: &str, account: &str, fault: Option<Fault>) -> (lines: Vec<String>)
    ensures
        lines.deep_view() == get_transcript(service@, account@, fault),
{
    let opening = open_line("Rust: Getting keyring - service: ", service, account);
    let closing = match fault {
        None => "Rust: Password retrieved successfully".to_owned(),
        Some(fault) => match fault.stage {
            Stage::Resolve => failure_line("Rust: Failed to create entry for get: ", fault),
            Stage::Access => failure_line("Rust: Failed to get password: ", fault),
        },
    };
    let mut lines: Vec<String> = Vec::new();
    lines.push(opening);
    lines.push(closing);
    assert(lines.deep_view() =~= get_transcript(service@, account@, fault));
    lines
}

/// The lines to log for a `delete` that ended with `fault`, or well.
pub fn journal_delete(service: &str, account: &str, fault: Option<Fault>) -> (lines: Vec<String>)
    ensures
        lines.deep_view() == delete_transcript(service@, account@, fault),
{
    let opening = open_line("Rust: Deleting keyring - service: ", service, account);
    let closing = match fault {
        None => "Rust: Password deleted successfully".to_owned(),
        Some(fault) => match fault.stage {
            Stage::Resolve => failure_line("Rust: Failed to create entry for delete: ", fault),
            Stage::Access => failure_line("Rust: Failed to delete password: ", fault),
        },
    };
    let mut lines: Vec<String> = Vec::new();
    lines.push(opening);
    lines.push(closing);
    assert(lines.deep_view() =~= delete_transcript(service@, account@, fault));
    lines
}

} // verus!
