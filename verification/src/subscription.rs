//! The kind of the account that the client uses.
//!
//! Its command `auth status` knows best. Where it cannot be asked, the credential
//! itself tells.

use vstd::prelude::*;
use vstd::string::*;
use crate::domain;
use crate::domain::{AccountKind, PlanKind};
use crate::json;

verus! {

/// The kind that a JSON value gives as a subscription type.
pub open spec fn kind_in(value: Option<json::Json>) -> Option<AccountKind> {
    match value {
        Some(value) => match json::text_in(value) {
            Some(text) => Some(domain::subscription_kind(text)),
            None => None,
        },
        None => None,
    }
}

/// The kind that the output of `auth status` gives. `output` is missing
/// where the command could not be run or failed.
pub open spec fn status_kind(output: Option<Seq<u8>>) -> Option<AccountKind> {
    match output {
        Some(bytes) => match json::json_from_bytes(bytes) {
            Some(value) => kind_in(json::member(value, "subscriptionType"@)),
            None => None,
        },
        None => None,
    }
}

/// The kind that a credential gives.
pub open spec fn credential_kind(credential: Seq<char>) -> Option<AccountKind> {
    match json::json_from_text(credential) {
        Some(value) => kind_in(json::member_at(value, "claudeAiOauth"@, "subscriptionType"@)),
        None => None,
    }
}

/// The kind that is told first: by the status, else by the credential. An
/// account of which neither tells is of another kind.
pub open spec fn told_kind(status: Option<AccountKind>, credential: Option<AccountKind>) -> AccountKind {
    match status {
        Some(kind) => kind,
        None => match credential {
            Some(kind) => kind,
            None => AccountKind::Other,
        },
    }
}

/// The bytes that a command printed.
pub open spec fn bytes_of(output: Option<&Vec<u8>>) -> Option<Seq<u8>> {
    match output {
        Some(bytes) => Some(bytes@),
        None => None,
    }
}

fn read_kind(value: Option<&serde_json::Value>) -> (r: Option<AccountKind>)
    ensures
        r == kind_in(json::json_of_option(value)),
{
    match value {
        Some(value) => match json::as_str(value) {
            Some(text) => Some(AccountKind::from_subscription(text)),
            None => None,
        },
        None => None,
    }
}

/// The kind of the account in use. `status` is what `auth status`
/// printed; it is missing where the command could not be run or failed.
pub fn detect_account_kind_from_active_credential(status: Option<&Vec<u8>>, credential: &str) -> (r:
    AccountKind)
    ensures
        r == told_kind(status_kind(bytes_of(status)), credential_kind(credential@)),
{
    match detect_account_kind_from_claude_status(status) {
        Some(kind) => kind,
        None => match detect_account_kind_from_credential(credential) {
            Some(kind) => kind,
            None => AccountKind::Other,
        },
    }
}

/// The kind of the plan in use: the kind of the account in use, in the words of
/// the plan-swap program.
pub fn detect_plan_kind_from_active(status: Option<&Vec<u8>>, credential: &str) -> (r: PlanKind)
    ensures
        r == told_kind(status_kind(bytes_of(status)), credential_kind(credential@)),
{
    detect_account_kind_from_active_credential(status, credential)
}

/// The kind that the output of `auth status` gives.
pub fn detect_account_kind_from_claude_status(status: Option<&Vec<u8>>) -> (r: Option<AccountKind>)
    ensures
        r == status_kind(bytes_of(status)),
{
    match status {
        Some(bytes) => match json::parse_bytes(bytes.as_slice()) {
            Ok(value) => read_kind(json::get(&value, "subscriptionType")),
            Err(_) => None,
        },
        None => None,
    }
}

/// The kind that a credential gives.
pub fn detect_account_kind_from_credential(credential: &str) -> (r: Option<AccountKind>)
    ensures
        r == credential_kind(credential@),
{
    proof {
        reveal_strlit("claudeAiOauth");
        reveal_strlit("subscriptionType");
    }
    match json::parse_text(credential) {
        Ok(value) => read_kind(json::pointer(&value, "claudeAiOauth", "subscriptionType")),
        Err(_) => None,
    }
}

} // verus!
