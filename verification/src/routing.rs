//! Which account automatic routing goes to.
//!
//! From a team account it goes to the first saved enterprise account; once the
//! quota starts anew it goes back to the team account that was left.

use vstd::prelude::*;
use vstd::string::*;
use crate::domain::{AccountEntry, AccountKind, RouteLock, State, StateModel};
use crate::names;
use crate::text;

verus! {

/// Whether `name` is a saved account of the given kind, other than `excluded`.
pub open spec fn qualifies(
    accounts: Map<Seq<char>, AccountEntry>,
    kind: AccountKind,
    excluded: Seq<char>,
    name: Seq<char>,
) -> bool {
    accounts.contains_key(name) && accounts[name].kind == kind && name != excluded
}

/// Whether `name` is the first account in name order that qualifies.
pub open spec fn is_first(
    accounts: Map<Seq<char>, AccountEntry>,
    kind: AccountKind,
    excluded: Seq<char>,
    name: Seq<char>,
) -> bool {
    &&& qualifies(accounts, kind, excluded, name)
    &&& forall|other: Seq<char>|
        #[trigger] qualifies(accounts, kind, excluded, other) && other != name ==> names::precedes(
            name,
            other,
        )
}

/// The first account in name order that qualifies, if any does.
pub open spec fn first_of_kind(
    accounts: Map<Seq<char>, AccountEntry>,
    kind: AccountKind,
    excluded: Seq<char>,
) -> Option<Seq<char>> {
    if exists|name: Seq<char>| is_first(accounts, kind, excluded, name) {
        Some(choose|name: Seq<char>| is_first(accounts, kind, excluded, name))
    } else {
        None
    }
}

/// At most one account is the first.
pub proof fn first_is_unique(
    accounts: Map<Seq<char>, AccountEntry>,
    kind: AccountKind,
    excluded: Seq<char>,
    name: Seq<char>,
)
    requires
        is_first(accounts, kind, excluded, name),
    ensures
        first_of_kind(accounts, kind, excluded) == Some(name),
{
    let chosen = choose|n: Seq<char>| is_first(accounts, kind, excluded, n);
    if chosen != name {
        assert(names::precedes(name, chosen));
        assert(names::precedes(chosen, name));
        names::lemma_precedes_asymmetric(name, chosen);
    }
}

/// Among finitely many accounts of which one qualifies, one is the first.
pub proof fn first_exists(
    accounts: Map<Seq<char>, AccountEntry>,
    kind: AccountKind,
    excluded: Seq<char>,
    name: Seq<char>,
)
    requires
        accounts.dom().finite(),
        qualifies(accounts, kind, excluded, name),
    ensures
        first_of_kind(accounts, kind, excluded) is Some,
        is_first(accounts, kind, excluded, first_of_kind(accounts, kind, excluded)->0),
{
    let candidates = accounts.dom().filter(|n: Seq<char>| qualifies(accounts, kind, excluded, n));
    assert(candidates.contains(name));
    lemma_least(candidates);
    let least = choose|n: Seq<char>|
        candidates.contains(n) && forall|other: Seq<char>| #[trigger]
            candidates.contains(other) && other != n ==> names::precedes(n, other);
    assert forall|other: Seq<char>|
        #[trigger] qualifies(accounts, kind, excluded, other) && other
            != least implies names::precedes(least, other) by {
        assert(candidates.contains(other));
    }
    assert(is_first(accounts, kind, excluded, least));
}

proof fn lemma_least(s: Set<Seq<char>>)
    requires
        s.finite(),
        s.len() > 0 || exists|n: Seq<char>| s.contains(n),
    ensures
        exists|n: Seq<char>|
            s.contains(n) && forall|other: Seq<char>| #[trigger]
                s.contains(other) && other != n ==> names::precedes(n, other),
    decreases s.len(),
{
    let pick = s.choose();
    assert(s.contains(pick));
    let rest = s.remove(pick);
    if exists|n: Seq<char>| rest.contains(n) {
        lemma_least(rest);
        let least = choose|n: Seq<char>|
            rest.contains(n) && forall|other: Seq<char>| #[trigger]
                rest.contains(other) && other != n ==> names::precedes(n, other);
        names::lemma_precedes_total(pick, least);
        if names::precedes(pick, least) {
            assert forall|other: Seq<char>| #[trigger]
                s.contains(other) && other != pick implies names::precedes(pick, other) by {
                assert(rest.contains(other));
                if other != least {
                    names::lemma_precedes_transitive(pick, least, other);
                }
            }
        } else {
            assert forall|other: Seq<char>| #[trigger]
                s.contains(other) && other != least implies names::precedes(least, other) by {
                if other != pick {
                    assert(rest.contains(other));
                }
            }
            assert(s.contains(least));
        }
    } else {
        assert forall|other: Seq<char>| #[trigger]
            s.contains(other) && other != pick implies names::precedes(pick, other) by {
            assert(rest.contains(other));
        }
    }
}

/// Where a full quota of `current` leads.
pub open spec fn enterprise_route(state: StateModel, current: Seq<char>) -> Option<Seq<char>> {
    first_of_kind(state.accounts, AccountKind::Enterprise, current)
}

/// `account` as a way back from `current`: a saved team account other than it.
pub open spec fn team_route(state: StateModel, current: Seq<char>, account: Seq<char>) -> Option<
    Seq<char>,
> {
    if qualifies(state.accounts, AccountKind::Team, current, account) {
        Some(account)
    } else {
        None
    }
}

/// The way back to the account that was in use before `current`.
pub open spec fn previous_route(state: StateModel, current: Seq<char>) -> Option<Seq<char>> {
    match state.previous {
        Some(previous) => team_route(state, current, previous),
        None => None,
    }
}

/// Where the start of a new quota leads: back to the account that a route lock
/// names as left; failing that, if there is a lock at all, to the account that
/// was in use before.
pub open spec fn return_route(
    state: StateModel,
    current: Seq<char>,
    lock_source: Option<Seq<char>>,
    lock_present: bool,
) -> Option<Seq<char>> {
    let locked = match lock_source {
        Some(source) => team_route(state, current, source),
        None => None,
    };
    if locked is Some {
        locked
    } else if lock_present {
        previous_route(state, current)
    } else {
        None
    }
}

/// Where a full quota of `current_account` leads.
pub fn enterprise_target(state: &State, current_account: &str) -> (r: Option<String>)
    ensures
        text::text_of(r) == enterprise_route(state@, current_account@),
        r is None ==> forall|name: Seq<char>|
            !qualifies(state@.accounts, AccountKind::Enterprise, current_account@, name),
{
    first_account_of_kind(state, AccountKind::Enterprise, current_account)
}

/// The way back to the account that `lock` names as left.
pub fn locked_team_target(state: &State, current_account: &str, lock: &RouteLock) -> (r: Option<
    String,
>)
    ensures
        text::text_of(r) == team_route(state@, current_account@, lock.source_account@),
{
    let source = lock.source_account.as_str();
    if text::same_text(source, current_account) {
        return None;
    }
    if let Some(AccountKind::Team) = account_kind(state, source) {
        return Some(source.to_owned());
    }
    None
}

/// The way back to the account that was in use before.
pub fn previous_team_target(state: &State, current_account: &str) -> (r: Option<String>)
    ensures
        text::text_of(r) == previous_route(state@, current_account@),
{
    match &state.previous_account {
        None => None,
        Some(previous) => {
            if text::same_text(previous.as_str(), current_account) {
                return None;
            }
            if let Some(AccountKind::Team) = account_kind(state, previous.as_str()) {
                return Some(previous.clone());
            }
            None
        },
    }
}

/// The first saved account of a kind, other than `excluded_account`.
pub fn first_account_of_kind(state: &State, kind: AccountKind, excluded_account: &str) -> (r:
    Option<String>)
    ensures
        text::text_of(r) == first_of_kind(state@.accounts, kind, excluded_account@),
        r is None ==> forall|name: Seq<char>|
            !qualifies(state@.accounts, kind, excluded_account@, name),
{
    let count: usize = state.accounts.len();
    let ghost listed = state.accounts.names();
    let mut at: usize = 0;
    while at < count
        invariant
            at <= count == listed.len(),
            listed == state.accounts.names(),
            names::is_listing(listed, state@.accounts),
            forall|i: int|
                0 <= i < at ==> !qualifies(
                    state@.accounts,
                    kind,
                    excluded_account@,
                    #[trigger] listed[i],
                ),
        decreases count - at,
    {
        let (name, entry) = state.accounts.entry(at);
        if entry.kind == kind && !text::same_text(name, excluded_account) {
            proof {
                assert forall|other: Seq<char>|
                    #[trigger] qualifies(state@.accounts, kind, excluded_account@, other) && other
                        != name@ implies names::precedes(name@, other) by {
                    assert(state@.accounts.contains_key(other));
                    assert(listed.contains(other));
                    let i = listed.index_of(other);
                    assert(listed[i] == other);
                    assert(names::precedes(listed[at as int], listed[i]));
                }
                first_is_unique(state@.accounts, kind, excluded_account@, name@);
            }
            return Some(name.to_owned());
        }
        at += 1;
    }
    assert forall|name: Seq<char>| !qualifies(
        state@.accounts,
        kind,
        excluded_account@,
        name,
    ) by {
        if state@.accounts.contains_key(name) {
            assert(listed.contains(name));
            assert(listed[listed.index_of(name)] == name);
        }
    }
    None
}

/// The kind of a saved account.
pub fn account_kind(state: &State, account: &str) -> (r: Option<AccountKind>)
    ensures
        r == if state@.accounts.contains_key(account@) {
            Some(state@.accounts[account@].kind)
        } else {
            None
        },
{
    match state.accounts.get(account) {
        Some(entry) => Some(entry.kind),
        None => None,
    }
}

/// Where the start of a new quota leads from `current_account`. `lock` is the
/// route lock, where it could be read; `lock_present` says whether there is one.
pub fn team_return_target(
    state: &State,
    current_account: &str,
    lock: Option<&RouteLock>,
    lock_present: bool,
) -> (r: Option<String>)
    ensures
        text::text_of(r) == return_route(state@, current_account@, lock_source(lock), lock_present),
{
    if let Some(lock) = lock {
        if let Some(target) = locked_team_target(state, current_account, lock) {
            return Some(target);
        }
    }
    if lock_present {
        return previous_team_target(state, current_account);
    }
    None
}

/// The account that a route lock names as left.
pub open spec fn lock_source(lock: Option<&RouteLock>) -> Option<Seq<char>> {
    match lock {
        Some(lock) => Some(lock.source_account@),
        None => None,
    }
}

/// Automatic routing never leads to the account that is in use already, only to
/// saved accounts, and only to the kind it is meant for.
pub proof fn routes_lead_elsewhere(
    state: StateModel,
    current: Seq<char>,
    lock_source: Option<Seq<char>>,
    lock_present: bool,
)
    ensures
        enterprise_route(state, current) matches Some(target) ==> qualifies(
            state.accounts,
            AccountKind::Enterprise,
            current,
            target,
        ),
        return_route(state, current, lock_source, lock_present) matches Some(target) ==> qualifies(
            state.accounts,
            AccountKind::Team,
            current,
            target,
        ),
{
}

} // verus!
