//! What holds of switches, detections and saved logins step by step: how they
//! begin, what a reply does, how they fail and what they leave behind.

use vstd::prelude::*;
use crate::detection;
use crate::detection::{DetectionModel, DetectionPhase};
use crate::domain;
use crate::domain::{AccountKind, StateModel};
use crate::keychain;
use crate::keychain::{Keychain, SecurityCall};
use crate::program;
use crate::program::Product;
use crate::setup;
use crate::setup::{Setup, SetupError, SetupPhase, SetupReply, SetupRequest};
use crate::switch_laws;
use crate::switch_laws::Vault;
use crate::switcher;
use crate::switcher::{Phase, Reply, Request, Switch, SwitchError, SwitchOptions};
use crate::text;
use crate::text_laws;

verus! {

/// The key under which a program keeps the credential of `name`.
pub open spec fn kept_at(keychain: Keychain, name: Seq<char>) -> (Seq<char>, Seq<char>) {
    (program::program_name(keychain.program), "plan:"@ + name)
}

/// The key of the credential that the client uses.
pub open spec fn used_at(keychain: Keychain, account: Seq<char>) -> (Seq<char>, Seq<char>) {
    (program::client_title(keychain.program.client) + "-credentials"@, account)
}

/// Whether `left` is the saved account in use that a switch to `name` leaves.
pub open spec fn is_left(state: StateModel, name: Seq<char>, left: Seq<char>) -> bool {
    state.current == Some(left) && left != name && state.accounts.contains_key(left)
}

/// A switch that need not be confirmed asks for no confirmation; any other asks
/// for that first, and calls for nothing until it is answered.
pub proof fn unconfirmed_switch_asks_first(keychain: Keychain, state: StateModel, name: Seq<char>)
    ensures
        switcher::asked(switcher::begun(keychain, state, name, false)) is Confirm,
        switcher::asked(switcher::begun(keychain, state, name, true)) is Call,
{
}

/// A switch remembers its target, the kind under which that is saved, and the
/// account that it leaves, from its beginning to its end.
pub proof fn switch_knows_where_it_goes(
    keychain: Keychain,
    state: StateModel,
    name: Seq<char>,
    yes: bool,
    replies: Seq<Reply<Seq<char>>>,
    left: Seq<char>,
)
    requires
        state.accounts.contains_key(name),
    ensures
        ({
            let switch = switch_laws::replayed(
                switcher::begun(keychain, state, name, yes),
                replies,
            );
            &&& switch.target == name
            &&& switch.kind == state.accounts[name].kind
            &&& switch.keychain == keychain
            &&& switch.known == state.active
            &&& switch.leaving == Some(left) <==> is_left(state, name, left)
        }),
    decreases replies.len(),
{
    if replies.len() > 0 {
        switch_knows_where_it_goes(keychain, state, name, yes, replies.drop_last(), left);
    }
}

/// A switch that is agreed to goes on as one that need not be confirmed: it
/// makes the same calls and comes to the same end.
pub proof fn agreed_switch_is_confirmed_switch(
    keychain: Keychain,
    state: StateModel,
    vault: Vault,
    name: Seq<char>,
    before: Seq<char>,
    word: Seq<char>,
    after: Seq<char>,
)
    requires
        text_laws::is_blank(before),
        text_laws::is_blank(after),
        word == seq!['y'] || word == seq!['Y'] || word == seq!['y', 'e', 's'] || word
            == seq!['Y', 'E', 'S'],
    ensures
        ({
            let asked = switcher::begun(keychain, state, name, false);
            let agreed = switcher::advanced(asked, Reply::Text(before + word + after));
            &&& agreed == switcher::begun(keychain, state, name, true)
            &&& switch_laws::run(vault, agreed, 6) == switch_laws::outcome(
                keychain,
                state,
                vault,
                name,
            )
        }),
{
    text_laws::only_four_words_agree(before, word, after);
}

/// A switch that is agreed to puts the credential of its target into use and
/// saves the one in use for the account that it leaves. No other credential
/// changes. It needs a saved target with its credential, a Keychain account to
/// work on and, of the quota router, a valid name of the account that it leaves.
pub proof fn agreed_switch_changes_two_credentials(
    keychain: Keychain,
    state: StateModel,
    vault: Vault,
    name: Seq<char>,
    before: Seq<char>,
    word: Seq<char>,
    after: Seq<char>,
    account: Seq<char>,
    key: (Seq<char>, Seq<char>),
)
    requires
        text_laws::is_blank(before),
        text_laws::is_blank(after),
        word == seq!['y'] || word == seq!['Y'] || word == seq!['y', 'e', 's'] || word
            == seq!['Y', 'E', 'S'],
        state.accounts.contains_key(name),
        state.active == Some(account) || (state.active is None && vault.logged_in == Some(account)),
        vault.items.contains_key(kept_at(keychain, name)),
        keychain.program.product == Product::QuotaRouter ==> forall|left: Seq<char>| #[trigger]
            is_left(state, name, left) ==> domain::name_error(left) is None,
    ensures
        ({
            let asked = switcher::begun(keychain, state, name, false);
            let end = switch_laws::run(
                vault,
                switcher::advanced(asked, Reply::Text(before + word + after)),
                6,
            );
            let items = end.0.items;
            let active = used_at(keychain, account);
            let target = vault.items[kept_at(keychain, name)];
            let backed_up = vault.items.contains_key(active) && exists|left: Seq<char>| #[trigger]
                is_left(state, name, left) && key == kept_at(keychain, left);
            &&& end.1.phase is Done
            &&& end.1.phase->Done_account == account
            &&& end.1.phase->switched <==> !(vault.items.contains_key(active)
                && vault.items[active] == target) && !(!vault.items.contains_key(active)
                && target.len() == 0)
            &&& target.len() > 0 || vault.items.contains_key(active) ==> items.contains_key(active)
                && items[active] == target
            &&& backed_up ==> items.contains_key(key) && items[key] == vault.items[active]
            &&& !backed_up && key != active ==> {
                &&& items.contains_key(key) <==> vault.items.contains_key(key)
                &&& vault.items.contains_key(key) ==> items[key] == vault.items[key]
            }
        }),
{
    agreed_switch_is_confirmed_switch(keychain, state, vault, name, before, word, after);
    assert(kept_at(keychain, name) == switch_laws::saved_key(keychain.program, name));
    assert(used_at(keychain, account) == switch_laws::active_key(keychain.program, account));
    switch_laws::keys_are_distinct(keychain.program, name, name, account);
    if let Some(left) = switcher::left_by(state, name) {
        assert(is_left(state, name, left));
        assert(kept_at(keychain, left) == switch_laws::saved_key(keychain.program, left));
        switch_laws::keys_are_distinct(keychain.program, left, name, account);
    }
    switch_laws::switch_activates_target(keychain, state, vault, name, account);
    let active = used_at(keychain, account);
    if exists|left: Seq<char>| #[trigger]
        is_left(state, name, left) && key == kept_at(keychain, left) {
        let left = choose|left: Seq<char>| #[trigger]
            is_left(state, name, left) && key == kept_at(keychain, left);
        assert(switcher::left_by(state, name) == Some(left));
        switch_laws::keys_are_distinct(keychain.program, left, name, account);
    }
    if !vault.items.contains_key(active) {
        assert(switch_laws::active_credential(keychain.program, vault, account) =~= Seq::empty());
    }
    if vault.items[kept_at(keychain, name)].len() == 0 {
        assert(vault.items[kept_at(keychain, name)] =~= Seq::<char>::empty());
    }
}

/// A switch fails where no Keychain account is known, or where the target has no
/// credential, or where the quota router would save under a bad name; it says
/// which, and the Keychain is as before but for the credential that was saved
/// for the account to be left.
pub proof fn switch_fails_for_what_is_missing(
    keychain: Keychain,
    state: StateModel,
    vault: Vault,
    name: Seq<char>,
    account: Seq<char>,
    left: Seq<char>,
)
    requires
        state.accounts.contains_key(name),
    ensures
        ({
            let end = switch_laws::outcome(keychain, state, vault, name);
            let known = state.active == Some(account) || (state.active is None && vault.logged_in
                == Some(account));
            let used = vault.items.contains_key(used_at(keychain, account));
            let refused = keychain.program.product == Product::QuotaRouter && domain::name_error(
                left,
            ) is Some;
            &&& state.active is None && vault.logged_in is None ==> end.0 == vault && end.1.phase
                == Phase::<Seq<char>>::Failed(SwitchError::AccountUnknown)
            &&& known && is_left(state, name, left) && used && refused ==> end.0 == vault
                && end.1.phase == Phase::<Seq<char>>::Failed(
                SwitchError::BadName(domain::name_error(left)->0),
            )
            &&& known && (is_left(state, name, left) ==> !refused || !used) && (
            state.current matches Some(current) ==> current == left) && !vault.items.contains_key(
                kept_at(keychain, name),
            ) ==> end.1.phase == Phase::Failed(SwitchError::TargetUnreadable { name })
        }),
{
    reveal_with_fuel(switch_laws::run, 7);
    switch_laws::keys_are_distinct(keychain.program, name, name, account);
    switch_laws::keys_are_distinct(keychain.program, left, name, account);
    assert(kept_at(keychain, name) == switch_laws::saved_key(keychain.program, name));
    assert(kept_at(keychain, left) == switch_laws::saved_key(keychain.program, left));
    assert(used_at(keychain, account) == switch_laws::active_key(keychain.program, account));
}

/// A reply that is a failure ends a switch where its result is needed, with the
/// reason; where the credential in use cannot be read, the switch goes on.
pub proof fn failed_replies_end_switch(switch: Switch<Seq<char>>)
    ensures
        ({
            let next = switcher::advanced(switch, Reply::Failed).phase;
            &&& switch.phase is Confirming ==> next == Phase::<Seq<char>>::Failed(
                SwitchError::Unanswered,
            )
            &&& switch.phase is Confirming ==> switcher::advanced(
                switch,
                Reply::NotInteractive,
            ).phase == Phase::<Seq<char>>::Failed(SwitchError::NotInteractive)
            &&& switch.phase is Detecting ==> next == Phase::<Seq<char>>::Failed(
                SwitchError::AccountUnknown,
            )
            &&& switch.phase matches Phase::ReadingCurrent { account } ==> next == (
            Phase::ReadingTarget { account })
            &&& switch.phase is BackingUp ==> next == Phase::Failed(
                SwitchError::BackupFailed { name: switch.leaving->0 },
            )
            &&& switch.phase is ReadingTarget ==> next == Phase::Failed(
                SwitchError::TargetUnreadable { name: switch.target },
            )
            &&& switch.phase is Activating ==> next == Phase::Failed(
                SwitchError::ActivationFailed { name: switch.target },
            )
            &&& switch.phase matches Phase::ReadingActive { account, credential } ==> (
            credential.len() > 0 ==> next == (Phase::Activating { account, credential }))
            &&& switch.phase is Done || switch.phase is Failed ==> next == switch.phase
        }),
{
}

/// A switch that is done is written into the state: the target is in use, under
/// the Keychain account it works on. The account in use before is the one
/// before, if another credential is in use now and it is another account.
/// Nothing else changes, and nothing at all where the switch is not done.
pub proof fn done_switch_is_recorded(switch: Switch<Seq<char>>, state: StateModel)
    ensures
        ({
            let after = switcher::settled(switch, state);
            &&& after.accounts == state.accounts
            &&& !(switch.phase is Done) ==> after == state
            &&& switch.phase matches Phase::Done { account, switched } ==> {
                &&& after.current == Some(switch.target)
                &&& after.active == Some(account)
                &&& switched && state.current != Some(switch.target) ==> after.previous
                    == state.current
                &&& !switched || state.current == Some(switch.target) ==> after.previous
                    == state.previous
            }
        }),
{
}

/// The route lock names a team account that was left for an enterprise account,
/// and no other.
pub proof fn lock_names_team_account_left(
    switch: Switch<Seq<char>>,
    state: StateModel,
    left: Seq<char>,
)
    ensures
        switcher::lock_left(switch, state) == Some(left) <==> {
            &&& switch.phase matches Phase::Done { switched, .. } && switched
            &&& switch.kind == AccountKind::Enterprise
            &&& switch.leaving == Some(left)
            &&& state.accounts.contains_key(left)
            &&& state.accounts[left].kind == AccountKind::Team
        },
{
}

/// A switch to an enterprise account leaves a lock and keeps the quota seen; one
/// to a team account takes both away; both forget which events were notified
/// of. A switch to another kind touches none of it.
pub proof fn switches_reset_by_kind()
    ensures
        switcher::resets(AccountKind::Enterprise).write_lock,
        !switcher::resets(AccountKind::Enterprise).remove_lock,
        !switcher::resets(AccountKind::Enterprise).remove_snapshot,
        switcher::resets(AccountKind::Enterprise).clear_notified,
        !switcher::resets(AccountKind::Team).write_lock,
        switcher::resets(AccountKind::Team).remove_lock,
        switcher::resets(AccountKind::Team).remove_snapshot,
        switcher::resets(AccountKind::Team).clear_notified,
        !switcher::resets(AccountKind::Other).write_lock,
        !switcher::resets(AccountKind::Other).remove_lock,
        !switcher::resets(AccountKind::Other).remove_snapshot,
        !switcher::resets(AccountKind::Other).clear_notified,
{
}

/// A switch that is done is reported where that is asked for: with a hint if
/// another credential is in use now. Nothing is reported of any other.
pub proof fn done_switch_is_reported(switch: Switch<Seq<char>>, options: SwitchOptions)
    ensures
        ({
            let lines = switcher::reported(switch, options);
            &&& !options.emit || !(switch.phase is Done) ==> lines.len() == 0
            &&& options.emit && (switch.phase matches Phase::Done { switched, .. } && switched)
                ==> lines.len() == 2 && lines[0] == "switched to plan: "@ + switch.target
                && lines[1] == "restart "@ + program::client_title(switch.keychain.program.client)
                + " if the running session does not pick up the new credential"@
            &&& options.emit && (switch.phase matches Phase::Done { switched, .. } && !switched)
                ==> lines.len() == 1 && lines[0] == "already using plan: "@ + switch.target
        }),
{
}

/// A login that is saved stands in the state under its name with the kind that
/// was given or found out. It keeps the time of its first saving, if it was
/// saved before, and is the one in use. No other saved account changes, nor does
/// anything where the login is not saved.
pub proof fn saved_login_is_recorded(
    setup: Setup<Seq<char>>,
    state: StateModel,
    now: u64,
    other: Seq<char>,
)
    requires
        other != setup.name,
    ensures
        ({
            let after = setup::settled(setup, state, now);
            &&& !(setup.phase is Done) ==> after == state
            &&& setup.phase matches SetupPhase::Done { account, kind } ==> {
                &&& after.accounts.contains_key(setup.name)
                &&& after.accounts[setup.name].kind == kind
                &&& after.accounts[setup.name].updated_at == now
                &&& state.accounts.contains_key(setup.name)
                    ==> after.accounts[setup.name].created_at
                    == state.accounts[setup.name].created_at
                &&& !state.accounts.contains_key(setup.name)
                    ==> after.accounts[setup.name].created_at == now
                &&& after.accounts.contains_key(other) <==> state.accounts.contains_key(other)
                &&& state.accounts.contains_key(other) ==> after.accounts[other]
                    == state.accounts[other]
                &&& after.active == Some(account)
                &&& after.current == Some(setup.name)
                &&& after.previous == state.previous
            }
        }),
{
}

/// The entry under a name that is saved has the kind it is saved with, in every
/// state.
pub proof fn recorded_kind_is_kept(
    state: StateModel,
    name: Seq<char>,
    account: Seq<char>,
    kind: AccountKind,
    now: u64,
)
    ensures
        setup::recorded(state, name, account, kind, now).accounts.contains_key(name),
        setup::recorded(state, name, account, kind, now).accounts[name].kind == kind,
        setup::recorded(state, name, account, kind, now).accounts.remove(name)
            == state.accounts.remove(name),
{
    let after = setup::recorded(state, name, account, kind, now);
    assert(after.accounts.remove(name) =~= state.accounts.remove(name));
}

/// Saving a login needs a Keychain account and its credential; without them it
/// fails with that reason and leaves the Keychain alone. A refusal to store is
/// told by the name.
pub proof fn login_fails_for_what_is_missing(
    keychain: Keychain,
    state: StateModel,
    vault: Vault,
    name: Seq<char>,
    given: Option<AccountKind>,
    kind: AccountKind,
    account: Seq<char>,
    credential: Seq<char>,
)
    ensures
        ({
            let start = setup::begun(keychain, state, name, given);
            let end = switch_laws::saved(vault, start, kind, 4);
            let known = state.active == Some(account) || (state.active is None && vault.logged_in
                == Some(account));
            &&& start.name == name && start.given == given
            &&& state.active is None && vault.logged_in is None ==> end.0 == vault && end.1.phase
                == SetupPhase::<Seq<char>>::Failed(SetupError::AccountUnknown)
            &&& known && !vault.items.contains_key(used_at(keychain, account)) ==> end.0 == vault
                && end.1.phase == SetupPhase::<Seq<char>>::Failed(SetupError::CredentialUnreadable)
            &&& setup::advanced(
                Setup { phase: SetupPhase::Storing { account, credential, kind }, ..start },
                SetupReply::Failed,
            ).phase == SetupPhase::Failed(SetupError::StoreFailed { name })
            &&& setup::advanced(
                Setup { phase: SetupPhase::Asking { account, credential }, ..start },
                SetupReply::Failed,
            ).phase == (SetupPhase::Storing { account, credential, kind: AccountKind::Other })
        }),
{
    reveal_with_fuel(switch_laws::saved, 5);
    assert(used_at(keychain, account) == switch_laws::active_key(keychain.program, account));
}

/// The kind is found out from the credential that is saved, and only where it is
/// not given.
pub proof fn kind_is_asked_of_credential(setup: Setup<Seq<char>>, credential: Seq<char>)
    requires
        setup.phase is Reading,
    ensures
        ({
            let next = setup::advanced(setup, SetupReply::Text(credential));
            let account = setup.phase->Reading_account;
            &&& setup.given is None ==> setup::asked(next) == (SetupRequest::AskKind { credential })
            &&& setup.given is Some ==> setup::asked(next) == SetupRequest::Call(
                SecurityCall::Upsert {
                    service: program::program_name(setup.keychain.program),
                    account: "plan:"@ + setup.name,
                    credential,
                },
            )
        }),
{
}

/// What is reported of a saved login names it and its kind; nothing is reported
/// of one that is not saved.
pub proof fn saved_login_is_reported(setup: Setup<Seq<char>>)
    ensures
        setup::reported(setup) is Some <==> setup.phase is Done,
        setup.phase matches SetupPhase::Done { account, kind } ==> setup::reported(setup) == Some(
            "saved plan: "@ + setup.name + " ("@ + domain::kind_text(kind) + ")"@,
        ),
{
}

/// An account that is found is written into the state as the one in use, with
/// the Keychain account; nothing else changes, and nothing at all where none is
/// found.
pub proof fn found_account_is_recorded(detection: DetectionModel, state: StateModel)
    ensures
        ({
            let after = detection::settled(detection, state);
            &&& after.accounts == state.accounts
            &&& after.previous == state.previous
            &&& !(detection.phase is Found) ==> after == state
            &&& detection.phase matches DetectionPhase::Found { account, name } ==> after.active
                == Some(account) && after.current == Some(name)
        }),
{
}

/// A detection fails where no Keychain account is known or no credential is in
/// use.
pub proof fn detection_fails_for_what_is_missing(
    keychain: Keychain,
    state: StateModel,
    names: Seq<Seq<char>>,
    vault: Vault,
    account: Seq<char>,
)
    ensures
        ({
            let end = switch_laws::detected(
                vault,
                detection::begun(keychain, state, names),
                (names.len() + 2) as nat,
            ).phase;
            let known = state.active == Some(account) || (state.active is None && vault.logged_in
                == Some(account));
            &&& state.active is None && vault.logged_in is None ==> end is CallFailed
            &&& known && !vault.items.contains_key(used_at(keychain, account)) ==> end is CallFailed
        }),
{
    reveal_with_fuel(switch_laws::detected, 3);
    assert(used_at(keychain, account) == switch_laws::active_key(keychain.program, account));
}

/// A detection of the quota router stops at the first saved name that breaks the
/// rules, if no credential before it is the one in use, and says what is wrong
/// with it.
pub proof fn detection_stops_at_bad_name(
    keychain: Keychain,
    state: StateModel,
    names: Seq<Seq<char>>,
    vault: Vault,
    account: Seq<char>,
    bad: int,
)
    requires
        keychain.program.product == Product::QuotaRouter,
        names.len() <= usize::MAX,
        state.active == Some(account) || (state.active is None && vault.logged_in == Some(account)),
        vault.items.contains_key(used_at(keychain, account)),
        0 <= bad < names.len(),
        domain::name_error(names[bad]) is Some,
        forall|i: int|
            0 <= i < bad ==> domain::name_error(#[trigger] names[i]) is None && !(
            vault.items.contains_key(kept_at(keychain, names[i])) && vault.items[kept_at(
                keychain,
                names[i],
            )] == vault.items[used_at(keychain, account)]),
    ensures
        switch_laws::detected(
            vault,
            detection::begun(keychain, state, names),
            (names.len() + 2) as nat,
        ).phase == DetectionPhase::<Seq<char>>::BadName(domain::name_error(names[bad])->0),
{
    assert(used_at(keychain, account) == switch_laws::active_key(keychain.program, account));
    let active = vault.items[used_at(keychain, account)];
    let start = detection::begun(keychain, state, names);
    let steps = (names.len() + 2) as nat;
    let reading = DetectionModel { phase: DetectionPhase::ReadingActive { account }, ..start };
    let first = DetectionModel {
        phase: detection::comparing(keychain, names, account, active, 0),
        ..start
    };
    if state.active is None {
        assert(switch_laws::detected(vault, start, steps) == switch_laws::detected(
            vault,
            reading,
            (steps - 1) as nat,
        ));
        assert(switch_laws::detected(vault, reading, (steps - 1) as nat) == switch_laws::detected(
            vault,
            first,
            (steps - 2) as nat,
        ));
        lemma_stops(vault, first, account, active, 0, bad, (steps - 2) as nat);
    } else {
        assert(start == reading);
        assert(switch_laws::detected(vault, reading, steps) == switch_laws::detected(
            vault,
            first,
            (steps - 1) as nat,
        ));
        lemma_stops(vault, first, account, active, 0, bad, (steps - 1) as nat);
    }
}

proof fn lemma_stops(
    vault: Vault,
    detection: DetectionModel,
    account: Seq<char>,
    active: Seq<char>,
    at: int,
    bad: int,
    steps: nat,
)
    requires
        detection.keychain.program.product == Product::QuotaRouter,
        0 <= at <= bad < detection.names.len() <= usize::MAX,
        steps >= detection.names.len() - at,
        domain::name_error(detection.names[bad]) is Some,
        detection.phase == detection::comparing(
            detection.keychain,
            detection.names,
            account,
            active,
            at,
        ),
        forall|i: int|
            0 <= i < bad ==> domain::name_error(#[trigger] detection.names[i]) is None && !(
            vault.items.contains_key(kept_at(detection.keychain, detection.names[i]))
                && vault.items[kept_at(detection.keychain, detection.names[i])] == active),
    ensures
        switch_laws::detected(vault, detection, steps).phase == DetectionPhase::<
            Seq<char>,
        >::BadName(domain::name_error(detection.names[bad])->0),
    decreases bad - at,
{
    if at < bad {
        assert(domain::name_error(detection.names[at]) is None);
        let call = SecurityCall::Read {
            service: program::program_name(detection.keychain.program),
            account: keychain::plan_account_of(detection.names[at]),
        };
        let next = detection::advanced(detection, switch_laws::answer(vault, call));
        assert(detection::asked(detection) == Request::Call(call));
        assert(switch_laws::detected(vault, detection, steps) == switch_laws::detected(
            vault,
            next,
            (steps - 1) as nat,
        ));
        lemma_stops(vault, next, account, active, at + 1, bad, (steps - 1) as nat);
    }
}

} // verus!
