//! What holds of whole switches.
//!
//! The laws speak of a Keychain that does what it is asked: a model of its items
//! against which a switch is run to its end.

use vstd::prelude::*;
use crate::detection;
use crate::detection::{DetectionModel, DetectionPhase};
use crate::domain;
use crate::domain::{AccountKind, StateModel};
use crate::keychain;
use crate::keychain::{Keychain, SecurityCall};
use crate::program;
use crate::program::{Product, Program};
use crate::setup;
use crate::setup::{Setup, SetupPhase, SetupReply, SetupRequest};
use crate::switcher;
use crate::switcher::{Phase, Reply, Request, Switch};

verus! {

/// A Keychain: its credentials by service and account, and the account that
/// the client uses, where it is logged in.
#[verifier::ext_equal]
pub struct Vault {
    pub items: Map<(Seq<char>, Seq<char>), Seq<char>>,
    pub logged_in: Option<Seq<char>>,
}

/// What a Keychain answers to a call.
pub open spec fn answer(vault: Vault, call: SecurityCall<Seq<char>>) -> Reply<Seq<char>> {
    match call {
        SecurityCall::Read { service, account } => if vault.items.contains_key((service, account)) {
            Reply::Text(vault.items[(service, account)])
        } else {
            Reply::Failed
        },
        SecurityCall::Upsert { service, account, credential } => Reply::Text(Seq::empty()),
        SecurityCall::Delete { service, account } => if vault.items.contains_key(
            (service, account),
        ) {
            Reply::Text(Seq::empty())
        } else {
            Reply::Failed
        },
        SecurityCall::Detect { service: _ } => match vault.logged_in {
            Some(account) => Reply::Text(account),
            None => Reply::Failed,
        },
    }
}

/// A Keychain after a call.
pub open spec fn called(vault: Vault, call: SecurityCall<Seq<char>>) -> Vault {
    match call {
        SecurityCall::Upsert { service, account, credential } => Vault {
            items: vault.items.insert((service, account), credential),
            ..vault
        },
        SecurityCall::Delete { service, account } => Vault {
            items: vault.items.remove((service, account)),
            ..vault
        },
        _ => vault,
    }
}

/// A switch run for at most `steps` calls, as long as it asks for any.
pub open spec fn run(vault: Vault, switch: Switch<Seq<char>>, steps: nat) -> (
    Vault,
    Switch<Seq<char>>,
)
    decreases steps,
{
    match switcher::asked(switch) {
        Request::Call(call) => if steps == 0 {
            (vault, switch)
        } else {
            run(
                called(vault, call),
                switcher::advanced(switch, answer(vault, call)),
                (steps - 1) as nat,
            )
        },
        _ => (vault, switch),
    }
}

/// A confirmed switch to `name`, run to its end.
pub open spec fn outcome(
    keychain: Keychain,
    state: StateModel,
    vault: Vault,
    name: Seq<char>,
) -> (Vault, Switch<Seq<char>>) {
    run(vault, switcher::begun(keychain, state, name, true), 6)
}

/// The key of the credential that the client uses.
pub open spec fn active_key(program: Program, account: Seq<char>) -> (Seq<char>, Seq<char>) {
    (keychain::active_service(program.client), account)
}

/// The key of the credential that a program saved under a name.
pub open spec fn saved_key(program: Program, name: Seq<char>) -> (Seq<char>, Seq<char>) {
    (program::program_name(program), keychain::plan_account_of(name))
}

/// The Keychain account that a switch works on.
pub open spec fn account_in_use(state: StateModel, vault: Vault) -> Option<Seq<char>> {
    if state.active is Some {
        state.active
    } else {
        vault.logged_in
    }
}

/// Whether a program takes `name` for a name when it reads its state back.
pub open spec fn acceptable(product: Product, name: Seq<char>) -> bool {
    product == Product::QuotaRouter ==> domain::name_error(name) is None
}

/// Names are saved under keys of their own, none of which is the key of the
/// credential in use.
pub proof fn keys_are_distinct(program: Program, a: Seq<char>, b: Seq<char>, account: Seq<char>)
    ensures
        saved_key(program, a) == saved_key(program, b) ==> a == b,
        saved_key(program, a) != active_key(program, account),
{
    let prefix = "plan:"@;
    assert((prefix + a).skip(prefix.len() as int) =~= a);
    assert((prefix + b).skip(prefix.len() as int) =~= b);
    reveal_strlit("-quota-router");
    reveal_strlit("-plan-swap");
    reveal_strlit("-credentials");
    assert(program::program_name(program).last() == program::suffix(program.product).last());
    assert(keychain::active_service(program.client).last() == 's');
}

/// The credential in use; an empty one where there is none.
pub open spec fn active_credential(program: Program, vault: Vault, account: Seq<char>) -> Seq<char> {
    if vault.items.contains_key(active_key(program, account)) {
        vault.items[active_key(program, account)]
    } else {
        Seq::empty()
    }
}

/// The items of a Keychain once the credential in use is saved for the account
/// that a switch to `name` leaves. Where none is in use, nothing is saved.
pub open spec fn backed_up(
    program: Program,
    state: StateModel,
    vault: Vault,
    name: Seq<char>,
    account: Seq<char>,
) -> Map<(Seq<char>, Seq<char>), Seq<char>> {
    match switcher::left_by(state, name) {
        Some(left) => if vault.items.contains_key(active_key(program, account)) {
            vault.items.insert(saved_key(program, left), vault.items[active_key(program, account)])
        } else {
            vault.items
        },
        None => vault.items,
    }
}

/// A confirmed switch to a saved account whose credential is there succeeds. It
/// saves the credential in use for the account that it leaves, puts the one of
/// the target into use unless it is in use already, and touches nothing else in
/// the Keychain.
pub proof fn switch_activates_target(
    keychain: Keychain,
    state: StateModel,
    vault: Vault,
    name: Seq<char>,
    account: Seq<char>,
)
    requires
        state.accounts.contains_key(name),
        account_in_use(state, vault) == Some(account),
        vault.items.contains_key(saved_key(keychain.program, name)),
        switcher::left_by(state, name) matches Some(left) ==> acceptable(keychain.program.product, left),
    ensures
        ({
            let active = active_credential(keychain.program, vault, account);
            let saved = vault.items[saved_key(keychain.program, name)];
            let (after, switch) = outcome(keychain, state, vault, name);
            let kept = backed_up(keychain.program, state, vault, name, account);
            &&& switch.phase == (Phase::Done { account, switched: active != saved })
            &&& after.items == if active == saved {
                kept
            } else {
                kept.insert(active_key(keychain.program, account), saved)
            }
            &&& active_credential(keychain.program, after, account) == saved
            &&& after.logged_in == vault.logged_in
            &&& switch.target == name
        }),
{
    reveal_with_fuel(run, 7);
    if let Some(left) = switcher::left_by(state, name) {
        keys_are_distinct(keychain.program, left, name, account);
    }
    keys_are_distinct(keychain.program, name, name, account);
}

/// A switch that fails leaves the credential in use as it was.
pub proof fn failed_switch_keeps_credential(
    keychain: Keychain,
    state: StateModel,
    vault: Vault,
    name: Seq<char>,
    account: Seq<char>,
)
    requires
        outcome(keychain, state, vault, name).1.phase is Failed,
    ensures
        ({
            let after = outcome(keychain, state, vault, name).0;
            &&& after.items.contains_key(active_key(keychain.program, account)) == vault.items.contains_key(
                active_key(keychain.program, account),
            )
            &&& vault.items.contains_key(active_key(keychain.program, account)) ==> after.items[active_key(keychain.program, account)]
                == vault.items[active_key(keychain.program, account)]
        }),
{
    reveal_with_fuel(run, 7);
    if let Some(left) = switcher::left_by(state, name) {
        keys_are_distinct(keychain.program, left, name, account);
    }
}

/// A confirmed switch comes to an end: it makes no more calls than it is run
/// for.
pub proof fn switch_ends(keychain: Keychain, state: StateModel, vault: Vault, name: Seq<char>)
    ensures
        outcome(keychain, state, vault, name).1.phase is Done || outcome(
            keychain,
            state,
            vault,
            name,
        ).1.phase is Failed,
{
    reveal_with_fuel(run, 7);
}

/// Switching from one saved account to another and back puts the first
/// credential and account into use again. Nothing in the Keychain differs then
/// but the credential saved for the first account, which is the one in use. The
/// state names the second account as the one before, unless both accounts have
/// the same credential.
pub proof fn switching_back_restores(
    keychain: Keychain,
    state: StateModel,
    vault: Vault,
    home: Seq<char>,
    away: Seq<char>,
    account: Seq<char>,
)
    requires
        state.current == Some(home),
        home != away,
        state.accounts.contains_key(home),
        state.accounts.contains_key(away),
        acceptable(keychain.program.product, home),
        acceptable(keychain.program.product, away),
        account_in_use(state, vault) == Some(account),
        vault.items.contains_key(active_key(keychain.program, account)),
        vault.items.contains_key(saved_key(keychain.program, away)),
    ensures
        ({
            let first = outcome(keychain, state, vault, away);
            let there = switcher::settled(first.1, state);
            let second = outcome(keychain, there, first.0, home);
            let back = switcher::settled(second.1, there);
            let active = vault.items[active_key(keychain.program, account)];
            let other = vault.items[saved_key(keychain.program, away)];
            &&& there.current == Some(away)
            &&& there.previous == if active != other {
                Some(home)
            } else {
                state.previous
            }
            &&& back.current == Some(home)
            &&& back.previous == if active != other {
                Some(away)
            } else {
                state.previous
            }
            &&& back.active == Some(account)
            &&& back.accounts == state.accounts
            &&& second.0.items == vault.items.insert(saved_key(keychain.program, home), active)
        }),
{
    let first = outcome(keychain, state, vault, away);
    let there = switcher::settled(first.1, state);
    let active = vault.items[active_key(keychain.program, account)];
    let saved = vault.items[saved_key(keychain.program, away)];
    keys_are_distinct(keychain.program, home, away, account);
    keys_are_distinct(keychain.program, away, home, account);
    switch_activates_target(keychain, state, vault, away, account);
    assert(first.0.items[saved_key(keychain.program, home)] == active);
    assert(first.0.items[active_key(keychain.program, account)] == saved);
    assert(first.0.items.contains_key(active_key(keychain.program, account)));
    switch_activates_target(keychain, there, first.0, home, account);
    let second = outcome(keychain, there, first.0, home);
    assert(second.0.items =~= vault.items.insert(
        saved_key(keychain.program, home),
        vault.items[active_key(keychain.program, account)],
    ));
}

/// A switch after a series of replies.
pub open spec fn replayed(switch: Switch<Seq<char>>, replies: Seq<Reply<Seq<char>>>) -> Switch<
    Seq<char>,
>
    decreases replies.len(),
{
    if replies.len() == 0 {
        switch
    } else {
        switcher::advanced(replayed(switch, replies.drop_last()), replies.last())
    }
}

/// Without consent the Keychain is left alone: a switch that has to be confirmed
/// makes no call unless the first reply agrees to it, whatever comes later.
pub proof fn no_call_without_consent(
    keychain: Keychain,
    state: StateModel,
    name: Seq<char>,
    replies: Seq<Reply<Seq<char>>>,
)
    requires
        replies.len() > 0 ==> switcher::consent(replies[0]) is Err,
    ensures
        !(switcher::asked(replayed(switcher::begun(keychain, state, name, false), replies)) is Call),
        replies.len() > 0 ==> replayed(
            switcher::begun(keychain, state, name, false),
            replies,
        ).phase == Phase::Failed(switcher::consent(replies[0])->Err_0),
    decreases replies.len(),
{
    if replies.len() > 1 {
        no_call_without_consent(keychain, state, name, replies.drop_last());
        assert(replies.drop_last()[0] == replies[0]);
    } else if replies.len() == 1 {
        assert(replies.drop_last() =~= Seq::<Reply<Seq<char>>>::empty());
        assert(replies.last() == replies[0]);
        assert(replayed(switcher::begun(keychain, state, name, false), replies.drop_last())
            == switcher::begun(keychain, state, name, false));
    }
}

/// Only what was read as the saved credential of the target is ever put into
/// use, whatever the replies.
pub proof fn only_saved_credentials_activate(
    keychain: Keychain,
    state: StateModel,
    name: Seq<char>,
    yes: bool,
    replies: Seq<Reply<Seq<char>>>,
    account: Seq<char>,
    credential: Seq<char>,
) -> (at: int)
    requires
        ({
            let phase = replayed(switcher::begun(keychain, state, name, yes), replies).phase;
            phase == (Phase::Activating { account, credential }) || phase == (
            Phase::ReadingActive { account, credential })
        }),
    ensures
        0 <= at < replies.len(),
        replies[at] == Reply::Text(credential),
        switcher::asked(
            replayed(switcher::begun(keychain, state, name, yes), replies.take(at)),
        ) == Request::Call(
            SecurityCall::Read {
                service: program::program_name(keychain.program),
                account: keychain::plan_account_of(name),
            },
        ),
    decreases replies.len(),
{
    let start = switcher::begun(keychain, state, name, yes);
    lemma_replayed_keeps(start, replies);
    if replies.len() == 0 {
        assert(false);
        0
    } else {
        let before = replayed(start, replies.drop_last());
        lemma_replayed_keeps(start, replies.drop_last());
        assert(replies.take(replies.len() - 1) =~= replies.drop_last());
        match before.phase {
            Phase::ReadingTarget { account: _ } => replies.len() - 1,
            _ => {
                let at = only_saved_credentials_activate(
                    keychain,
                    state,
                    name,
                    yes,
                    replies.drop_last(),
                    account,
                    credential,
                );
                assert(replies.take(at) =~= replies.drop_last().take(at));
                at
            },
        }
    }
}

proof fn lemma_replayed_keeps(start: Switch<Seq<char>>, replies: Seq<Reply<Seq<char>>>)
    ensures
        replayed(start, replies).keychain == start.keychain,
        replayed(start, replies).target == start.target,
        replayed(start, replies).leaving == start.leaving,
    decreases replies.len(),
{
    if replies.len() > 0 {
        lemma_replayed_keeps(start, replies.drop_last());
    }
}

/// A detection run for at most `steps` calls, as long as it asks for any.
pub open spec fn detected(vault: Vault, detection: DetectionModel, steps: nat) -> DetectionModel
    decreases steps,
{
    match detection::asked(detection) {
        Request::Call(call) => if steps == 0 {
            detection
        } else {
            detected(
                vault,
                detection::advanced(detection, answer(vault, call)),
                (steps - 1) as nat,
            )
        },
        _ => detection,
    }
}

/// Whether `credential` is saved under `name`.
pub open spec fn holds(vault: Vault, program: Program, name: Seq<char>, credential: Seq<char>) -> bool {
    vault.items.contains_key(saved_key(program, name)) && vault.items[saved_key(program, name)]
        == credential
}

/// Where the state does not say which account is in use, the first name in the
/// list is found under which the credential in use is saved; none is found where
/// there is no such name.
pub proof fn detection_finds_first_match(
    keychain: Keychain,
    state: StateModel,
    names: Seq<Seq<char>>,
    vault: Vault,
    account: Seq<char>,
)
    requires
        account_in_use(state, vault) == Some(account),
        vault.items.contains_key(active_key(keychain.program, account)),
        names.len() <= usize::MAX,
        forall|i: int| 0 <= i < names.len() ==> acceptable(keychain.program.product, #[trigger] names[i]),
    ensures
        ({
            let active = vault.items[active_key(keychain.program, account)];
            let end = detected(
                vault,
                detection::begun(keychain, state, names),
                (names.len() + 2) as nat,
            ).phase;
            ||| {
                &&& end is Unknown
                &&& forall|i: int|
                    0 <= i < names.len() ==> !holds(
                        vault,
                        keychain.program,
                        #[trigger] names[i],
                        active,
                    )
            }
            ||| exists|at: int|
                {
                    &&& 0 <= at < names.len()
                    &&& end == (DetectionPhase::Found { account, name: #[trigger] names[at] })
                    &&& holds(vault, keychain.program, names[at], active)
                    &&& forall|i: int|
                        0 <= i < at ==> !holds(
                            vault,
                            keychain.program,
                            #[trigger] names[i],
                            active,
                        )
                }
        }),
{
    let active = vault.items[active_key(keychain.program, account)];
    let start = detection::begun(keychain, state, names);
    let steps = (names.len() + 2) as nat;
    let reading = DetectionModel { phase: DetectionPhase::ReadingActive { account }, ..start };
    let first = DetectionModel {
        phase: detection::comparing(keychain, names, account, active, 0),
        ..start
    };
    if state.active is None {
        assert(detected(vault, start, steps) == detected(vault, reading, (steps - 1) as nat));
        assert(detected(vault, reading, (steps - 1) as nat) == detected(
            vault,
            first,
            (steps - 2) as nat,
        ));
        lemma_search(vault, first, account, active, 0, (steps - 2) as nat);
    } else {
        assert(start == reading);
        assert(detected(vault, reading, steps) == detected(vault, first, (steps - 1) as nat));
        lemma_search(vault, first, account, active, 0, (steps - 1) as nat);
    }
}

proof fn lemma_search(
    vault: Vault,
    detection: DetectionModel,
    account: Seq<char>,
    active: Seq<char>,
    at: int,
    steps: nat,
)
    requires
        0 <= at <= detection.names.len() <= usize::MAX,
        steps >= detection.names.len() - at,
        detection.phase == detection::comparing(
            detection.keychain,
            detection.names,
            account,
            active,
            at,
        ),
        forall|i: int|
            0 <= i < detection.names.len() ==> acceptable(
                detection.keychain.program.product,
                #[trigger] detection.names[i],
            ),
        forall|i: int|
            0 <= i < at ==> !holds(
                vault,
                detection.keychain.program,
                #[trigger] detection.names[i],
                active,
            ),
    ensures
        ({
            let names = detection.names;
            let program = detection.keychain.program;
            let end = detected(vault, detection, steps).phase;
            ||| {
                &&& end is Unknown
                &&& forall|i: int|
                    0 <= i < names.len() ==> !holds(vault, program, #[trigger] names[i], active)
            }
            ||| exists|at: int|
                {
                    &&& 0 <= at < names.len()
                    &&& end == (DetectionPhase::Found { account, name: #[trigger] names[at] })
                    &&& holds(vault, program, names[at], active)
                    &&& forall|i: int|
                        0 <= i < at ==> !holds(vault, program, #[trigger] names[i], active)
                }
        }),
    decreases detection.names.len() - at,
{
    if at < detection.names.len() {
        assert(acceptable(detection.keychain.program.product, detection.names[at]));
        let call = SecurityCall::Read {
            service: program::program_name(detection.keychain.program),
            account: keychain::plan_account_of(detection.names[at]),
        };
        let next = detection::advanced(detection, answer(vault, call));
        assert(detection::asked(detection) == Request::Call(call));
        assert(detected(vault, detection, steps) == detected(vault, next, (steps - 1) as nat));
        if holds(vault, detection.keychain.program, detection.names[at], active) {
            assert(next.phase == (DetectionPhase::Found { account, name: detection.names[at] }));
            assert(detected(vault, next, (steps - 1) as nat) == next);
        } else {
            lemma_search(vault, next, account, active, at + 1, (steps - 1) as nat);
        }
    }
}

/// Saving a login, run for at most `steps` requests. `kind` is the answer to the
/// question for the kind.
pub open spec fn saved(vault: Vault, setup: Setup<Seq<char>>, kind: AccountKind, steps: nat) -> (
    Vault,
    Setup<Seq<char>>,
)
    decreases steps,
{
    if steps == 0 {
        (vault, setup)
    } else {
        match setup::asked(setup) {
            SetupRequest::Call(call) => saved(
                called(vault, call),
                setup::advanced(
                    setup,
                    match answer(vault, call) {
                        Reply::Text(text) => SetupReply::Text(text),
                        _ => SetupReply::Failed,
                    },
                ),
                kind,
                (steps - 1) as nat,
            ),
            SetupRequest::AskKind { credential } => saved(
                vault,
                setup::advanced(setup, SetupReply::Kind(kind)),
                kind,
                (steps - 1) as nat,
            ),
            SetupRequest::Nothing => (vault, setup),
        }
    }
}

/// Saving the login in use under a name succeeds where there is a login. It puts
/// the credential in use under that name and touches nothing else in the
/// Keychain. A kind that is given is not asked for.
pub proof fn setup_saves_credential(
    keychain: Keychain,
    state: StateModel,
    vault: Vault,
    name: Seq<char>,
    given: Option<AccountKind>,
    kind: AccountKind,
    account: Seq<char>,
)
    requires
        account_in_use(state, vault) == Some(account),
        vault.items.contains_key(active_key(keychain.program, account)),
    ensures
        ({
            let (after, setup) = saved(vault, setup::begun(keychain, state, name, given), kind, 4);
            &&& setup.name == name
            &&& setup.phase == (SetupPhase::Done {
                account,
                kind: match given {
                    Some(given) => given,
                    None => kind,
                },
            })
            &&& after.items == vault.items.insert(
                saved_key(keychain.program, name),
                vault.items[active_key(keychain.program, account)],
            )
            &&& active_credential(keychain.program, after, account) == active_credential(keychain.program, vault, account)
        }),
{
    reveal_with_fuel(saved, 5);
    keys_are_distinct(keychain.program, name, name, account);
}

/// Whether a Keychain account is that of a name which obeys the rules.
pub open spec fn is_for_valid_name(account: Seq<char>) -> bool {
    exists|name: Seq<char>|
        account == #[trigger] keychain::plan_account_of(name) && domain::name_error(name) is None
}

/// Whether a call, if it is one on the service of a program's own, is for a name
/// which obeys the rules.
pub open spec fn keeps_to_valid_names(program: Program, call: SecurityCall<Seq<char>>) -> bool {
    let own = program::program_name(program);
    match call {
        SecurityCall::Read { service, account } => service == own ==> is_for_valid_name(account),
        SecurityCall::Upsert { service, account, credential } => service == own
            ==> is_for_valid_name(account),
        SecurityCall::Delete { service, account } => service == own ==> is_for_valid_name(account),
        SecurityCall::Detect { service } => service != own,
    }
}

proof fn lemma_services_differ(program: Program)
    ensures
        keychain::active_service(program.client) != program::program_name(program),
{
    let account = Seq::<char>::empty();
    keys_are_distinct(program, account, account, keychain::plan_account_of(account));
}

/// No raw text reaches the credentials that the quota router keeps by way of a
/// switch: to an account with a valid name, it calls on the router's own service
/// for valid names only, whatever the replies and whatever the state holds. The
/// router's `App::switch` begins no other switch.
pub proof fn switch_keeps_to_valid_names(
    keychain: Keychain,
    state: StateModel,
    name: Seq<char>,
    yes: bool,
    replies: Seq<Reply<Seq<char>>>,
)
    requires
        keychain.program.product == Product::QuotaRouter,
        domain::name_error(name) is None,
    ensures
        switcher::asked(replayed(switcher::begun(keychain, state, name, yes), replies)) matches
            Request::Call(call) ==> keeps_to_valid_names(keychain.program, call),
{
    let start = switcher::begun(keychain, state, name, yes);
    let switch = replayed(start, replies);
    lemma_services_differ(keychain.program);
    lemma_replayed_keeps(start, replies);
    lemma_backup_is_for_valid_name(start, replies);
    assert(is_for_valid_name(keychain::plan_account_of(name)));
    if switch.phase is BackingUp {
        assert(is_for_valid_name(keychain::plan_account_of(switch.leaving->0)));
    }
}

proof fn lemma_backup_is_for_valid_name(
    start: Switch<Seq<char>>,
    replies: Seq<Reply<Seq<char>>>,
)
    requires
        start.keychain.program.product == Product::QuotaRouter,
        !(start.phase is BackingUp),
    ensures
        replayed(start, replies).phase is BackingUp ==> domain::name_error(
            replayed(start, replies).leaving->0,
        ) is None,
    decreases replies.len(),
{
    if replies.len() > 0 {
        lemma_backup_is_for_valid_name(start, replies.drop_last());
        lemma_replayed_keeps(start, replies.drop_last());
    }
}

/// A detection after a series of replies.
pub open spec fn detection_replayed(
    detection: DetectionModel,
    replies: Seq<Reply<Seq<char>>>,
) -> DetectionModel
    decreases replies.len(),
{
    if replies.len() == 0 {
        detection
    } else {
        detection::advanced(detection_replayed(detection, replies.drop_last()), replies.last())
    }
}

/// A detection of the quota router calls on the router's own service for valid
/// names only, whatever the replies and whatever names the state holds.
pub proof fn detection_keeps_to_valid_names(
    keychain: Keychain,
    state: StateModel,
    names: Seq<Seq<char>>,
    replies: Seq<Reply<Seq<char>>>,
)
    requires
        keychain.program.product == Product::QuotaRouter,
        names.len() <= usize::MAX,
    ensures
        detection::asked(
            detection_replayed(detection::begun(keychain, state, names), replies),
        ) matches Request::Call(call) ==> keeps_to_valid_names(keychain.program, call),
{
    let start = detection::begun(keychain, state, names);
    let detection = detection_replayed(start, replies);
    lemma_services_differ(keychain.program);
    lemma_compared_name_is_valid(start, replies);
    if let DetectionPhase::Comparing { account, active, at } = detection.phase {
        assert(is_for_valid_name(keychain::plan_account_of(names[at as int])));
    }
}

proof fn lemma_compared_name_is_valid(start: DetectionModel, replies: Seq<Reply<Seq<char>>>)
    requires
        start.keychain.program.product == Product::QuotaRouter,
        start.names.len() <= usize::MAX,
        !(start.phase is Comparing),
    ensures
        ({
            let detection = detection_replayed(start, replies);
            &&& detection.keychain == start.keychain
            &&& detection.names == start.names
            &&& detection.phase matches DetectionPhase::Comparing { at, .. } ==> {
                &&& at < start.names.len()
                &&& domain::name_error(start.names[at as int]) is None
            }
        }),
    decreases replies.len(),
{
    if replies.len() > 0 {
        lemma_compared_name_is_valid(start, replies.drop_last());
    }
}

/// Saving a login after a series of replies.
pub open spec fn setup_replayed(setup: Setup<Seq<char>>, replies: Seq<SetupReply<Seq<char>>>) -> Setup<
    Seq<char>,
>
    decreases replies.len(),
{
    if replies.len() == 0 {
        setup
    } else {
        setup::advanced(setup_replayed(setup, replies.drop_last()), replies.last())
    }
}

/// Saving a login under a valid name calls on a program's own service for that
/// name only, whatever the replies.
pub proof fn setup_keeps_to_valid_names(
    keychain: Keychain,
    state: StateModel,
    name: Seq<char>,
    given: Option<AccountKind>,
    replies: Seq<SetupReply<Seq<char>>>,
)
    requires
        domain::name_error(name) is None,
    ensures
        setup::asked(
            setup_replayed(setup::begun(keychain, state, name, given), replies),
        ) matches SetupRequest::Call(call) ==> keeps_to_valid_names(keychain.program, call),
{
    lemma_services_differ(keychain.program);
    lemma_setup_replayed_keeps(setup::begun(keychain, state, name, given), replies);
    assert(is_for_valid_name(keychain::plan_account_of(name)));
}

proof fn lemma_setup_replayed_keeps(
    start: Setup<Seq<char>>,
    replies: Seq<SetupReply<Seq<char>>>,
)
    ensures
        setup_replayed(start, replies).keychain == start.keychain,
        setup_replayed(start, replies).name == start.name,
    decreases replies.len(),
{
    if replies.len() > 0 {
        lemma_setup_replayed_keeps(start, replies.drop_last());
    }
}

} // verus!
