//! What holds of the saved state and of automatic routing over time.

use vstd::prelude::*;
use crate::commands;
use crate::commands::CommandError;
use crate::detection;
use crate::detection::{DetectionModel, DetectionPhase};
use crate::domain::{
    AccountKind, Config, RateLimitSnapshot, RoutingMode, StateModel,
};
use crate::plan_statusline;
use crate::quota;
use crate::routing;
use crate::setup;
use crate::setup::Setup;
use crate::statusline;
use crate::statusline::Rendering;
use crate::switcher;
use crate::switcher::{Phase, Switch};

verus! {

/// Whether the accounts that a state names as in use and as used before are
/// saved ones.
pub open spec fn sound(state: StateModel) -> bool {
    &&& state.current matches Some(current) ==> state.accounts.contains_key(current)
    &&& state.previous matches Some(previous) ==> state.accounts.contains_key(previous)
}

/// A program starts with a sound state.
pub proof fn empty_state_is_sound()
    ensures
        sound(StateModel { active: None, current: None, previous: None, accounts: Map::empty() }),
{
}

/// Saving a login keeps a state sound and loses no saved account.
pub proof fn setup_keeps_state_sound(state: StateModel, setup: Setup<Seq<char>>, now: u64)
    requires
        sound(state),
    ensures
        sound(setup::settled(setup, state, now)),
        forall|name: Seq<char>| #[trigger]
            state.accounts.contains_key(name) ==> setup::settled(
                setup,
                state,
                now,
            ).accounts.contains_key(name),
{
}

/// A switch that was begun for the state keeps it sound and changes no saved
/// account.
pub proof fn switch_keeps_state_sound(state: StateModel, switch: Switch<Seq<char>>)
    requires
        sound(state),
        state.accounts.contains_key(switch.target),
    ensures
        sound(switcher::settled(switch, state)),
        switcher::settled(switch, state).accounts == state.accounts,
{
}

/// Removing an account keeps a state sound. The account in use stays saved, and
/// no other account is lost.
pub proof fn removal_keeps_state_sound(state: StateModel, name: Seq<char>)
    requires
        sound(state),
        commands::removal_error(state, name) is None,
    ensures
        sound(commands::removed(state, name)),
        commands::removed(state, name).current == state.current,
        !commands::removed(state, name).accounts.contains_key(name),
        forall|other: Seq<char>|
            other != name && state.accounts.contains_key(other)
                ==> #[trigger] commands::removed(state, name).accounts.contains_key(other)
                && commands::removed(state, name).accounts[other] == state.accounts[other],
{
}

/// Finding out which of the saved accounts is in use keeps a state sound.
pub proof fn detection_keeps_state_sound(state: StateModel, detection: DetectionModel)
    requires
        sound(state),
        detection.phase matches DetectionPhase::Found { name, .. } ==> state.accounts.contains_key(
            name,
        ),
    ensures
        sound(detection::settled(detection, state)),
        detection::settled(detection, state).accounts == state.accounts,
{
}

/// Saving a login under the same name again keeps the time of the first saving
/// and takes over the rest.
pub proof fn saving_again_keeps_creation(
    state: StateModel,
    name: Seq<char>,
    account: Seq<char>,
    first_kind: AccountKind,
    second_kind: AccountKind,
    first: u64,
    second: u64,
)
    ensures
        ({
            let once = setup::recorded(state, name, account, first_kind, first);
            let twice = setup::recorded(once, name, account, second_kind, second);
            &&& twice.accounts[name].created_at == once.accounts[name].created_at
            &&& twice.accounts[name].updated_at == second
            &&& twice.accounts[name].kind == second_kind
            &&& twice.accounts.dom() == once.accounts.dom()
            &&& !state.accounts.contains_key(name) ==> twice.accounts[name].created_at == first
        }),
{
    let once = setup::recorded(state, name, account, first_kind, first);
    let twice = setup::recorded(once, name, account, second_kind, second);
    assert(twice.accounts.dom() =~= once.accounts.dom());
}

/// After a switch from one saved account to another, going back leads to the
/// first one.
pub proof fn toggle_leads_back(state: StateModel, switch: Switch<Seq<char>>, home: Seq<char>)
    requires
        state.current == Some(home),
        state.accounts.contains_key(home),
        switch.target != home,
        switch.phase matches Phase::Done { switched, .. } && switched,
    ensures
        commands::way_back(switcher::settled(switch, state)) == Ok::<
            Seq<char>,
            CommandError<Seq<char>>,
        >(home),
{
}

/// Changed settings hold a percentage if the settings before did and a new
/// threshold is one.
pub proof fn settings_hold_a_percentage(
    config: Config,
    alert_at: Option<u8>,
    mode: Option<RoutingMode>,
)
    requires
        config.alert_at <= 100,
        alert_at matches Some(alert_at) ==> alert_at <= 100,
    ensures
        commands::reconfigured(config, alert_at, mode).alert_at <= 100,
        commands::reconfigured(config, None, None) == config,
{
}

/// In manual mode the statusline never switches by itself.
pub proof fn manual_mode_never_routes(
    program: Seq<char>,
    state: StateModel,
    config: Config,
    team: Option<RateLimitSnapshot>,
    cached: Option<RateLimitSnapshot>,
    lock_source: Option<Seq<char>>,
    lock_present: bool,
    now: int,
)
    requires
        config.mode == RoutingMode::Manual,
    ensures
        !(statusline::router_rendering(
            program,
            state,
            config,
            team,
            cached,
            lock_source,
            lock_present,
            now,
        ) is Route),
        !(plan_statusline::swap_rendering(
            program,
            state,
            config,
            team,
            cached,
            lock_source,
            lock_present,
            now,
        ) is Route),
{
}

/// A team account shows nothing as long as its quota is unknown or below the
/// threshold, and something from the threshold on.
pub proof fn team_is_silent_below_threshold(
    program: Seq<char>,
    state: StateModel,
    config: Config,
    current: Seq<char>,
    snapshot: RateLimitSnapshot,
)
    ensures
        ({
            let quiet = match quota::fullest(snapshot) {
                Some((_, share)) => share < config.alert_at,
                None => true,
            };
            &&& statusline::team_rendering(program, state, config, current, snapshot) is Silent <==> quiet
            &&& plan_statusline::team_rendering(
                program,
                state,
                config,
                current,
                snapshot,
            ) is Silent <==> quiet
        }),
{
}

/// Automatic routing goes by kind, not by name. With a full quota it leads from
/// a team account to the first enterprise account by name, and the route lock
/// names the account that was left. Once a reset seen there has passed, it leads
/// back to that account, even if the lock could not be read.
pub proof fn auto_routing_goes_there_and_back(
    program: Seq<char>,
    state: StateModel,
    config: Config,
    home: Seq<char>,
    enterprise: Seq<char>,
    snapshot: RateLimitSnapshot,
    switch: Switch<Seq<char>>,
    now: int,
)
    requires
        config.mode == RoutingMode::Auto,
        config.alert_at <= 100,
        state.current == Some(home),
        state.accounts.contains_key(home),
        state.accounts[home].kind == AccountKind::Team,
        state.accounts.dom().finite(),
        state.accounts.contains_key(enterprise),
        state.accounts[enterprise].kind == AccountKind::Enterprise,
        quota::fullest(snapshot) matches Some((_, share)) && share >= 100,
        quota::soonest(snapshot) matches Some((_, time)) && time <= now,
        routing::enterprise_route(state, home) == Some(switch.target),
        switch.leaving == switcher::left_by(state, switch.target),
        switch.kind == state.accounts[switch.target].kind,
        switch.phase matches Phase::Done { switched, .. } && switched,
    ensures
        ({
            let there = switcher::settled(switch, state);
            let lock = switcher::lock_left(switch, state);
            &&& statusline::team_rendering(program, state, config, home, snapshot) == (
            Rendering::Route { target: switch.target })
            &&& routing::is_first(state.accounts, AccountKind::Enterprise, home, switch.target)
            &&& switch.target == enterprise || crate::names::precedes(switch.target, enterprise)
            &&& there.current == Some(switch.target)
            &&& lock == Some(home)
            &&& !switcher::resets(AccountKind::Enterprise).remove_snapshot
            &&& statusline::enterprise_rendering(
                program,
                there,
                config,
                switch.target,
                Some(snapshot),
                lock,
                true,
                now,
            ) == (Rendering::Route { target: home })
            &&& statusline::enterprise_rendering(
                program,
                there,
                config,
                switch.target,
                Some(snapshot),
                None,
                true,
                now,
            ) == (Rendering::Route { target: home })
        }),
{
    routing::first_exists(state.accounts, AccountKind::Enterprise, home, enterprise);
    assert(routing::qualifies(state.accounts, AccountKind::Enterprise, home, enterprise));
}

/// As long as the route lock names a saved team account, automatic routing leads
/// back to it, whatever the state names as the account before. A later switch to
/// an enterprise account that leaves no team account empties the lock.
pub proof fn lock_leads_back(
    program: Seq<char>,
    state: StateModel,
    config: Config,
    current: Seq<char>,
    home: Seq<char>,
    snapshot: RateLimitSnapshot,
    lock_present: bool,
    now: int,
)
    requires
        config.mode == RoutingMode::Auto,
        current != home,
        state.accounts.contains_key(home),
        state.accounts[home].kind == AccountKind::Team,
        quota::soonest(snapshot) matches Some((_, time)) && time <= now,
    ensures
        statusline::enterprise_rendering(
            program,
            state,
            config,
            current,
            Some(snapshot),
            Some(home),
            lock_present,
            now,
        ) == (Rendering::Route { target: home }),
        plan_statusline::enterprise_rendering(
            program,
            state,
            config,
            current,
            Some(snapshot),
            Some(home),
            lock_present,
            now,
        ) == (Rendering::Route { target: home }),
{
}

/// The plan-swap program goes by kind in the same way: from a full team plan to
/// the first enterprise plan by name, and back to the plan that was left.
pub proof fn auto_swapping_goes_there_and_back(
    program: Seq<char>,
    state: StateModel,
    config: Config,
    home: Seq<char>,
    enterprise: Seq<char>,
    snapshot: RateLimitSnapshot,
    switch: Switch<Seq<char>>,
    now: int,
)
    requires
        config.mode == RoutingMode::Auto,
        config.alert_at <= 100,
        state.current == Some(home),
        state.accounts.contains_key(home),
        state.accounts[home].kind == AccountKind::Team,
        state.accounts.dom().finite(),
        state.accounts.contains_key(enterprise),
        state.accounts[enterprise].kind == AccountKind::Enterprise,
        quota::fullest(snapshot) matches Some((_, share)) && share >= 100,
        quota::soonest(snapshot) matches Some((_, time)) && time <= now,
        routing::enterprise_route(state, home) == Some(switch.target),
        switch.leaving == switcher::left_by(state, switch.target),
        switch.kind == state.accounts[switch.target].kind,
        switch.phase matches Phase::Done { switched, .. } && switched,
    ensures
        ({
            let there = switcher::settled(switch, state);
            let lock = switcher::lock_left(switch, state);
            &&& plan_statusline::team_rendering(program, state, config, home, snapshot) == (
            Rendering::Route { target: switch.target })
            &&& routing::is_first(state.accounts, AccountKind::Enterprise, home, switch.target)
            &&& switch.target == enterprise || crate::names::precedes(switch.target, enterprise)
            &&& there.current == Some(switch.target)
            &&& lock == Some(home)
            &&& !switcher::resets(AccountKind::Enterprise).remove_snapshot
            &&& plan_statusline::enterprise_rendering(
                program,
                there,
                config,
                switch.target,
                Some(snapshot),
                lock,
                true,
                now,
            ) == (Rendering::Route { target: home })
            &&& plan_statusline::enterprise_rendering(
                program,
                there,
                config,
                switch.target,
                Some(snapshot),
                None,
                true,
                now,
            ) == (Rendering::Route { target: home })
        }),
{
    routing::first_exists(state.accounts, AccountKind::Enterprise, home, enterprise);
    assert(routing::qualifies(state.accounts, AccountKind::Enterprise, home, enterprise));
}

} // verus!
