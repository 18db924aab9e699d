//! The statusline of the plan-swap program.
//!
//! It routes by the kind of a plan, as the quota router does: to the first
//! enterprise plan when the quota of a team plan is full, and back to that plan
//! when it starts anew. What it shows does not name the plan that was left.

use vstd::prelude::*;
use vstd::string::*;
use crate::domain::{
    Config, PlanKind, RateLimitSnapshot, RouteLock, State, StateModel, SwapMode,
};
use crate::program;
use crate::program::Client;
use crate::quota;
use crate::quota::StatuslineInput;
use crate::routing;
use crate::statusline;
use crate::statusline::Rendering;
use crate::text;

verus! {

/// What a team plan shows for a snapshot of its quota.
pub open spec fn team_rendering(
    program: Seq<char>,
    state: StateModel,
    config: Config,
    current: Seq<char>,
    snapshot: RateLimitSnapshot,
) -> Rendering<Seq<char>> {
    match quota::fullest(snapshot) {
        None => Rendering::Silent,
        Some((label, share)) => if share < config.alert_at {
            Rendering::Silent
        } else if share < 100 {
            Rendering::Notify {
                event: "team-alert"@,
                message: current + " usage is "@ + text::decimal(share as nat) + "% ("@ + label
                    + "). Prepare to switch."@,
                line: current + " "@ + text::decimal(share as nat) + "%("@ + label
                    + ") -> "@ + program + " list"@,
            }
        } else if config.mode == SwapMode::Auto && routing::enterprise_route(
            state,
            current,
        ) is Some {
            Rendering::Route { target: routing::enterprise_route(state, current)->0 }
        } else {
            Rendering::Notify {
                event: "team-limit"@,
                message: current + " quota is full. Run "@ + program + " list."@,
                line: current + " LIMIT("@ + label + ") -> "@ + program + " list"@,
            }
        },
    }
}

/// What a team plan shows. The snapshot, where the input speaks of quotas, is to
/// be kept even if there is nothing to show.
pub fn statusline_team(
    program: &str,
    state: &State,
    config: &Config,
    current_plan: &str,
    input: &StatuslineInput<String>,
    now: u64,
) -> (r: (Option<RateLimitSnapshot>, Rendering<String>))
    ensures
        match r.0 {
            Some(snapshot) => {
                &&& input@.rate_limits is Some
                &&& quota::is_snapshot(snapshot, input@.rate_limits->0, now)
                &&& r.1@ == team_rendering(program@, state@, *config, current_plan@, snapshot)
            },
            None => input@.rate_limits is None && r.1@ == Rendering::<Seq<char>>::Silent,
        },
{
    let snapshot = match quota::parse_rate_limits(input, now) {
        Some(snapshot) => snapshot,
        None => return (None, Rendering::Silent),
    };
    let (label, share) = match quota::max_limit(&snapshot) {
        Some(limit) => limit,
        None => return (Some(snapshot), Rendering::Silent),
    };
    if share < config.alert_at {
        return (Some(snapshot), Rendering::Silent);
    }
    if share >= 100 {
        if config.mode == SwapMode::Auto {
            if let Some(target) = routing::enterprise_target(state, current_plan) {
                return (Some(snapshot), Rendering::Route { target });
            }
        }
        let event = "team-limit".to_owned();
        let mut message = current_plan.to_owned();
        message.append(" quota is full. Run ");
        message.append(program);
        message.append(" list.");
        let mut line = current_plan.to_owned();
        line.append(" LIMIT(");
        line.append(label);
        line.append(") -> ");
        line.append(program);
        line.append(" list");
        return (Some(snapshot), Rendering::Notify { event, message, line });
    }
    let shown = text::show_u64(share as u64);
    let event = "team-alert".to_owned();
    let mut message = current_plan.to_owned();
    message.append(" usage is ");
    message.append(shown.as_str());
    message.append("% (");
    message.append(label);
    message.append("). Prepare to switch.");
    let mut line = current_plan.to_owned();
    line.append(" ");
    line.append(shown.as_str());
    line.append("%(");
    line.append(label);
    line.append(") -> ");
    line.append(program);
    line.append(" list");
    (Some(snapshot), Rendering::Notify { event, message, line })
}

/// What an enterprise plan shows `remaining` seconds before the window `label`
/// of the team plan starts anew.
pub open spec fn countdown_rendering(
    program: Seq<char>,
    current: Seq<char>,
    label: Seq<char>,
    remaining: int,
) -> Rendering<Seq<char>> {
    if remaining <= 0 {
        Rendering::Notify {
            event: "reset"@,
            message: "team quota reset is complete. Run "@ + program + " list."@,
            line: "team quota reset done -> "@ + program + " list"@,
        }
    } else if remaining <= 60 {
        Rendering::Notify {
            event: "reset-1min"@,
            message: "team quota resets within 1 minute."@,
            line: "team reset in "@ + text::signed_decimal(remaining) + "s("@ + label
                + ") -> "@ + program + " list"@,
        }
    } else if remaining <= 300 {
        let minutes = (remaining + 59) / 60;
        Rendering::Notify {
            event: "reset-5min"@,
            message: "team quota resets in "@ + text::signed_decimal(minutes) + " minutes."@,
            line: "team reset in "@ + text::signed_decimal(minutes) + "m("@ + label
                + ") -> "@ + program + " list"@,
        }
    } else if remaining < 3600 {
        Rendering::Show(
            current + " | team reset in "@ + text::signed_decimal(remaining / 60) + "m("@ + label
                + ")"@,
        )
    } else {
        Rendering::Show(
            current + " | team reset in "@ + text::signed_decimal(remaining / 3600) + "h"@
                + text::signed_decimal(remaining / 60 % 60) + "m("@ + label + ")"@,
        )
    }
}

/// What an enterprise plan shows, given the snapshot seen last and the route
/// lock.
pub open spec fn enterprise_rendering(
    program: Seq<char>,
    state: StateModel,
    config: Config,
    current: Seq<char>,
    snapshot: Option<RateLimitSnapshot>,
    lock_source: Option<Seq<char>>,
    lock_present: bool,
    now: int,
) -> Rendering<Seq<char>> {
    let reset = match snapshot {
        Some(snapshot) => quota::soonest(snapshot),
        None => None,
    };
    let back = routing::return_route(state, current, lock_source, lock_present);
    match reset {
        None => Rendering::Show(current),
        Some((label, time)) => if time <= now && config.mode == SwapMode::Auto && back is Some {
            Rendering::Route { target: back->0 }
        } else {
            countdown_rendering(program, current, label, time - now)
        },
    }
}

/// What an enterprise plan shows, given the snapshot seen last and the route
/// lock. `lock` is the route lock, where it could be read; `lock_present` says
/// whether there is one.
pub fn statusline_enterprise(
    program: &str,
    state: &State,
    config: &Config,
    current_plan: &str,
    snapshot: Option<&RateLimitSnapshot>,
    lock: Option<&RouteLock>,
    lock_present: bool,
    now: u64,
) -> (r: Rendering<String>)
    ensures
        r@ == enterprise_rendering(
            program@,
            state@,
            *config,
            current_plan@,
            statusline::snapshot_in(snapshot),
            routing::lock_source(lock),
            lock_present,
            now as int,
        ),
{
    let snapshot = match snapshot {
        Some(snapshot) => snapshot,
        None => return Rendering::Show(current_plan.to_owned()),
    };
    let (label, reset_at) = match quota::earliest_reset(snapshot) {
        Some(reset) => reset,
        None => return Rendering::Show(current_plan.to_owned()),
    };
    let remaining: i64 = quota::time_left(reset_at, now);
    if remaining <= 0 {
        if config.mode == SwapMode::Auto {
            if let Some(target) = routing::team_return_target(
                state,
                current_plan,
                lock,
                lock_present,
            ) {
                return Rendering::Route { target };
            }
        }
        let mut message = "team quota reset is complete. Run ".to_owned();
        message.append(program);
        message.append(" list.");
        let mut line = "team quota reset done -> ".to_owned();
        line.append(program);
        line.append(" list");
        return Rendering::Notify { event: "reset".to_owned(), message, line };
    }
    if remaining <= 60 {
        let mut line = "team reset in ".to_owned();
        line.append(text::show_i64(remaining).as_str());
        line.append("s(");
        line.append(label);
        line.append(") -> ");
        line.append(program);
        line.append(" list");
        return Rendering::Notify {
            event: "reset-1min".to_owned(),
            message: "team quota resets within 1 minute.".to_owned(),
            line,
        };
    }
    if remaining <= 300 {
        let minutes: i64 = (remaining + 59) / 60;
        let mut message = "team quota resets in ".to_owned();
        message.append(text::show_i64(minutes).as_str());
        message.append(" minutes.");
        let mut line = "team reset in ".to_owned();
        line.append(text::show_i64(minutes).as_str());
        line.append("m(");
        line.append(label);
        line.append(") -> ");
        line.append(program);
        line.append(" list");
        return Rendering::Notify { event: "reset-5min".to_owned(), message, line };
    }
    let minutes: i64 = remaining / 60;
    let mut line = current_plan.to_owned();
    line.append(" | team reset in ");
    if minutes >= 60 {
        line.append(text::show_i64(minutes / 60).as_str());
        line.append("h");
        line.append(text::show_i64(minutes % 60).as_str());
        line.append("m(");
        line.append(label);
        line.append(")");
    } else {
        line.append(text::show_i64(minutes).as_str());
        line.append("m(");
        line.append(label);
        line.append(")");
    }
    Rendering::Show(line)
}

/// What the plan-swap program shows for the plan in use.
pub open spec fn swap_rendering(
    program: Seq<char>,
    state: StateModel,
    config: Config,
    team: Option<RateLimitSnapshot>,
    cached: Option<RateLimitSnapshot>,
    lock_source: Option<Seq<char>>,
    lock_present: bool,
    now: int,
) -> Rendering<Seq<char>> {
    match statusline::current_kind_in(state) {
        None => Rendering::Silent,
        Some(PlanKind::Team) => match team {
            Some(snapshot) => team_rendering(program, state, config, state.current->0, snapshot),
            None => Rendering::Silent,
        },
        Some(PlanKind::Enterprise) => enterprise_rendering(
            program,
            state,
            config,
            state.current->0,
            cached,
            lock_source,
            lock_present,
            now,
        ),
        Some(PlanKind::Other) => Rendering::Show(state.current->0),
    }
}

/// What the plan-swap program shows for the plan in use, and the snapshot to be
/// kept. `cached` is the snapshot kept before. Only an enterprise plan uses it
/// and the route lock.
pub fn statusline_swap_output(
    program: &str,
    state: &State,
    config: &Config,
    input: &StatuslineInput<String>,
    cached: Option<&RateLimitSnapshot>,
    lock: Option<&RouteLock>,
    lock_present: bool,
    now: u64,
) -> (r: (Option<RateLimitSnapshot>, Rendering<String>))
    ensures
        match r.0 {
            Some(snapshot) => {
                &&& statusline::current_kind_in(state@) == Some(PlanKind::Team)
                &&& input@.rate_limits is Some
                &&& quota::is_snapshot(snapshot, input@.rate_limits->0, now)
            },
            None => statusline::current_kind_in(state@) == Some(PlanKind::Team)
                ==> input@.rate_limits is None,
        },
        r.1@ == swap_rendering(
            program@,
            state@,
            *config,
            r.0,
            statusline::snapshot_in(cached),
            routing::lock_source(lock),
            lock_present,
            now as int,
        ),
{
    let current = match &state.current_account {
        Some(current) => current.as_str(),
        None => return (None, Rendering::Silent),
    };
    match routing::account_kind(state, current) {
        None => (None, Rendering::Silent),
        Some(PlanKind::Team) => statusline_team(program, state, config, current, input, now),
        Some(PlanKind::Enterprise) => (
            None,
            statusline_enterprise(
                program,
                state,
                config,
                current,
                cached,
                lock,
                lock_present,
                now,
            ),
        ),
        Some(PlanKind::Other) => (None, Rendering::Show(current.to_owned())),
    }
}

/// What to show once a swap that nobody asked for is done.
pub fn auto_switch(client: Client, target: &str) -> (r: String)
    ensures
        r@ == "auto switched to "@ + target@ + "; restart "@ + program::client_title(client),
{
    let mut line = "auto switched to ".to_owned();
    line.append(target);
    line.append("; restart ");
    line.append(client.title().as_str());
    line
}

} // verus!
