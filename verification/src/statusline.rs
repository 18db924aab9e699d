//! The statusline of the quota router.
//!
//! The client runs the statusline command again and again, with JSON on its
//! standard input. What to show, whom to notify and where to route is decided
//! here from plain values; the caller reads, prints and switches.

use vstd::prelude::*;
use vstd::string::*;
use crate::domain::{
    AccountKind, AccountName, Config, NameError, RateLimitSnapshot, RouteLock, RoutingMode, State,
    StateModel,
};
use crate::program;
use crate::program::Client;
use crate::quota;
use crate::quota::StatuslineInput;
use crate::routing;
use crate::text;

verus! {

/// What the statusline command is to do. `T` is the type of text: `String` in
/// values, `Seq<char>` in contracts.
#[derive(Debug)]
pub enum Rendering<T> {
    /// Show nothing.
    Silent,
    /// Show a line.
    Show(T),
    /// Show a line, and notify with a message unless the event was notified of
    /// before.
    Notify { event: T, message: T, line: T },
    /// Switch to an account without asking.
    Route { target: T },
}

impl View for Rendering<String> {
    type V = Rendering<Seq<char>>;

    open spec fn view(&self) -> Rendering<Seq<char>> {
        match *self {
            Rendering::Silent => Rendering::Silent,
            Rendering::Show(line) => Rendering::Show(line@),
            Rendering::Notify { event, message, line } => Rendering::Notify {
                event: event@,
                message: message@,
                line: line@,
            },
            Rendering::Route { target } => Rendering::Route { target: target@ },
        }
    }
}

/// What a team account shows for a snapshot of its quota.
pub open spec fn team_rendering(
    program: Seq<char>,
    state: StateModel,
    config: Config,
    current: Seq<char>,
    snapshot: RateLimitSnapshot,
) -> Rendering<Seq<char>> {
    match quota::fullest(snapshot) {
        None => Rendering::Silent,
        Some((label, share)) => if share < config.alert_at {
            Rendering::Silent
        } else if share < 100 {
            Rendering::Notify {
                event: "team-alert:"@ + current,
                message: current + " usage is "@ + text::decimal(share as nat) + "% ("@ + label
                    + "). Prepare to switch."@,
                line: current + " "@ + text::decimal(share as nat) + "%("@ + label
                    + ") -> "@ + program + " list"@,
            }
        } else if config.mode == RoutingMode::Auto && routing::enterprise_route(
            state,
            current,
        ) is Some {
            Rendering::Route { target: routing::enterprise_route(state, current)->0 }
        } else {
            Rendering::Notify {
                event: "team-limit:"@ + current,
                message: current + " quota is full. Run "@ + program + " list."@,
                line: current + " LIMIT("@ + label + ") -> "@ + program + " list"@,
            }
        },
    }
}

/// What a team account shows. The snapshot, where the input speaks of quotas, is
/// to be kept even if there is nothing to show: an enterprise account counts
/// down to the reset seen last.
pub fn render_team(
    program: &str,
    state: &State,
    config: &Config,
    current_account: &str,
    input: &StatuslineInput<String>,
    now: u64,
) -> (r: (Option<RateLimitSnapshot>, Rendering<String>))
    ensures
        match r.0 {
            Some(snapshot) => {
                &&& input@.rate_limits is Some
                &&& quota::is_snapshot(snapshot, input@.rate_limits->0, now)
                &&& r.1@ == team_rendering(program@, state@, *config, current_account@, snapshot)
            },
            None => input@.rate_limits is None && r.1@ == Rendering::<Seq<char>>::Silent,
        },
{
    let snapshot = match quota::parse_rate_limits(input, now) {
        Some(snapshot) => snapshot,
        None => return (None, Rendering::Silent),
    };
    let (label, share) = match quota::max_limit(&snapshot) {
        Some(limit) => limit,
        None => return (Some(snapshot), Rendering::Silent),
    };
    if share < config.alert_at {
        return (Some(snapshot), Rendering::Silent);
    }
    if share >= 100 {
        if config.mode == RoutingMode::Auto {
            if let Some(target) = routing::enterprise_target(state, current_account) {
                return (Some(snapshot), Rendering::Route { target });
            }
        }
        let mut event = "team-limit:".to_owned();
        event.append(current_account);
        let mut message = current_account.to_owned();
        message.append(" quota is full. Run ");
        message.append(program);
        message.append(" list.");
        let mut line = current_account.to_owned();
        line.append(" LIMIT(");
        line.append(label);
        line.append(") -> ");
        line.append(program);
        line.append(" list");
        return (Some(snapshot), Rendering::Notify { event, message, line });
    }
    let shown = text::show_u64(share as u64);
    let mut event = "team-alert:".to_owned();
    event.append(current_account);
    let mut message = current_account.to_owned();
    message.append(" usage is ");
    message.append(shown.as_str());
    message.append("% (");
    message.append(label);
    message.append("). Prepare to switch.");
    let mut line = current_account.to_owned();
    line.append(" ");
    line.append(shown.as_str());
    line.append("%(");
    line.append(label);
    line.append(") -> ");
    line.append(program);
    line.append(" list");
    (Some(snapshot), Rendering::Notify { event, message, line })
}

/// The snapshot behind an optional reference.
pub open spec fn snapshot_in(snapshot: Option<&RateLimitSnapshot>) -> Option<RateLimitSnapshot> {
    match snapshot {
        Some(snapshot) => Some(*snapshot),
        None => None,
    }
}

/// What an enterprise account shows `remaining` seconds before the window
/// `label` of the account `source` starts anew.
pub open spec fn countdown_rendering(
    program: Seq<char>,
    current: Seq<char>,
    source: Seq<char>,
    label: Seq<char>,
    remaining: int,
) -> Rendering<Seq<char>> {
    if remaining <= 0 {
        Rendering::Notify {
            event: "reset:"@ + source,
            message: source + " quota reset is complete. Run "@ + program + " list."@,
            line: source + " reset done -> "@ + program + " list"@,
        }
    } else if remaining <= 60 {
        Rendering::Notify {
            event: "reset-1min:"@ + source,
            message: source + " quota resets within 1 minute."@,
            line: source + " reset in "@ + text::signed_decimal(remaining) + "s("@ + label
                + ") -> "@ + program + " list"@,
        }
    } else if remaining <= 300 {
        let minutes = (remaining + 59) / 60;
        Rendering::Notify {
            event: "reset-5min:"@ + source,
            message: source + " quota resets in "@ + text::signed_decimal(minutes)
                + " minutes."@,
            line: source + " reset in "@ + text::signed_decimal(minutes) + "m("@ + label
                + ") -> "@ + program + " list"@,
        }
    } else if remaining < 3600 {
        Rendering::Show(
            current + " | "@ + source + " reset in "@ + text::signed_decimal(remaining / 60)
                + "m("@ + label + ")"@,
        )
    } else {
        Rendering::Show(
            current + " | "@ + source + " reset in "@ + text::signed_decimal(remaining / 3600)
                + "h"@ + text::signed_decimal(remaining / 60 % 60) + "m("@ + label + ")"@,
        )
    }
}

/// What an enterprise account shows, given the snapshot seen last and the route
/// lock.
pub open spec fn enterprise_rendering(
    program: Seq<char>,
    state: StateModel,
    config: Config,
    current: Seq<char>,
    snapshot: Option<RateLimitSnapshot>,
    lock_source: Option<Seq<char>>,
    lock_present: bool,
    now: int,
) -> Rendering<Seq<char>> {
    let reset = match snapshot {
        Some(snapshot) => quota::soonest(snapshot),
        None => None,
    };
    let back = routing::return_route(state, current, lock_source, lock_present);
    match reset {
        None => Rendering::Show(current),
        Some((label, time)) => if time <= now && config.mode == RoutingMode::Auto && back is Some {
            Rendering::Route { target: back->0 }
        } else {
            let source = match lock_source {
                Some(source) => source,
                None => "team account"@,
            };
            countdown_rendering(program, current, source, label, time - now)
        },
    }
}

fn render_countdown(
    program: &str,
    current_account: &str,
    source: &str,
    label: &str,
    remaining: i64,
) -> (r: Rendering<String>)
    ensures
        r@ == countdown_rendering(
            program@,
            current_account@,
            source@,
            label@,
            remaining as int,
        ),
{
    if remaining <= 0 {
        let mut event = "reset:".to_owned();
        event.append(source);
        let mut message = source.to_owned();
        message.append(" quota reset is complete. Run ");
        message.append(program);
        message.append(" list.");
        let mut line = source.to_owned();
        line.append(" reset done -> ");
        line.append(program);
        line.append(" list");
        return Rendering::Notify { event, message, line };
    }
    if remaining <= 60 {
        let mut event = "reset-1min:".to_owned();
        event.append(source);
        let mut message = source.to_owned();
        message.append(" quota resets within 1 minute.");
        let mut line = source.to_owned();
        line.append(" reset in ");
        line.append(text::show_i64(remaining).as_str());
        line.append("s(");
        line.append(label);
        line.append(") -> ");
        line.append(program);
        line.append(" list");
        return Rendering::Notify { event, message, line };
    }
    if remaining <= 300 {
        let minutes: i64 = (remaining + 59) / 60;
        let mut event = "reset-5min:".to_owned();
        event.append(source);
        let mut message = source.to_owned();
        message.append(" quota resets in ");
        message.append(text::show_i64(minutes).as_str());
        message.append(" minutes.");
        let mut line = source.to_owned();
        line.append(" reset in ");
        line.append(text::show_i64(minutes).as_str());
        line.append("m(");
        line.append(label);
        line.append(") -> ");
        line.append(program);
        line.append(" list");
        return Rendering::Notify { event, message, line };
    }
    let minutes: i64 = remaining / 60;
    let mut line = current_account.to_owned();
    line.append(" | ");
    line.append(source);
    line.append(" reset in ");
    if minutes >= 60 {
        line.append(text::show_i64(minutes / 60).as_str());
        line.append("h");
        line.append(text::show_i64(minutes % 60).as_str());
        line.append("m(");
        line.append(label);
        line.append(")");
    } else {
        line.append(text::show_i64(minutes).as_str());
        line.append("m(");
        line.append(label);
        line.append(")");
    }
    Rendering::Show(line)
}

/// What an enterprise account shows, given the snapshot seen last and the route
/// lock. `lock` is the route lock, where it could be read; `lock_present` says
/// whether there is one.
pub fn render_enterprise(
    program: &str,
    state: &State,
    config: &Config,
    current_account: &str,
    snapshot: Option<&RateLimitSnapshot>,
    lock: Option<&RouteLock>,
    lock_present: bool,
    now: u64,
) -> (r: Rendering<String>)
    ensures
        r@ == enterprise_rendering(
            program@,
            state@,
            *config,
            current_account@,
            snapshot_in(snapshot),
            routing::lock_source(lock),
            lock_present,
            now as int,
        ),
{
    let snapshot = match snapshot {
        Some(snapshot) => snapshot,
        None => return Rendering::Show(current_account.to_owned()),
    };
    let (label, reset_at) = match quota::earliest_reset(snapshot) {
        Some(reset) => reset,
        None => return Rendering::Show(current_account.to_owned()),
    };
    let remaining: i64 = quota::time_left(reset_at, now);
    if remaining <= 0 && config.mode == RoutingMode::Auto {
        if let Some(target) = routing::team_return_target(
            state,
            current_account,
            lock,
            lock_present,
        ) {
            return Rendering::Route { target };
        }
    }
    match lock {
        Some(lock) => render_countdown(
            program,
            current_account,
            lock.source_account.as_str(),
            label,
            remaining,
        ),
        None => render_countdown(program, current_account, "team account", label, remaining),
    }
}

/// What the router shows for the account in use.
pub open spec fn router_rendering(
    program: Seq<char>,
    state: StateModel,
    config: Config,
    team: Option<RateLimitSnapshot>,
    cached: Option<RateLimitSnapshot>,
    lock_source: Option<Seq<char>>,
    lock_present: bool,
    now: int,
) -> Rendering<Seq<char>> {
    match state.current {
        None => Rendering::Silent,
        Some(current) => if !state.accounts.contains_key(current) {
            Rendering::Silent
        } else {
            match state.accounts[current].kind {
                AccountKind::Team => match team {
                    Some(snapshot) => team_rendering(program, state, config, current, snapshot),
                    None => Rendering::Silent,
                },
                AccountKind::Enterprise => enterprise_rendering(
                    program,
                    state,
                    config,
                    current,
                    cached,
                    lock_source,
                    lock_present,
                    now,
                ),
                AccountKind::Other => Rendering::Show(current),
            }
        },
    }
}

/// The kind of the account in use, where it is a saved one.
pub open spec fn current_kind_in(state: StateModel) -> Option<AccountKind> {
    match state.current {
        Some(current) => if state.accounts.contains_key(current) {
            Some(state.accounts[current].kind)
        } else {
            None
        },
        None => None,
    }
}

/// The kind of the account in use, where it is a saved one.
pub fn current_kind(state: &State) -> (r: Option<AccountKind>)
    ensures
        r == current_kind_in(state@),
{
    match &state.current_account {
        Some(current) => routing::account_kind(state, current.as_str()),
        None => None,
    }
}

/// What the router shows for the account in use, and the snapshot to be kept.
/// `cached` is the snapshot kept before. Only an enterprise account uses it and
/// the route lock.
pub fn render_router_output(
    program: &str,
    state: &State,
    config: &Config,
    input: &StatuslineInput<String>,
    cached: Option<&RateLimitSnapshot>,
    lock: Option<&RouteLock>,
    lock_present: bool,
    now: u64,
) -> (r: (Option<RateLimitSnapshot>, Rendering<String>))
    ensures
        match r.0 {
            Some(snapshot) => {
                &&& current_kind_in(state@) == Some(AccountKind::Team)
                &&& input@.rate_limits is Some
                &&& quota::is_snapshot(snapshot, input@.rate_limits->0, now)
            },
            None => current_kind_in(state@) == Some(AccountKind::Team) ==> input@.rate_limits is None,
        },
        r.1@ == router_rendering(
            program@,
            state@,
            *config,
            r.0,
            snapshot_in(cached),
            routing::lock_source(lock),
            lock_present,
            now as int,
        ),
{
    let current = match &state.current_account {
        Some(current) => current.as_str(),
        None => return (None, Rendering::Silent),
    };
    match routing::account_kind(state, current) {
        None => (None, Rendering::Silent),
        Some(AccountKind::Team) => render_team(program, state, config, current, input, now),
        Some(AccountKind::Enterprise) => (
            None,
            render_enterprise(program, state, config, current, cached, lock, lock_present, now),
        ),
        Some(AccountKind::Other) => (None, Rendering::Show(current.to_owned())),
    }
}

/// A switch that nobody asked for: where to, and what to show once it is done.
#[derive(Debug)]
pub struct AutoSwitch {
    pub target: AccountName,
    pub line: String,
}

/// Prepare a switch to `target` that is reported by `message`.
pub fn auto_switch(client: Client, target: &str, message: &str) -> (r: Result<AutoSwitch, NameError>)
    ensures
        match r {
            Ok(switch) => {
                &&& crate::domain::name_error(target@) is None
                &&& switch.target@ == target@
                &&& switch.line@ == message@ + "; restart "@ + program::client_title(client)
            },
            Err(error) => crate::domain::name_error(target@) == Some(error),
        },
{
    match AccountName::parse(target) {
        Ok(target) => {
            let mut line = message.to_owned();
            line.append("; restart ");
            line.append(client.title().as_str());
            Ok(AutoSwitch { target, line })
        },
        Err(error) => Err(error),
    }
}

/// Prepare the switch that a rendering asks for.
pub fn auto_route_to_enterprise(client: Client, target: &str) -> (r: Result<AutoSwitch, NameError>)
    ensures
        match r {
            Ok(switch) => {
                &&& crate::domain::name_error(target@) is None
                &&& switch.target@ == target@
                &&& switch.line@ == "auto routed to "@ + target@ + "; restart "@ + program::client_title(client)
            },
            Err(error) => crate::domain::name_error(target@) == Some(error),
        },
{
    let mut message = "auto routed to ".to_owned();
    message.append(target);
    auto_switch(client, target, message.as_str())
}

/// What a statusline command is told by `text`. Blank text and text that is no
/// JSON tell it nothing.
pub fn accept_input(text: &str) -> (r: Option<StatuslineInput<String>>)
    ensures
        match r {
            Some(input) => {
                &&& text::trim(text@).len() > 0
                &&& crate::json::json_from_text(text@) is Some
                &&& input@ == quota::input_in(crate::json::json_from_text(text@)->0)
            },
            None => text::trim(text@).len() == 0 || crate::json::json_from_text(text@) is None,
        },
{
    if nonblank(text).is_none() {
        return None;
    }
    quota::read_input(text)
}

/// `text` without the white space around it, where anything is left.
pub open spec fn nonblank_text(text: Seq<char>) -> Option<Seq<char>> {
    if text::trim(text).len() > 0 {
        Some(text::trim(text))
    } else {
        None
    }
}

/// `text` without the white space around it, where anything is left. This is
/// how a saved statusline command and its output are read.
pub fn nonblank(text: &str) -> (r: Option<String>)
    ensures
        text::text_of(r) == nonblank_text(text@),
{
    let trimmed = text::trimmed(text);
    if trimmed.as_str().is_empty() {
        None
    } else {
        Some(trimmed)
    }
}

/// What the command that was wrapped adds to the line: its output, if it
/// succeeded.
pub fn inner_output(success: bool, stdout: &str) -> (r: Option<String>)
    ensures
        text::text_of(r) == if success {
            nonblank_text(stdout@)
        } else {
            None
        },
{
    if success {
        nonblank(stdout)
    } else {
        None
    }
}

/// A text that is there and not empty.
pub open spec fn filled(part: Option<Seq<char>>) -> Option<Seq<char>> {
    match part {
        Some(part) => if part.len() > 0 {
            Some(part)
        } else {
            None
        },
        None => None,
    }
}

/// The line made of what the router shows and what the wrapped command shows.
pub open spec fn combined(router: Option<Seq<char>>, inner: Option<Seq<char>>) -> Option<
    Seq<char>,
> {
    match (filled(router), filled(inner)) {
        (Some(a), Some(b)) => Some(a + " | "@ + b),
        (Some(a), None) => Some(a),
        (None, Some(b)) => Some(b),
        (None, None) => None,
    }
}

/// The line made of what the router shows and what the wrapped command shows.
pub fn combine(router: Option<String>, inner: Option<String>) -> (r: Option<String>)
    ensures
        text::text_of(r) == combined(text::text_of(router), text::text_of(inner)),
{
    let a = match router {
        Some(a) => a,
        None => String::new(),
    };
    let b = match inner {
        Some(b) => b,
        None => String::new(),
    };
    if a.as_str().is_empty() {
        if b.as_str().is_empty() {
            None
        } else {
            Some(b)
        }
    } else if b.as_str().is_empty() {
        Some(a)
    } else {
        let mut line = a;
        line.append(" | ");
        line.append(b.as_str());
        Some(line)
    }
}

} // verus!
