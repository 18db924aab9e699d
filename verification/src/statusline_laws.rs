//! What holds of quota readings, routes and statusline output.

use vstd::prelude::*;
use vstd::string::*;
use crate::domain::{
    AccountKind, Config, RateLimitSnapshot, RouteLock, RoutingMode, StateModel,
};
use crate::json;
use crate::json::Json;
use crate::names;
use crate::plan_statusline;
use crate::quota;
use crate::quota::{LimitReadings, Reading};
use crate::routing;
use crate::statusline;
use crate::statusline::Rendering;
use crate::text;

verus! {

/// A share in percent is read from a number up to 255, or from a text that
/// writes one; nothing is read from anything else.
pub proof fn shares_are_small_numbers(n: u64, below: i64, size: nat, text: Seq<char>)
    requires
        text::parse_integer(text, false) is None,
    ensures
        quota::percentage_of(Some(Reading::Unsigned(n))) == if n <= 255 {
            Some(n as int)
        } else {
            None
        },
        quota::percentage_of(Some(Reading::Text(text::decimal(size)))) == if size <= 255 {
            Some(size as int)
        } else {
            None
        },
        quota::percentage_of(Some(Reading::Text(text))) is None,
        quota::percentage_of(Some(Reading::Negative(below))) is None,
        quota::percentage_of(Some(Reading::Other)) is None,
        quota::percentage_of(None) is None,
{
    text::decimal_is_read_back(size as int);
}

/// A time is read from a number that 64 bits hold with their sign, or from a
/// text that writes one; nothing is read from anything else.
pub proof fn times_are_signed_numbers(n: u64, below: i64, time: int, text: Seq<char>)
    requires
        text::parse_integer(text, true) is None,
    ensures
        quota::time_of(Some(Reading::Unsigned(n))) == if n <= i64::MAX {
            Some(n as int)
        } else {
            None
        },
        quota::time_of(Some(Reading::Negative(below))) == Some(below as int),
        quota::time_of(Some(Reading::Text(text::signed_decimal(time)))) == if i64::MIN <= time
            <= i64::MAX {
            Some(time)
        } else {
            None
        },
        quota::time_of(Some(Reading::Text(text))) is None,
        quota::time_of(Some(Reading::Other)) is None,
        quota::time_of(None) is None,
{
    text::decimal_is_read_back(time);
}

/// A reading is told by its JSON value: a whole number or a text as it is,
/// anything else as nothing of use.
pub proof fn readings_keep_numbers_and_texts(json: Json)
    ensures
        json matches Json::Unsigned(n) ==> quota::reading_in(json) == Reading::<Seq<char>>::Unsigned(n),
        json matches Json::Negative(n) ==> quota::reading_in(json) == Reading::<Seq<char>>::Negative(n),
        json matches Json::Text(text) ==> quota::reading_in(json) == Reading::Text(text),
        !(json is Unsigned) && !(json is Negative) && !(json is Text) ==> quota::reading_in(json)
            == Reading::<Seq<char>>::Other,
{
}

/// The reading that stands under `key` in a window.
pub open spec fn read_under(window: Map<Seq<char>, Json>, key: Seq<char>) -> Option<
    Reading<Seq<char>>,
> {
    if window.contains_key(key) {
        Some(quota::reading_in(window[key]))
    } else {
        None
    }
}

/// Each quota reading is taken from its own window and from nowhere else. An
/// input without an entry on quotas tells of none, and one with an entry that
/// holds no windows tells of four unknown readings.
pub proof fn readings_come_from_their_windows(
    top: Map<Seq<char>, Json>,
    limits: Map<Seq<char>, Json>,
    short: Map<Seq<char>, Json>,
    long: Map<Seq<char>, Json>,
)
    requires
        limits.contains_key("five_hour"@),
        limits["five_hour"@] == Json::Object(short),
        limits.contains_key("seven_day"@),
        limits["seven_day"@] == Json::Object(long),
    ensures
        quota::input_in(
            Json::Object(top.insert("rate_limits"@, Json::Object(limits))),
        ).rate_limits == Some(
            LimitReadings {
                five_hour_used: read_under(short, "used_percentage"@),
                five_hour_reset: read_under(short, "resets_at"@),
                seven_day_used: read_under(long, "used_percentage"@),
                seven_day_reset: read_under(long, "resets_at"@),
            },
        ),
        quota::input_in(Json::Object(top.remove("rate_limits"@))).rate_limits is None,
        quota::input_in(
            Json::Object(top.insert("rate_limits"@, Json::Null)),
        ).rate_limits matches Some(readings) && readings.five_hour_used is None
            && readings.five_hour_reset is None && readings.seven_day_used is None
            && readings.seven_day_reset is None,
{
}

/// `value` as a whole number, where there is one.
pub open spec fn share_in(value: Option<u8>) -> Option<int> {
    match value {
        Some(n) => Some(n as int),
        None => None,
    }
}

/// `value` as a whole number, where there is one.
pub open spec fn time_in(value: Option<i64>) -> Option<int> {
    match value {
        Some(n) => Some(n as int),
        None => None,
    }
}

/// A snapshot holds what the readings of each window give, and when it was seen;
/// so there is only one for given readings and a given time.
pub proof fn snapshot_holds_its_readings(
    snapshot: RateLimitSnapshot,
    readings: LimitReadings<Seq<char>>,
    now: u64,
)
    ensures
        quota::is_snapshot(snapshot, readings, now) <==> {
            &&& snapshot.detected_at == now
            &&& share_in(snapshot.five_hour.used_percentage) == quota::percentage_of(
                readings.five_hour_used,
            )
            &&& time_in(snapshot.five_hour.resets_at) == quota::time_of(readings.five_hour_reset)
            &&& share_in(snapshot.seven_day.used_percentage) == quota::percentage_of(
                readings.seven_day_used,
            )
            &&& time_in(snapshot.seven_day.resets_at) == quota::time_of(readings.seven_day_reset)
        },
{
}

/// Whether `share` is the greatest that a snapshot knows and `label` its window:
/// the five hours where both windows have it.
pub open spec fn is_top(snapshot: RateLimitSnapshot, label: Seq<char>, share: u8) -> bool {
    ||| {
        &&& label == "5h"@
        &&& snapshot.five_hour.used_percentage == Some(share)
        &&& snapshot.seven_day.used_percentage matches Some(other) ==> other <= share
    }
    ||| {
        &&& label == "7d"@
        &&& snapshot.seven_day.used_percentage == Some(share)
        &&& snapshot.five_hour.used_percentage matches Some(other) ==> other < share
    }
}

/// Whether `time` is the earliest reset that a snapshot knows and `label` its
/// window: the five hours where both windows start anew then.
pub open spec fn is_next(snapshot: RateLimitSnapshot, label: Seq<char>, time: i64) -> bool {
    ||| {
        &&& label == "5h"@
        &&& snapshot.five_hour.resets_at == Some(time)
        &&& snapshot.seven_day.resets_at matches Some(other) ==> time <= other
    }
    ||| {
        &&& label == "7d"@
        &&& snapshot.seven_day.resets_at == Some(time)
        &&& snapshot.five_hour.resets_at matches Some(other) ==> time < other
    }
}

/// The fullest window is the one with the greatest share, under its own label.
pub proof fn fullest_names_its_window(snapshot: RateLimitSnapshot, label: Seq<char>, share: u8)
    ensures
        quota::fullest(snapshot) == Some((label, share)) <==> is_top(snapshot, label, share),
        quota::fullest(snapshot) is None <==> snapshot.five_hour.used_percentage is None
            && snapshot.seven_day.used_percentage is None,
{
}

/// The soonest window is the one with the earliest reset, under its own label.
pub proof fn soonest_names_its_window(snapshot: RateLimitSnapshot, label: Seq<char>, time: i64)
    ensures
        quota::soonest(snapshot) == Some((label, time)) <==> is_next(snapshot, label, time),
        quota::soonest(snapshot) is None <==> snapshot.five_hour.resets_at is None
            && snapshot.seven_day.resets_at is None,
{
}

/// Whether `name` is a saved account of a kind, and not `current`.
pub open spec fn is_other(
    state: StateModel,
    current: Seq<char>,
    kind: AccountKind,
    name: Seq<char>,
) -> bool {
    &&& state.accounts.contains_key(name)
    &&& state.accounts[name].kind == kind
    &&& name != current
}

/// Whether `name` comes before all other saved enterprise accounts but
/// `current`.
pub open spec fn is_first_enterprise(
    state: StateModel,
    current: Seq<char>,
    name: Seq<char>,
) -> bool {
    &&& is_other(state, current, AccountKind::Enterprise, name)
    &&& forall|other: Seq<char>| #[trigger]
        is_other(state, current, AccountKind::Enterprise, other) && other != name
            ==> names::precedes(name, other)
}

/// Whether an enterprise account other than `current` is saved.
pub open spec fn has_enterprise(state: StateModel, current: Seq<char>) -> bool {
    exists|name: Seq<char>| is_other(state, current, AccountKind::Enterprise, name)
}

/// A full quota leads to the first other enterprise account by name, wherever
/// one is saved, and nowhere else.
pub proof fn full_quota_leads_to_first_enterprise(state: StateModel, current: Seq<char>)
    requires
        state.accounts.dom().finite(),
    ensures
        routing::enterprise_route(state, current) is Some <==> has_enterprise(state, current),
        forall|target: Seq<char>|
            routing::enterprise_route(state, current) == Some(target)
                <==> #[trigger] is_first_enterprise(state, current, target),
{
    let kind = AccountKind::Enterprise;
    assert forall|name: Seq<char>| #[trigger]
        routing::qualifies(state.accounts, kind, current, name) == is_other(
            state,
            current,
            kind,
            name,
        ) by {}
    assert forall|name: Seq<char>| #[trigger]
        is_other(state, current, kind, name) == routing::qualifies(
            state.accounts,
            kind,
            current,
            name,
        ) by {}
    if has_enterprise(state, current) {
        let name = choose|name: Seq<char>| is_other(state, current, kind, name);
        routing::first_exists(state.accounts, kind, current, name);
        let first = routing::enterprise_route(state, current)->0;
        assert(is_first_enterprise(state, current, first));
    }
    assert forall|target: Seq<char>|
        routing::enterprise_route(state, current) == Some(target) <==> #[trigger]
            is_first_enterprise(state, current, target) by {
        if is_first_enterprise(state, current, target) {
            assert(routing::is_first(state.accounts, kind, current, target));
            routing::first_is_unique(state.accounts, kind, current, target);
        }
        if routing::enterprise_route(state, current) == Some(target) {
            assert(routing::is_first(state.accounts, kind, current, target));
        }
    }
}

/// Whether the way back from `current` is `target`: the team account that the
/// lock names; where it names none that is saved, and there is a lock, the team
/// account that was in use before.
pub open spec fn leads_back(
    state: StateModel,
    current: Seq<char>,
    lock_source: Option<Seq<char>>,
    lock_present: bool,
    target: Seq<char>,
) -> bool {
    &&& is_other(state, current, AccountKind::Team, target)
    &&& {
        ||| lock_source == Some(target)
        ||| {
            &&& lock_present
            &&& state.previous == Some(target)
            &&& lock_source matches Some(source) ==> !is_other(
                state,
                current,
                AccountKind::Team,
                source,
            )
        }
    }
}

/// Where the start of a new quota leads is the way back, wherever there is one.
pub proof fn new_quota_leads_back(
    state: StateModel,
    current: Seq<char>,
    lock_source: Option<Seq<char>>,
    lock_present: bool,
)
    ensures
        forall|target: Seq<char>|
            routing::return_route(state, current, lock_source, lock_present) == Some(target)
                <==> #[trigger] leads_back(state, current, lock_source, lock_present, target),
{
}

/// A team account that is saved and not in use is a way back to itself; nothing
/// else is. A route lock stands for the account that it names as the source.
pub proof fn ways_back_are_team_accounts(
    state: StateModel,
    current: Seq<char>,
    account: Seq<char>,
    lock: RouteLock,
)
    ensures
        routing::team_route(state, current, account) == if is_other(
            state,
            current,
            AccountKind::Team,
            account,
        ) {
            Some(account)
        } else {
            None
        },
        routing::previous_route(state, current) == Some(account) <==> state.previous == Some(account)
            && is_other(state, current, AccountKind::Team, account),
        routing::lock_source(Some(&lock)) == Some(lock.source_account@),
        routing::lock_source(None) is None,
{
}

/// Whether some window is used up to `share` or more.
pub open spec fn is_used_up_to(snapshot: RateLimitSnapshot, share: int) -> bool {
    ||| snapshot.five_hour.used_percentage matches Some(used) && used >= share
    ||| snapshot.seven_day.used_percentage matches Some(used) && used >= share
}

/// Whether `m` is the number of whole or begun minutes in `seconds`.
pub open spec fn is_rounded_up(seconds: int, m: nat) -> bool {
    60 * (m - 1) < seconds <= 60 * m
}

/// Whether `m` is the number of whole minutes in `seconds`.
pub open spec fn is_whole_minutes(seconds: int, m: nat) -> bool {
    60 * m <= seconds < 60 * m + 60
}

/// Whether `seconds` are `h` hours, `m` minutes and less than one minute more.
pub open spec fn is_clock_time(seconds: int, h: nat, m: nat) -> bool {
    &&& m < 60
    &&& 3600 * h + 60 * m <= seconds < 3600 * h + 60 * m + 60
}

proof fn lemma_clock(seconds: int)
    requires
        seconds > 0,
    ensures
        is_rounded_up(seconds, ((seconds + 59) / 60) as nat),
        is_whole_minutes(seconds, (seconds / 60) as nat),
        is_clock_time(seconds, (seconds / 3600) as nat, (seconds / 60 % 60) as nat),
{
    assert(seconds / 60 / 60 == seconds / 3600);
}

/// A team account is silent below the threshold. It is routed away only in auto
/// mode, only when a quota is used up to 100 percent, and only to the first
/// enterprise account by name; from the threshold on it notifies otherwise.
pub proof fn team_account_routes_only_when_full(
    program: Seq<char>,
    state: StateModel,
    config: Config,
    current: Seq<char>,
    snapshot: RateLimitSnapshot,
)
    requires
        state.accounts.dom().finite(),
    ensures
        ({
            let shown = statusline::team_rendering(program, state, config, current, snapshot);
            let reached = is_used_up_to(snapshot, config.alert_at as int);
            let routed = reached && is_used_up_to(snapshot, 100) && config.mode == RoutingMode::Auto
                && has_enterprise(state, current);
            &&& shown is Silent <==> !reached
            &&& shown is Route <==> routed
            &&& shown is Notify <==> reached && !routed
            &&& shown matches Rendering::Route { target } ==> is_first_enterprise(
                state,
                current,
                target,
            )
        }),
{
    full_quota_leads_to_first_enterprise(state, current);
}

/// What a team account notifies of names it, its fullest window and, short of a
/// full quota, the share used. Being full and being nearly full are events of
/// their own.
pub proof fn team_account_tells_of_its_fullest_window(
    program: Seq<char>,
    state: StateModel,
    config: Config,
    current: Seq<char>,
    snapshot: RateLimitSnapshot,
    label: Seq<char>,
    share: u8,
)
    requires
        is_top(snapshot, label, share),
    ensures
        statusline::team_rendering(program, state, config, current, snapshot) matches Rendering::Notify {
            event,
            message,
            line,
        } ==> {
            &&& share >= 100 ==> {
                &&& event == "team-limit:"@ + current
                &&& message == current + " quota is full. Run "@ + program + " list."@
                &&& line == current + " LIMIT("@ + label + ") -> "@ + program + " list"@
            }
            &&& share < 100 ==> {
                &&& event == "team-alert:"@ + current
                &&& message == current + " usage is "@ + text::decimal(share as nat) + "% ("@ + label
                    + "). Prepare to switch."@
                &&& line == current + " "@ + text::decimal(share as nat) + "%("@ + label + ") -> "@
                    + program + " list"@
            }
        },
{
    fullest_names_its_window(snapshot, label, share);
}

/// An enterprise account that knows of no reset shows its name. It is routed only
/// in auto mode, only once the earliest reset has passed, and only to the way
/// back; short of that it says that the reset is done.
pub proof fn enterprise_account_routes_only_after_reset(
    program: Seq<char>,
    state: StateModel,
    config: Config,
    current: Seq<char>,
    snapshot: Option<RateLimitSnapshot>,
    lock_source: Option<Seq<char>>,
    lock_present: bool,
    now: int,
)
    ensures
        ({
            let shown = statusline::enterprise_rendering(
                program,
                state,
                config,
                current,
                snapshot,
                lock_source,
                lock_present,
                now,
            );
            let known = snapshot matches Some(snapshot) && (snapshot.five_hour.resets_at is Some
                || snapshot.seven_day.resets_at is Some);
            let passed = snapshot matches Some(snapshot) && {
                ||| snapshot.five_hour.resets_at matches Some(time) && time <= now
                ||| snapshot.seven_day.resets_at matches Some(time) && time <= now
            };
            let back = exists|target: Seq<char>|
                leads_back(state, current, lock_source, lock_present, target);
            &&& !known ==> shown == Rendering::Show(current)
            &&& shown is Route <==> passed && config.mode == RoutingMode::Auto && back
            &&& shown matches Rendering::Route { target } ==> leads_back(
                state,
                current,
                lock_source,
                lock_present,
                target,
            )
            &&& passed && !(shown is Route) ==> shown == ({
                let source = match lock_source {
                    Some(source) => source,
                    None => "team account"@,
                };
                Rendering::Notify {
                    event: "reset:"@ + source,
                    message: source + " quota reset is complete. Run "@ + program + " list."@,
                    line: source + " reset done -> "@ + program + " list"@,
                }
            })
            &&& !(shown is Silent)
        }),
{
    new_quota_leads_back(state, current, lock_source, lock_present);
    let route = routing::return_route(state, current, lock_source, lock_present);
    if route is Some {
        assert(leads_back(state, current, lock_source, lock_present, route->0));
    }
}

/// Until the earliest reset an enterprise account counts down to it. It shows
/// seconds in the last minute, begun minutes in the last five, whole minutes in
/// the last hour, and hours and minutes before.
pub proof fn enterprise_account_counts_down(
    program: Seq<char>,
    state: StateModel,
    config: Config,
    current: Seq<char>,
    snapshot: RateLimitSnapshot,
    lock_source: Option<Seq<char>>,
    lock_present: bool,
    now: int,
    label: Seq<char>,
    time: i64,
)
    requires
        is_next(snapshot, label, time),
        time > now,
    ensures
        ({
            let left = time - now;
            let shown = statusline::enterprise_rendering(
                program,
                state,
                config,
                current,
                Some(snapshot),
                lock_source,
                lock_present,
                now,
            );
            let source = match lock_source {
                    Some(source) => source,
                    None => "team account"@,
                };
            &&& left <= 60 ==> shown == (Rendering::Notify {
                event: "reset-1min:"@ + source,
                message: source + " quota resets within 1 minute."@,
                line: source + " reset in "@ + text::decimal(left as nat) + "s("@ + label + ") -> "@ + program
                    + " list"@,
            })
            &&& 60 < left <= 300 ==> exists|m: nat| #[trigger]
                is_rounded_up(left, m) && shown == (Rendering::Notify {
                    event: "reset-5min:"@ + source,
                    message: source + " quota resets in "@ + text::decimal(m) + " minutes."@,
                    line: source + " reset in "@ + text::decimal(m) + "m("@ + label + ") -> "@ + program
                        + " list"@,
                })
            &&& 300 < left < 3600 ==> exists|m: nat| #[trigger]
                is_whole_minutes(left, m) && shown == Rendering::Show(
                    current + " | "@ + source + " reset in "@ + text::decimal(m) + "m("@ + label + ")"@,
                )
            &&& left >= 3600 ==> exists|h: nat, m: nat| #[trigger]
                is_clock_time(left, h, m) && shown == Rendering::Show(
                    current + " | "@ + source + " reset in "@ + text::decimal(h) + "h"@ + text::decimal(m) + "m("@ + label + ")"@,
                )
        }),
{
    soonest_names_its_window(snapshot, label, time);
    lemma_clock(time - now);
    let left = time - now;
    assert(is_rounded_up(left, ((left + 59) / 60) as nat));
    assert(is_whole_minutes(left, (left / 60) as nat));
    assert(is_clock_time(left, (left / 3600) as nat, (left / 60 % 60) as nat));
}

/// A team plan is silent below the threshold. It is routed away only in auto
/// mode, only when a quota is used up to 100 percent, and only to the first
/// enterprise plan by name; from the threshold on it notifies otherwise.
pub proof fn team_plan_routes_only_when_full(
    program: Seq<char>,
    state: StateModel,
    config: Config,
    current: Seq<char>,
    snapshot: RateLimitSnapshot,
)
    requires
        state.accounts.dom().finite(),
    ensures
        ({
            let shown = plan_statusline::team_rendering(program, state, config, current, snapshot);
            let reached = is_used_up_to(snapshot, config.alert_at as int);
            let routed = reached && is_used_up_to(snapshot, 100) && config.mode == RoutingMode::Auto
                && has_enterprise(state, current);
            &&& shown is Silent <==> !reached
            &&& shown is Route <==> routed
            &&& shown is Notify <==> reached && !routed
            &&& shown matches Rendering::Route { target } ==> is_first_enterprise(
                state,
                current,
                target,
            )
        }),
{
    full_quota_leads_to_first_enterprise(state, current);
}

/// What a team plan notifies of names it, its fullest window and, short of a
/// full quota, the share used. Being full and being nearly full are events of
/// their own.
pub proof fn team_plan_tells_of_its_fullest_window(
    program: Seq<char>,
    state: StateModel,
    config: Config,
    current: Seq<char>,
    snapshot: RateLimitSnapshot,
    label: Seq<char>,
    share: u8,
)
    requires
        is_top(snapshot, label, share),
    ensures
        plan_statusline::team_rendering(program, state, config, current, snapshot) matches Rendering::Notify {
            event,
            message,
            line,
        } ==> {
            &&& share >= 100 ==> {
                &&& event == "team-limit"@
                &&& message == current + " quota is full. Run "@ + program + " list."@
                &&& line == current + " LIMIT("@ + label + ") -> "@ + program + " list"@
            }
            &&& share < 100 ==> {
                &&& event == "team-alert"@
                &&& message == current + " usage is "@ + text::decimal(share as nat) + "% ("@ + label
                    + "). Prepare to switch."@
                &&& line == current + " "@ + text::decimal(share as nat) + "%("@ + label + ") -> "@
                    + program + " list"@
            }
        },
{
    fullest_names_its_window(snapshot, label, share);
}

/// An enterprise plan that knows of no reset shows its name. It is routed only
/// in auto mode, only once the earliest reset has passed, and only to the way
/// back; short of that it says that the reset is done.
pub proof fn enterprise_plan_routes_only_after_reset(
    program: Seq<char>,
    state: StateModel,
    config: Config,
    current: Seq<char>,
    snapshot: Option<RateLimitSnapshot>,
    lock_source: Option<Seq<char>>,
    lock_present: bool,
    now: int,
)
    ensures
        ({
            let shown = plan_statusline::enterprise_rendering(
                program,
                state,
                config,
                current,
                snapshot,
                lock_source,
                lock_present,
                now,
            );
            let known = snapshot matches Some(snapshot) && (snapshot.five_hour.resets_at is Some
                || snapshot.seven_day.resets_at is Some);
            let passed = snapshot matches Some(snapshot) && {
                ||| snapshot.five_hour.resets_at matches Some(time) && time <= now
                ||| snapshot.seven_day.resets_at matches Some(time) && time <= now
            };
            let back = exists|target: Seq<char>|
                leads_back(state, current, lock_source, lock_present, target);
            &&& !known ==> shown == Rendering::Show(current)
            &&& shown is Route <==> passed && config.mode == RoutingMode::Auto && back
            &&& shown matches Rendering::Route { target } ==> leads_back(
                state,
                current,
                lock_source,
                lock_present,
                target,
            )
            &&& passed && !(shown is Route) ==> shown == ({
                Rendering::Notify {
                    event: "reset"@,
                    message: "team quota reset is complete. Run "@ + program + " list."@,
                    line: "team quota reset done -> "@ + program + " list"@,
                }
            })
            &&& !(shown is Silent)
        }),
{
    new_quota_leads_back(state, current, lock_source, lock_present);
    let route = routing::return_route(state, current, lock_source, lock_present);
    if route is Some {
        assert(leads_back(state, current, lock_source, lock_present, route->0));
    }
}

/// Until the earliest reset an enterprise plan counts down to it. It shows
/// seconds in the last minute, begun minutes in the last five, whole minutes in
/// the last hour, and hours and minutes before.
pub proof fn enterprise_plan_counts_down(
    program: Seq<char>,
    state: StateModel,
    config: Config,
    current: Seq<char>,
    snapshot: RateLimitSnapshot,
    lock_source: Option<Seq<char>>,
    lock_present: bool,
    now: int,
    label: Seq<char>,
    time: i64,
)
    requires
        is_next(snapshot, label, time),
        time > now,
    ensures
        ({
            let left = time - now;
            let shown = plan_statusline::enterprise_rendering(
                program,
                state,
                config,
                current,
                Some(snapshot),
                lock_source,
                lock_present,
                now,
            );
            &&& left <= 60 ==> shown == (Rendering::Notify {
                event: "reset-1min"@,
                message: "team quota resets within 1 minute."@,
                line: "team reset in "@ + text::decimal(left as nat) + "s("@ + label + ") -> "@ + program
                    + " list"@,
            })
            &&& 60 < left <= 300 ==> exists|m: nat| #[trigger]
                is_rounded_up(left, m) && shown == (Rendering::Notify {
                    event: "reset-5min"@,
                    message: "team quota resets in "@ + text::decimal(m) + " minutes."@,
                    line: "team reset in "@ + text::decimal(m) + "m("@ + label + ") -> "@ + program
                        + " list"@,
                })
            &&& 300 < left < 3600 ==> exists|m: nat| #[trigger]
                is_whole_minutes(left, m) && shown == Rendering::Show(
                    current + " | team reset in "@ + text::decimal(m) + "m("@ + label + ")"@,
                )
            &&& left >= 3600 ==> exists|h: nat, m: nat| #[trigger]
                is_clock_time(left, h, m) && shown == Rendering::Show(
                    current + " | team reset in "@ + text::decimal(h) + "h"@ + text::decimal(m) + "m("@ + label + ")"@,
                )
        }),
{
    soonest_names_its_window(snapshot, label, time);
    lemma_clock(time - now);
    let left = time - now;
    assert(is_rounded_up(left, ((left + 59) / 60) as nat));
    assert(is_whole_minutes(left, (left / 60) as nat));
    assert(is_clock_time(left, (left / 3600) as nat, (left / 60 % 60) as nat));
}

/// What the quota router shows goes by the kind of the account in use: nothing
/// where none is saved as in use, or for a team account without a reading; the
/// name alone for an account of another kind.
pub proof fn router_goes_by_kind_in_use(
    program: Seq<char>,
    state: StateModel,
    config: Config,
    team: Option<RateLimitSnapshot>,
    cached: Option<RateLimitSnapshot>,
    lock_source: Option<Seq<char>>,
    lock_present: bool,
    now: int,
    current: Seq<char>,
)
    ensures
        ({
            let router = statusline::router_rendering(
                program,
                state,
                config,
                team,
                cached,
                lock_source,
                lock_present,
                now,
            );
            let swap = plan_statusline::swap_rendering(
                program,
                state,
                config,
                team,
                cached,
                lock_source,
                lock_present,
                now,
            );
            let saved = state.current == Some(current) && state.accounts.contains_key(current);
            let kind = state.accounts[current].kind;
            &&& state.current is None ==> router is Silent && swap is Silent
            &&& state.current == Some(current) && !saved ==> router is Silent && swap is Silent
            &&& saved && kind == AccountKind::Other ==> router == Rendering::Show(current) && swap
                == Rendering::Show(current)
            &&& saved && kind == AccountKind::Team && team is None ==> router is Silent
                && swap is Silent
            &&& saved && kind == AccountKind::Team && team is Some ==> {
                &&& router == statusline::team_rendering(program, state, config, current, team->0)
                &&& swap == plan_statusline::team_rendering(
                    program,
                    state,
                    config,
                    current,
                    team->0,
                )
            }
            &&& saved && kind == AccountKind::Enterprise ==> {
                &&& router == statusline::enterprise_rendering(
                    program,
                    state,
                    config,
                    current,
                    cached,
                    lock_source,
                    lock_present,
                    now,
                )
                &&& swap == plan_statusline::enterprise_rendering(
                    program,
                    state,
                    config,
                    current,
                    cached,
                    lock_source,
                    lock_present,
                    now,
                )
            }
            &&& statusline::current_kind_in(state) == Some(kind) || !saved
            &&& state.current is None ==> statusline::current_kind_in(state) is None
            &&& state.current == Some(current) && !saved ==> statusline::current_kind_in(
                state,
            ) is None
        }),
{
}

/// Both parts of a line are shown where both hold something, else the one that
/// does.
pub proof fn lines_show_all_that_is_there(own: Seq<char>, inner: Seq<char>)
    requires
        own.len() > 0,
        inner.len() > 0,
    ensures
        statusline::combined(Some(own), Some(inner)) == Some(own + " | "@ + inner),
        forall|none: Option<Seq<char>>|
            none is None || none->0.len() == 0 ==> #[trigger] statusline::combined(Some(own), none)
                == Some(own) && #[trigger] statusline::combined(none, Some(inner)) == Some(inner),
        forall|none: Option<Seq<char>>, other: Option<Seq<char>>|
            (none is None || none->0.len() == 0) && (other is None || other->0.len() == 0)
                ==> #[trigger] statusline::combined(none, other) is None,
{
}

} // verus!
