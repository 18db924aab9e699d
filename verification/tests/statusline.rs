use quota_router::domain::{
    AccountEntry, AccountKind, Config, LimitWindow, NameError, RateLimitSnapshot, RouteLock,
    RoutingMode, State,
};
use quota_router::names::NameMap;
use quota_router::plan_statusline::{
    auto_switch as auto_swap, statusline_enterprise, statusline_swap_output, statusline_team,
};
use quota_router::program::Client;
use quota_router::quota::{time_left, LimitReadings, Reading, StatuslineInput};
use quota_router::statusline::{
    accept_input, auto_route_to_enterprise, auto_switch, combine, current_kind,
    inner_output, nonblank, render_enterprise, render_router_output, render_team, Rendering,
};

const ROUTER: &str = "acme-quota-router";
const SWAP: &str = "acme-plan-swap";

fn client() -> Client {
    Client { command: "acme" }
}

fn state_with(current: Option<&str>, accounts: &[(&str, AccountKind)]) -> State {
    let mut entries = NameMap::new();
    for (name, kind) in accounts {
        entries.insert(
            name.to_string(),
            AccountEntry { kind: *kind, created_at: 1, updated_at: 1 },
        );
    }
    State {
        active_account: Some("me".to_string()),
        current_account: current.map(str::to_string),
        previous_account: None,
        accounts: entries,
    }
}

fn used(share: u64) -> StatuslineInput<String> {
    StatuslineInput {
        rate_limits: Some(LimitReadings {
            five_hour_used: Some(Reading::Unsigned(share)),
            five_hour_reset: Some(Reading::Unsigned(1000)),
            seven_day_used: Some(Reading::Unsigned(10)),
            seven_day_reset: Some(Reading::Unsigned(9000)),
        }),
    }
}

fn resets(five_hour: Option<i64>, seven_day: Option<i64>) -> RateLimitSnapshot {
    RateLimitSnapshot {
        detected_at: 1,
        five_hour: LimitWindow { used_percentage: Some(100), resets_at: five_hour },
        seven_day: LimitWindow { used_percentage: None, resets_at: seven_day },
    }
}

fn manual() -> Config {
    Config { alert_at: 95, mode: RoutingMode::Manual }
}

fn auto() -> Config {
    Config { alert_at: 95, mode: RoutingMode::Auto }
}

/// A rendering as plain text: what is shown, and what is notified of.
fn flat(rendering: Rendering<String>) -> Vec<String> {
    match rendering {
        Rendering::Silent => vec![],
        Rendering::Show(line) => vec![line],
        Rendering::Notify { event, message, line } => vec![line, event, message],
        Rendering::Route { target } => vec!["route".to_string(), target],
    }
}

#[test]
fn team_account_alerts_from_the_threshold_on() {
    let state = state_with(Some("team-main"), &[("team-main", AccountKind::Team)]);
    let (kept, below) = render_team(ROUTER, &state, &manual(), "team-main", &used(94), 5);
    assert_eq!(kept.as_ref().map(|kept| kept.detected_at), Some(5));
    assert_eq!(kept.unwrap().five_hour.used_percentage, Some(94));
    assert!(flat(below).is_empty());
    let (_, alert) = render_team(ROUTER, &state, &manual(), "team-main", &used(95), 5);
    assert_eq!(
        flat(alert),
        vec![
            "team-main 95%(5h) -> acme-quota-router list",
            "team-alert:team-main",
            "team-main usage is 95% (5h). Prepare to switch.",
        ]
    );
    let (_, full) = render_team(ROUTER, &state, &auto(), "team-main", &used(100), 5);
    assert_eq!(
        flat(full),
        vec![
            "team-main LIMIT(5h) -> acme-quota-router list",
            "team-limit:team-main",
            "team-main quota is full. Run acme-quota-router list.",
        ]
    );
    let quiet = StatuslineInput { rate_limits: None };
    let (kept, silent) = render_team(ROUTER, &state, &manual(), "team-main", &quiet, 5);
    assert!(kept.is_none());
    assert!(flat(silent).is_empty());
}

#[test]
fn full_team_account_routes_by_kind() {
    let state = state_with(
        Some("team-main"),
        &[
            ("ent-b", AccountKind::Enterprise),
            ("ent-a", AccountKind::Enterprise),
            ("team-main", AccountKind::Team),
        ],
    );
    let (_, routed) = render_team(ROUTER, &state, &auto(), "team-main", &used(100), 5);
    assert_eq!(flat(routed), vec!["route", "ent-a"]);
    let (_, stays) = render_team(ROUTER, &state, &manual(), "team-main", &used(255), 5);
    assert_eq!(flat(stays).len(), 3);
}

fn countdown(remaining: i64) -> Vec<String> {
    let state = state_with(Some("ent"), &[("ent", AccountKind::Enterprise)]);
    let lock = RouteLock {
        source_account: "team-main".to_string(),
        routed_account: "ent".to_string(),
        created_at: 1,
    };
    let snapshot = resets(Some(10_000), Some(20_000));
    let now = (10_000 - remaining) as u64;
    flat(render_enterprise(
        ROUTER,
        &state,
        &manual(),
        "ent",
        Some(&snapshot),
        Some(&lock),
        true,
        now,
    ))
}

#[test]
fn enterprise_account_counts_down() {
    assert_eq!(
        countdown(0),
        vec![
            "team-main reset done -> acme-quota-router list",
            "reset:team-main",
            "team-main quota reset is complete. Run acme-quota-router list.",
        ]
    );
    assert_eq!(
        countdown(60),
        vec![
            "team-main reset in 60s(5h) -> acme-quota-router list",
            "reset-1min:team-main",
            "team-main quota resets within 1 minute.",
        ]
    );
    assert_eq!(
        countdown(61),
        vec![
            "team-main reset in 2m(5h) -> acme-quota-router list",
            "reset-5min:team-main",
            "team-main quota resets in 2 minutes.",
        ]
    );
    assert_eq!(countdown(300)[0], "team-main reset in 5m(5h) -> acme-quota-router list");
    assert_eq!(countdown(301), vec!["ent | team-main reset in 5m(5h)"]);
    assert_eq!(countdown(3599), vec!["ent | team-main reset in 59m(5h)"]);
    assert_eq!(countdown(3600), vec!["ent | team-main reset in 1h0m(5h)"]);
    assert_eq!(countdown(7384), vec!["ent | team-main reset in 2h3m(5h)"]);
}

#[test]
fn enterprise_account_without_readings_shows_its_name() {
    let state = state_with(Some("ent"), &[("ent", AccountKind::Enterprise)]);
    let shown = render_enterprise(ROUTER, &state, &auto(), "ent", None, None, false, 5);
    assert_eq!(flat(shown), vec!["ent"]);
    let unknown = resets(None, None);
    let shown = render_enterprise(ROUTER, &state, &auto(), "ent", Some(&unknown), None, false, 5);
    assert_eq!(flat(shown), vec!["ent"]);
    let snapshot = resets(None, Some(1000));
    let shown = render_enterprise(ROUTER, &state, &auto(), "ent", Some(&snapshot), None, false, 990);
    assert_eq!(flat(shown)[0], "team account reset in 10s(7d) -> acme-quota-router list");
}

#[test]
fn enterprise_account_routes_back() {
    let mut state = state_with(
        Some("ent"),
        &[
            ("ent", AccountKind::Enterprise),
            ("team-a", AccountKind::Team),
            ("team-b", AccountKind::Team),
        ],
    );
    state.previous_account = Some("team-b".to_string());
    let snapshot = resets(Some(1000), None);
    let lock = RouteLock {
        source_account: "team-a".to_string(),
        routed_account: "ent".to_string(),
        created_at: 1,
    };
    let route = |config: &Config, lock: Option<&RouteLock>, present: bool, now: u64| {
        flat(render_enterprise(
            ROUTER,
            &state,
            config,
            "ent",
            Some(&snapshot),
            lock,
            present,
            now,
        ))
    };
    assert_eq!(route(&auto(), Some(&lock), true, 1000), vec!["route", "team-a"]);
    assert_eq!(route(&auto(), None, true, 1000), vec!["route", "team-b"]);
    assert_eq!(route(&auto(), None, false, 1000).len(), 3);
    assert_eq!(route(&manual(), Some(&lock), true, 1000).len(), 3);
    assert_eq!(route(&auto(), Some(&lock), true, 999).len(), 3);
}

#[test]
fn any_reset_time_is_counted_down_to() {
    let state = state_with(Some("ent"), &[("ent", AccountKind::Enterprise)]);
    let shown = |reset: i64, now: u64| {
        let snapshot = resets(Some(reset), None);
        let router =
            render_enterprise(ROUTER, &state, &manual(), "ent", Some(&snapshot), None, false, now);
        let swap =
            statusline_enterprise(SWAP, &state, &manual(), "ent", Some(&snapshot), None, false, now);
        (flat(router)[0].clone(), flat(swap)[0].clone())
    };
    let done = (
        "team account reset done -> acme-quota-router list".to_string(),
        "team quota reset done -> acme-plan-swap list".to_string(),
    );
    assert_eq!(shown(i64::MIN, 1000), done);
    assert_eq!(shown(i64::MIN, u64::MAX), done);
    assert_eq!(shown(0, 0), done);
    assert_eq!(shown(-1, 0), done);
    assert_eq!(shown(i64::MAX, u64::MAX), done);
    assert_eq!(shown(i64::MAX, i64::MAX as u64), done);
    assert_eq!(
        shown(i64::MAX, 0).0,
        "ent | team account reset in 2562047788015215h30m(5h)"
    );
    assert_eq!(time_left(i64::MAX, 0), i64::MAX);
    assert_eq!(time_left(1000, 999), 1);
    assert_eq!(time_left(1000, 1001), 0);
}

#[test]
fn router_output_goes_by_the_account_in_use() {
    let accounts = [
        ("team-main", AccountKind::Team),
        ("ent", AccountKind::Enterprise),
        ("side", AccountKind::Other),
    ];
    let render = |current: Option<&str>| {
        let state = state_with(current, &accounts);
        let (kept, shown) =
            render_router_output(ROUTER, &state, &manual(), &used(99), None, None, false, 5);
        (current_kind(&state), kept.is_some(), flat(shown))
    };
    assert_eq!(render(None), (None, false, vec![]));
    assert_eq!(render(Some("gone")), (None, false, vec![]));
    assert_eq!(
        render(Some("side")),
        (Some(AccountKind::Other), false, vec!["side".to_string()])
    );
    assert_eq!(
        render(Some("ent")),
        (Some(AccountKind::Enterprise), false, vec!["ent".to_string()])
    );
    let (kind, kept, shown) = render(Some("team-main"));
    assert_eq!((kind, kept), (Some(AccountKind::Team), true));
    assert_eq!(shown[0], "team-main 99%(5h) -> acme-quota-router list");
}

#[test]
fn swap_output_goes_by_plan_kind() {
    let state = state_with(
        Some("team-main"),
        &[
            ("enterprise-b", AccountKind::Enterprise),
            ("team-main", AccountKind::Team),
            ("enterprise-a", AccountKind::Enterprise),
        ],
    );
    let (kept, routed) =
        statusline_swap_output(SWAP, &state, &auto(), &used(100), None, None, false, 5);
    assert!(kept.is_some());
    assert_eq!(flat(routed), vec!["route", "enterprise-a"]);
    let (_, routed) =
        statusline_swap_output(SWAP, &state, &auto(), &used(100), None, None, true, 5);
    assert_eq!(flat(routed), vec!["route", "enterprise-a"]);
    let full = vec![
        "team-main LIMIT(5h) -> acme-plan-swap list",
        "team-limit",
        "team-main quota is full. Run acme-plan-swap list.",
    ];
    let (_, asked) = statusline_team(SWAP, &state, &manual(), "team-main", &used(100), 5);
    assert_eq!(flat(asked), full);
    let alone = state_with(Some("team-main"), &[("team-main", AccountKind::Team)]);
    let (_, stays) = statusline_team(SWAP, &alone, &auto(), "team-main", &used(100), 5);
    assert_eq!(flat(stays), full);
    let (_, alert) = statusline_team(SWAP, &state, &auto(), "team-main", &used(97), 5);
    assert_eq!(
        flat(alert),
        vec![
            "team-main 97%(5h) -> acme-plan-swap list",
            "team-alert",
            "team-main usage is 97% (5h). Prepare to switch.",
        ]
    );
    let (_, silent) = statusline_swap_output(SWAP, &state, &auto(), &used(1), None, None, false, 5);
    assert!(flat(silent).is_empty());
}

#[test]
fn swap_counts_down_to_the_team_plan() {
    let mut state = state_with(
        Some("enterprise"),
        &[
            ("enterprise", AccountKind::Enterprise),
            ("team-a", AccountKind::Team),
            ("team-b", AccountKind::Team),
        ],
    );
    state.previous_account = Some("team-b".to_string());
    let recorded = RouteLock {
        source_account: "team-a".to_string(),
        routed_account: "enterprise".to_string(),
        created_at: 1,
    };
    let snapshot = resets(Some(10_000), None);
    let show = |config: &Config, lock: Option<&RouteLock>, present: bool, remaining: i64| {
        flat(statusline_enterprise(
            SWAP,
            &state,
            config,
            "enterprise",
            Some(&snapshot),
            lock,
            present,
            (10_000 - remaining) as u64,
        ))
    };
    assert_eq!(show(&auto(), Some(&recorded), true, 0), vec!["route", "team-a"]);
    assert_eq!(show(&auto(), None, true, 0), vec!["route", "team-b"]);
    let done = vec![
        "team quota reset done -> acme-plan-swap list",
        "reset",
        "team quota reset is complete. Run acme-plan-swap list.",
    ];
    assert_eq!(show(&auto(), None, false, 0), done);
    assert_eq!(show(&manual(), Some(&recorded), true, 0), done);
    assert_eq!(
        show(&manual(), None, true, 1),
        vec![
            "team reset in 1s(5h) -> acme-plan-swap list",
            "reset-1min",
            "team quota resets within 1 minute.",
        ]
    );
    assert_eq!(
        show(&manual(), None, true, 241),
        vec![
            "team reset in 5m(5h) -> acme-plan-swap list",
            "reset-5min",
            "team quota resets in 5 minutes.",
        ]
    );
    assert_eq!(
        show(&manual(), None, true, 3000),
        vec!["enterprise | team reset in 50m(5h)"]
    );
    assert_eq!(
        show(&manual(), None, true, 9999),
        vec!["enterprise | team reset in 2h46m(5h)"]
    );
    let (kept, shown) =
        statusline_swap_output(SWAP, &state, &manual(), &used(1), Some(&snapshot), None, false, 9990);
    assert!(kept.is_none());
    assert_eq!(flat(shown)[0], "team reset in 10s(5h) -> acme-plan-swap list");
}

#[test]
fn switches_nobody_asked_for_are_reported() {
    let switch = auto_route_to_enterprise(client(), "ent").unwrap();
    assert_eq!(switch.target.as_str(), "ent");
    assert_eq!(switch.line, "auto routed to ent; restart Acme Code");
    assert_eq!(auto_switch(client(), "ent", "hi").unwrap().line, "hi; restart Acme Code");
    assert_eq!(auto_switch(client(), "Ent", "hi").unwrap_err(), NameError::Characters);
    assert_eq!(auto_swap(client(), "team"), "auto switched to team; restart Acme Code");
}

#[test]
fn input_is_accepted_as_json() {
    assert!(accept_input(" \n").is_none());
    assert!(accept_input("{").is_none());
    assert!(accept_input("{}").unwrap().rate_limits.is_none());
    let input = accept_input(r#" {"rate_limits": {"five_hour": {"used_percentage": "7"}}} "#);
    let readings = input.unwrap().rate_limits.unwrap();
    assert!(matches!(readings.five_hour_used, Some(Reading::Text(text)) if text == "7"));
    assert!(readings.five_hour_reset.is_none());
    assert!(readings.seven_day_used.is_none());
}

#[test]
fn lines_are_combined() {
    let text = |text: &str| Some(text.to_string());
    assert_eq!(combine(text("a"), text("b")), text("a | b"));
    assert_eq!(combine(text("a"), None), text("a"));
    assert_eq!(combine(None, text("b")), text("b"));
    assert_eq!(combine(text(""), text("b")), text("b"));
    assert_eq!(combine(text("a"), text("")), text("a"));
    assert_eq!(combine(text(""), None), None);
    assert_eq!(combine(None, None), None);
    assert_eq!(inner_output(true, " x \n"), text("x"));
    assert_eq!(inner_output(true, " \n"), None);
    assert_eq!(inner_output(false, "x"), None);
    assert_eq!(nonblank("\tsh -c x\n"), text("sh -c x"));
    assert_eq!(nonblank(""), None);
}
