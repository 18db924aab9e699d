use quota_router::domain::{AccountEntry, AccountKind, RouteLock, State};
use quota_router::names::NameMap;
use quota_router::routing::{
    account_kind, enterprise_target, first_account_of_kind, locked_team_target,
    previous_team_target, team_return_target,
};

fn state_with(accounts: &[(&str, AccountKind)]) -> State {
    let mut entries = NameMap::new();
    for (name, kind) in accounts {
        entries.insert(
            (*name).to_string(),
            AccountEntry {
                kind: *kind,
                created_at: 1,
                updated_at: 1,
            },
        );
    }
    State {
        active_account: Some("active".to_string()),
        current_account: None,
        previous_account: Some("team-secondary".to_string()),
        accounts: entries,
    }
}

#[test]
fn picks_first_enterprise_account_by_saved_name() {
    let state = state_with(&[
        ("enterprise-b", AccountKind::Enterprise),
        ("team-main", AccountKind::Team),
        ("enterprise-a", AccountKind::Enterprise),
    ]);

    assert_eq!(
        enterprise_target(&state, "team-main").as_deref(),
        Some("enterprise-a")
    );
}

#[test]
fn returns_to_locked_team_account() {
    let state = state_with(&[
        ("enterprise-a", AccountKind::Enterprise),
        ("team-main", AccountKind::Team),
        ("team-secondary", AccountKind::Team),
    ]);
    let lock = RouteLock {
        source_account: "team-secondary".to_string(),
        routed_account: "enterprise-a".to_string(),
        created_at: 10,
    };

    assert_eq!(
        locked_team_target(&state, "enterprise-a", &lock).as_deref(),
        Some("team-secondary")
    );
}

#[test]
fn ignores_route_lock_when_source_is_not_team() {
    let state = state_with(&[
        ("enterprise-a", AccountKind::Enterprise),
        ("other-a", AccountKind::Other),
        ("team-main", AccountKind::Team),
    ]);
    let lock = RouteLock {
        source_account: "other-a".to_string(),
        routed_account: "enterprise-a".to_string(),
        created_at: 10,
    };

    assert!(locked_team_target(&state, "enterprise-a", &lock).is_none());
}

#[test]
fn routes_leave_the_account_in_use() {
    let state = state_with(&[
        ("enterprise-a", AccountKind::Enterprise),
        ("team-secondary", AccountKind::Team),
    ]);
    assert_eq!(enterprise_target(&state, "enterprise-a"), None);
    assert_eq!(previous_team_target(&state, "team-secondary"), None);
    assert_eq!(
        previous_team_target(&state, "enterprise-a").as_deref(),
        Some("team-secondary")
    );
    let lock = RouteLock {
        source_account: "team-secondary".to_string(),
        routed_account: "enterprise-a".to_string(),
        created_at: 10,
    };
    assert_eq!(locked_team_target(&state, "team-secondary", &lock), None);
    assert_eq!(
        first_account_of_kind(&state, AccountKind::Other, "x"),
        None
    );
    assert_eq!(account_kind(&state, "enterprise-a"), Some(AccountKind::Enterprise));
    assert_eq!(account_kind(&state, "unsaved"), None);
}

#[test]
fn the_way_back_prefers_the_lock() {
    let state = state_with(&[
        ("enterprise-a", AccountKind::Enterprise),
        ("team-main", AccountKind::Team),
        ("team-secondary", AccountKind::Team),
    ]);
    let lock = |source: &str| RouteLock {
        source_account: source.to_string(),
        routed_account: "enterprise-a".to_string(),
        created_at: 10,
    };
    let main = lock("team-main");
    assert_eq!(
        team_return_target(&state, "enterprise-a", Some(&main), true).as_deref(),
        Some("team-main")
    );
    let gone = lock("team-gone");
    assert_eq!(
        team_return_target(&state, "enterprise-a", Some(&gone), true).as_deref(),
        Some("team-secondary")
    );
    assert_eq!(
        team_return_target(&state, "enterprise-a", None, true).as_deref(),
        Some("team-secondary")
    );
    assert_eq!(team_return_target(&state, "enterprise-a", None, false), None);
}
