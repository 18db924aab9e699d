use quota_router::domain::{
    validate_plan_name, AccountEntry, AccountKind, AccountName, Config, LimitWindow, NameError,
    PlanKind, RoutingMode, State, SwapMode,
};
use quota_router::names::{NameMap, NameSet};
use quota_router::program::{read_program_name, Client, Product, Program};

#[test]
fn validates_account_names() {
    assert!(AccountName::parse("team").is_ok());
    assert!(AccountName::parse("team-2").is_ok());
    assert!(AccountName::parse("Team").is_err());
    assert!(AccountName::parse("-team").is_err());
    assert!(AccountName::parse("team-").is_err());
    assert!(AccountName::parse("team--2").is_err());
}

#[test]
fn validates_plan_names() {
    assert!(validate_plan_name("team").is_ok());
    assert!(validate_plan_name("team-2").is_ok());
    assert!(validate_plan_name("Team").is_err());
    assert!(validate_plan_name("-team").is_err());
    assert!(validate_plan_name("team-").is_err());
    assert!(validate_plan_name("team--2").is_err());
}

#[test]
fn names_fail_for_the_first_reason() {
    assert_eq!(validate_plan_name(""), Err(NameError::Length));
    assert_eq!(validate_plan_name(&"a".repeat(64)), Ok(()));
    assert_eq!(validate_plan_name(&"a".repeat(65)), Err(NameError::Length));
    // 33 characters of two bytes each are too long before they are bad characters.
    assert_eq!(validate_plan_name(&"\u{e9}".repeat(33)), Err(NameError::Length));
    assert_eq!(validate_plan_name(&"\u{e9}".repeat(32)), Err(NameError::Characters));
    assert_eq!(validate_plan_name("-"), Err(NameError::Hyphens));
    assert_eq!(validate_plan_name("A--b"), Err(NameError::Hyphens));
    assert_eq!(validate_plan_name("a b"), Err(NameError::Characters));
    assert_eq!(validate_plan_name("a/b"), Err(NameError::Characters));
    assert_eq!(validate_plan_name("a-b-3"), Ok(()));
}

#[test]
fn name_errors_say_of_what() {
    assert_eq!(
        NameError::Length.message("account"),
        "account name must be 1-64 characters"
    );
    assert_eq!(
        NameError::Hyphens.message("plan"),
        "plan name cannot start/end with '-' or contain '--'"
    );
    assert_eq!(
        NameError::Characters.message("plan"),
        "plan name must use lowercase letters, digits, and '-' only"
    );
}

#[test]
fn account_names_keep_their_text() {
    let name = AccountName::parse("team-main").unwrap();
    assert_eq!(name.as_str(), "team-main");
    assert_eq!(name.into_string(), "team-main");
}

#[test]
fn subscriptions_give_kinds() {
    assert_eq!(AccountKind::from_subscription("team"), AccountKind::Team);
    assert_eq!(AccountKind::from_subscription(" TEAM\n"), AccountKind::Team);
    assert_eq!(
        AccountKind::from_subscription("\u{a0}Enterprise\u{3000}"),
        AccountKind::Enterprise
    );
    assert_eq!(AccountKind::from_subscription("pro"), AccountKind::Other);
    assert_eq!(AccountKind::from_subscription(""), AccountKind::Other);
    assert_eq!(PlanKind::Team.as_str(), "team");
    assert_eq!(PlanKind::Enterprise.as_str(), "enterprise");
    assert_eq!(PlanKind::Other.as_str(), "other");
    assert_eq!(SwapMode::Auto.as_str(), "auto");
    assert_eq!(RoutingMode::Manual.as_str(), "manual");
}

#[test]
fn products_have_names() {
    let client = Client { command: "acme" };
    let router = Program { product: Product::QuotaRouter, client };
    let swap = Program { product: Product::PlanSwap, client };
    assert_eq!(router.name(), "acme-quota-router");
    assert_eq!(swap.name(), "acme-plan-swap");
    assert!(Product::QuotaRouter.checks_names());
    assert!(!Product::PlanSwap.checks_names());
}

#[test]
fn program_names_are_read_back() {
    let read = |name: &str| read_program_name(name);
    assert_eq!(
        read("acme-quota-router"),
        Some((Product::QuotaRouter, "acme".to_string()))
    );
    assert_eq!(read("a-b-plan-swap"), Some((Product::PlanSwap, "a-b".to_string())));
    assert_eq!(read("-plan-swap"), None);
    assert_eq!(read("Acme-plan-swap"), None);
    assert_eq!(read("acme-plan-swap2"), None);
    assert_eq!(read("swap"), None);
    assert_eq!(
        read("acme-quota-router-plan-swap"),
        Some((Product::PlanSwap, "acme-quota-router".to_string()))
    );
    assert_eq!(Client { command: "acme" }.title(), "Acme Code");
    assert_eq!(Client { command: "z" }.title(), "Z Code");
    assert_eq!(Client { command: "" }.title(), " Code");
    assert_eq!(Client { command: "9p" }.title(), "9p Code");
}

#[test]
fn defaults_are_quiet() {
    assert_eq!(
        Config::default(),
        Config { alert_at: 95, mode: RoutingMode::Manual }
    );
    assert_eq!(
        LimitWindow::default(),
        LimitWindow { used_percentage: None, resets_at: None }
    );
    let state = State::default();
    assert!(state.active_account.is_none());
    assert!(state.current_account.is_none());
    assert!(state.previous_account.is_none());
    assert_eq!(state.accounts.len(), 0);
}

#[test]
fn maps_keep_names_in_order() {
    let mut map: NameMap<u8> = NameMap::new();
    for (name, value) in [("b", 2), ("a-1", 1), ("c", 3), ("a", 0), ("b", 4), ("B", 5)] {
        map.insert(name.to_string(), value);
    }
    let listed: Vec<(String, u8)> = (0..map.len())
        .map(|at| {
            let (name, value) = map.entry(at);
            (name.to_string(), *value)
        })
        .collect();
    assert_eq!(
        listed,
        vec![
            ("B".to_string(), 5),
            ("a".to_string(), 0),
            ("a-1".to_string(), 1),
            ("b".to_string(), 4),
            ("c".to_string(), 3),
        ]
    );
    assert_eq!(map.get("a-1"), Some(&1));
    assert_eq!(map.get("d"), None);
    assert!(map.remove("a"));
    assert!(!map.remove("a"));
    assert!(!map.contains("a"));
    assert!(map.contains("a-1"));
    assert_eq!(map.len(), 4);
}

#[test]
fn sets_hold_each_name_once() {
    let mut set = NameSet::new();
    set.insert("reset".to_string());
    set.insert("alert".to_string());
    set.insert("reset".to_string());
    assert_eq!(set.len(), 2);
    assert_eq!(set.name(0), "alert");
    assert_eq!(set.name(1), "reset");
    assert!(set.contains("reset"));
    assert!(!set.contains("limit"));
}

#[test]
fn entries_are_plain_values() {
    let entry = AccountEntry { kind: AccountKind::Team, created_at: 1, updated_at: 2 };
    assert_eq!(entry, entry.clone());
}
