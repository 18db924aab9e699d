use quota_router::app::{App, Commands};
use quota_router::commands::{
    cmd_config, cmd_list, cmd_remove, cmd_status, cmd_toggle, previous_saved, print_config,
    CommandError, Current,
};
use quota_router::domain::{
    AccountEntry, AccountKind, Config, LimitWindow, NameError, RateLimitSnapshot, RoutingMode,
    State,
};
use quota_router::names::NameMap;
use quota_router::program::{Client, Product, Program};
use quota_router::switcher::Phase;

fn state() -> State {
    let mut accounts = NameMap::new();
    for (name, kind) in [
        ("team-main", AccountKind::Team),
        ("ent", AccountKind::Enterprise),
        ("side", AccountKind::Other),
    ] {
        accounts.insert(
            name.to_string(),
            AccountEntry { kind, created_at: 1, updated_at: 1 },
        );
    }
    State {
        active_account: None,
        current_account: Some("team-main".to_string()),
        previous_account: Some("ent".to_string()),
        accounts,
    }
}

fn app(product: Product) -> App {
    let client = Client { command: "acme" };
    let program = Program { product, client };
    App::new(program, None, None, Some("/home/me".to_string())).unwrap()
}

#[test]
fn lists_are_sorted_and_marked() {
    assert_eq!(
        cmd_list(&state()),
        vec!["  ent\tenterprise", "  side\tother", "* team-main\tteam"]
    );
    assert_eq!(cmd_list(&State::default()), vec!["no plans saved"]);
    assert_eq!(app(Product::QuotaRouter).list(&state()).len(), 3);
}

#[test]
fn status_shows_everything() {
    let snapshot = RateLimitSnapshot {
        detected_at: 1,
        five_hour: LimitWindow { used_percentage: Some(80), resets_at: Some(500) },
        seven_day: LimitWindow { used_percentage: None, resets_at: None },
    };
    let config = Config { alert_at: 90, mode: RoutingMode::Auto };
    assert_eq!(
        cmd_status(&state(), &config, Some(&snapshot)),
        vec![
            "current: team-main",
            "previous: ent",
            "active keychain account: unknown",
            "config: alert_at=90 mode=auto",
            "plans: 3",
            "quota: 5h=80% reset=500 / 7d=- reset=-",
        ]
    );
    assert_eq!(
        app(Product::PlanSwap).status(&State::default(), &Config::default(), None),
        vec![
            "current: unknown",
            "previous: none",
            "active keychain account: unknown",
            "config: alert_at=95 mode=manual",
            "plans: 0",
            "quota: none",
        ]
    );
}

#[test]
fn thresholds_are_percentages() {
    let config = Config::default();
    let changed = cmd_config(&config, Some(100), None).unwrap();
    assert_eq!(changed, Config { alert_at: 100, mode: RoutingMode::Manual });
    let changed = cmd_config(&changed, None, Some(RoutingMode::Auto)).unwrap();
    assert_eq!(print_config(&changed), vec!["alert_at=100", "mode=auto"]);
    let error = app(Product::QuotaRouter)
        .config(&config, Some(101), Some(RoutingMode::Auto))
        .unwrap_err();
    assert_eq!(
        error.message(Product::QuotaRouter).as_deref(),
        Some("--alert-at must be between 0 and 100")
    );
}

#[test]
fn saved_accounts_are_removed() {
    let mut state = state();
    let line = cmd_remove(&mut state, "ent").unwrap();
    assert_eq!(line, "removed plan: ent");
    assert!(!state.accounts.contains("ent"));
    assert_eq!(state.accounts.len(), 2);
    assert_eq!(state.previous_account, None);
    assert_eq!(state.current_account.as_deref(), Some("team-main"));
    let error = cmd_remove(&mut state, "ent").unwrap_err();
    assert_eq!(
        error.message(Product::PlanSwap).as_deref(),
        Some("plan is not saved: ent")
    );
    let error = cmd_remove(&mut state, "team-main").unwrap_err();
    assert_eq!(
        error.message(Product::PlanSwap).as_deref(),
        Some("cannot remove the current plan; switch to another plan first")
    );
    let app = app(Product::QuotaRouter);
    let error = app.remove(&mut state, "Side").unwrap_err();
    assert_eq!(
        error.message(Product::QuotaRouter).as_deref(),
        Some("account name must use lowercase letters, digits, and '-' only")
    );
    assert!(app.remove(&mut state, "side").is_ok());
}

#[test]
fn going_back_needs_a_saved_account() {
    let mut state = state();
    assert_eq!(previous_saved(&state).unwrap(), "ent");
    let app = app(Product::QuotaRouter);
    let switch = app.toggle(&state, false).unwrap();
    assert_eq!(switch.target, "ent");
    assert!(matches!(switch.phase, Phase::Confirming));
    state.previous_account = Some("gone".to_string());
    let error = cmd_toggle(app.keychain, &state, true).unwrap_err();
    assert_eq!(
        error.message(Product::PlanSwap).as_deref(),
        Some("previous plan is not saved: gone")
    );
    state.previous_account = None;
    let error = app.toggle(&state, true).unwrap_err();
    assert!(matches!(error, CommandError::NoPrevious));
    assert_eq!(
        error.message(Product::QuotaRouter).as_deref(),
        Some("no previous plan recorded")
    );
}

#[test]
fn commands_with_bad_names_are_refused() {
    let router = app(Product::QuotaRouter);
    let swap = app(Product::PlanSwap);
    let setup = || Commands::Setup { name: "A".to_string(), kind: None };
    let switch = || Commands::Switch { name: "A".to_string(), yes: true };
    let remove = || Commands::Remove { name: "A".to_string() };
    assert_eq!(router.handle(setup()).unwrap_err(), NameError::Characters);
    assert_eq!(swap.handle(setup()).unwrap_err(), NameError::Characters);
    assert_eq!(router.handle(switch()).unwrap_err(), NameError::Characters);
    assert_eq!(router.handle(remove()).unwrap_err(), NameError::Characters);
    assert!(matches!(swap.handle(switch()), Ok(Commands::Switch { name, yes: true }) if name == "A"));
    assert!(swap.handle(remove()).is_ok());
    assert!(matches!(router.handle(Commands::Toggle { yes: true }), Ok(Commands::Toggle { yes: true })));

    assert_eq!(
        CommandError::<String>::BadName(NameError::Length).message(Product::PlanSwap).as_deref(),
        Some("plan name must be 1-64 characters")
    );
    let state = state();
    assert!(router.setup(&state, "b", None).is_ok());
    assert!(router.setup(&state, "", None).is_err());
    let error = router.switch(&state, "A", true).unwrap_err();
    assert!(matches!(error, CommandError::BadName(NameError::Characters)));
    let error = swap.switch(&state, "A", true).unwrap_err();
    assert_eq!(error.message(Product::PlanSwap).as_deref(), Some("plan is not saved: A"));
    assert!(matches!(router.current(&state), Current::Known(name) if name == "team-main"));
    assert_eq!(router.ctx.state_path(), "/home/me/.config/acme-quota-router/state.json");
}
