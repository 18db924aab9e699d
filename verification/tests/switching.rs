use quota_router::commands::{cmd_current, cmd_switch, cmd_toggle, Current};
use quota_router::detection::{Detection, DetectionPhase};
use quota_router::domain::{AccountEntry, AccountKind, NameError, State};
use quota_router::keychain::{Keychain, SecurityCall};
use quota_router::names::NameMap;
use quota_router::program::{Client, Product, Program};
use quota_router::setup::{cmd_setup, Setup, SetupError, SetupPhase, SetupReply, SetupRequest};
use quota_router::switcher::{
    confirm_switch, refresh_current_backup, reset_quota_side_effects, switch_to, Phase, Reply, Request, SideEffects, Switch,
    SwitchError, SwitchOptions,
};
use std::collections::BTreeMap;

const ACTIVE: &str = "Acme Code-credentials";
const SAVED: &str = "acme-quota-router";

fn client() -> Client {
    Client { command: "acme" }
}

fn keychain(product: Product) -> Keychain {
    Keychain { program: Program { product, client: client() } }
}

fn router() -> Keychain {
    keychain(Product::QuotaRouter)
}

/// A Keychain in memory. Calls on a refused service and account fail.
struct Vault {
    items: BTreeMap<(String, String), String>,
    logged_in: Option<String>,
    refused: Option<(String, String)>,
    calls: usize,
}

fn key(service: &str, account: &str) -> (String, String) {
    (service.to_string(), account.to_string())
}

impl Vault {
    fn with(items: &[(&str, &str, &str)]) -> Self {
        Vault {
            items: items
                .iter()
                .map(|(service, account, text)| (key(service, account), text.to_string()))
                .collect(),
            logged_in: Some("me".to_string()),
            refused: None,
            calls: 0,
        }
    }

    fn call(&mut self, call: &SecurityCall<String>) -> Option<String> {
        self.calls += 1;
        match call {
            SecurityCall::Read { service, account } => {
                self.items.get(&key(service, account)).cloned()
            }
            SecurityCall::Upsert { service, account, credential } => {
                if self.refused == Some(key(service, account)) {
                    return None;
                }
                self.items.insert(key(service, account), credential.clone());
                Some(String::new())
            }
            SecurityCall::Delete { service, account } => {
                self.items.remove(&key(service, account)).map(|_| String::new())
            }
            SecurityCall::Detect { service } => {
                assert_eq!(service, ACTIVE);
                self.logged_in.clone()
            }
        }
    }

    fn reply(&mut self, call: &SecurityCall<String>) -> Reply<String> {
        match self.call(call) {
            Some(text) => Reply::Text(text),
            None => Reply::Failed,
        }
    }

    fn item(&self, service: &str, account: &str) -> Option<&str> {
        self.items.get(&key(service, account)).map(String::as_str)
    }
}

fn run(mut switch: Switch<String>, vault: &mut Vault) -> Switch<String> {
    loop {
        match switch.request() {
            Request::Call(call) => {
                let reply = vault.reply(&call);
                switch = switch.advance(reply);
            }
            Request::Confirm => panic!("nobody to ask"),
            Request::Nothing => return switch,
        }
    }
}

fn state_with(current: Option<&str>, accounts: &[(&str, AccountKind)]) -> State {
    let mut entries = NameMap::new();
    for (name, kind) in accounts {
        entries.insert(
            name.to_string(),
            AccountEntry { kind: *kind, created_at: 1, updated_at: 1 },
        );
    }
    State {
        active_account: None,
        current_account: current.map(str::to_string),
        previous_account: None,
        accounts: entries,
    }
}

fn two_accounts() -> State {
    state_with(
        Some("team-main"),
        &[("ent", AccountKind::Enterprise), ("team-main", AccountKind::Team)],
    )
}

const NOISY: SwitchOptions = SwitchOptions { yes: true, emit: true };

#[test]
fn switching_there_and_back_restores_the_credential() {
    let mut state = two_accounts();
    let mut vault = Vault::with(&[
        (ACTIVE, "me", "fresh team token"),
        (SAVED, "plan:team-main", "stale team token"),
        (SAVED, "plan:ent", "enterprise token"),
    ]);
    let switch = run(cmd_switch(router(), &state, "ent", true).unwrap(), &mut vault);
    assert!(matches!(&switch.phase, Phase::Done { account, switched: true } if account == "me"));
    assert_eq!(vault.calls, 6);
    switch.settle(&mut state);
    assert_eq!(state.current_account.as_deref(), Some("ent"));
    assert_eq!(state.previous_account.as_deref(), Some("team-main"));
    assert_eq!(state.active_account.as_deref(), Some("me"));
    assert_eq!(vault.item(ACTIVE, "me"), Some("enterprise token"));
    assert_eq!(vault.item(SAVED, "plan:team-main"), Some("fresh team token"));
    assert_eq!(
        switch.report(NOISY),
        vec![
            "switched to plan: ent",
            "restart Acme Code if the running session does not pick up the new credential",
        ]
    );
    assert!(switch.report(SwitchOptions { yes: true, emit: false }).is_empty());
    assert_eq!(
        switch.side_effects(),
        SideEffects {
            write_lock: true,
            remove_lock: false,
            remove_snapshot: false,
            clear_notified: true,
        }
    );
    let lock = switch.route_lock(&state, 77).unwrap();
    assert_eq!(lock.source_account, "team-main");
    assert_eq!(lock.routed_account, "ent");
    assert_eq!(lock.created_at, 77);

    let back = run(cmd_toggle(router(), &state, true).unwrap(), &mut vault);
    back.settle(&mut state);
    assert_eq!(state.current_account.as_deref(), Some("team-main"));
    assert_eq!(state.previous_account.as_deref(), Some("ent"));
    assert_eq!(vault.item(ACTIVE, "me"), Some("fresh team token"));
    assert_eq!(vault.item(SAVED, "plan:ent"), Some("enterprise token"));
    assert_eq!(
        back.side_effects(),
        SideEffects {
            write_lock: false,
            remove_lock: true,
            remove_snapshot: true,
            clear_notified: true,
        }
    );
    assert!(back.route_lock(&state, 78).is_none());
}

#[test]
fn switching_to_the_credential_in_use_changes_little() {
    let mut state = two_accounts();
    state.previous_account = Some("before".to_string());
    let mut vault = Vault::with(&[(ACTIVE, "me", "token"), (SAVED, "plan:ent", "token")]);
    let switch = run(switch_to(router(), &state, "ent", NOISY).unwrap(), &mut vault);
    assert!(matches!(&switch.phase, Phase::Done { switched: false, .. }));
    switch.settle(&mut state);
    assert_eq!(state.current_account.as_deref(), Some("ent"));
    assert_eq!(state.previous_account.as_deref(), Some("before"));
    assert_eq!(switch.report(NOISY), vec!["already using plan: ent"]);
    assert_eq!(switch.side_effects(), reset_quota_side_effects(AccountKind::Other));
    assert!(switch.route_lock(&state, 1).is_none());
}

#[test]
fn switching_back_between_equal_credentials_restores_the_account() {
    let mut state = two_accounts();
    state.previous_account = Some("before".to_string());
    let mut vault = Vault::with(&[(ACTIVE, "me", "token"), (SAVED, "plan:ent", "token")]);
    run(switch_to(router(), &state, "ent", NOISY).unwrap(), &mut vault).settle(&mut state);
    assert_eq!(state.current_account.as_deref(), Some("ent"));
    run(switch_to(router(), &state, "team-main", NOISY).unwrap(), &mut vault).settle(&mut state);
    assert_eq!(state.current_account.as_deref(), Some("team-main"));
    assert_eq!(state.previous_account.as_deref(), Some("before"));
    assert_eq!(vault.item(ACTIVE, "me"), Some("token"));
    assert_eq!(vault.item(SAVED, "plan:team-main"), Some("token"));
    assert_eq!(vault.item(SAVED, "plan:ent"), Some("token"));
}

/// The accounts of all calls that a switch makes on the saved credentials.
fn saved_accounts(mut switch: Switch<String>, vault: &mut Vault) -> Vec<String> {
    let mut accounts = vec![];
    while let Request::Call(call) = switch.request() {
        match &call {
            SecurityCall::Read { service, account }
            | SecurityCall::Upsert { service, account, .. }
            | SecurityCall::Delete { service, account } => {
                if service == SAVED {
                    accounts.push(account.clone());
                }
            }
            SecurityCall::Detect { service } => assert_ne!(service, SAVED),
        }
        let reply = vault.reply(&call);
        switch = switch.advance(reply);
    }
    accounts
}

#[test]
fn saved_credentials_are_called_for_by_valid_names() {
    let items = [(ACTIVE, "me", "team token"), (SAVED, "plan:ent", "x")];
    let start = |state: &State| switch_to(router(), state, "ent", NOISY).unwrap();
    assert_eq!(
        saved_accounts(start(&two_accounts()), &mut Vault::with(&items)),
        vec!["plan:team-main", "plan:ent"]
    );
    let raw = state_with(
        Some("../x y"),
        &[("../x y", AccountKind::Team), ("ent", AccountKind::Enterprise)],
    );
    assert!(saved_accounts(start(&raw), &mut Vault::with(&items)).is_empty());
    assert_eq!(
        saved_accounts(start(&raw), &mut Vault::with(&[(SAVED, "plan:ent", "x")])),
        vec!["plan:ent"]
    );
}

#[test]
fn failed_switches_say_why_and_keep_the_credential() {
    let state = two_accounts();
    let fail = |vault: &mut Vault, state: &State, name: &str| {
        let switch = run(switch_to(router(), state, name, NOISY).unwrap(), vault);
        let mut after = two_accounts();
        switch.settle(&mut after);
        assert_eq!(after.current_account.as_deref(), Some("team-main"));
        assert!(switch.report(NOISY).is_empty());
        match switch.phase {
            Phase::Failed(error) => error,
            other => panic!("no failure: {other:?}"),
        }
    };

    let missing = switch_to(router(), &state, "gone", NOISY).unwrap_err();
    assert_eq!(missing.message().as_deref(), Some("plan is not saved: gone"));

    let mut vault = Vault::with(&[(ACTIVE, "me", "team token")]);
    let error = fail(&mut vault, &state, "ent");
    assert_eq!(error.message().as_deref(), Some("failed to read saved credential for ent"));
    assert_eq!(vault.item(ACTIVE, "me"), Some("team token"));

    let mut vault = Vault::with(&[(ACTIVE, "me", "team token"), (SAVED, "plan:ent", "x")]);
    vault.refused = Some(key(SAVED, "plan:team-main"));
    let error = fail(&mut vault, &state, "ent");
    assert_eq!(
        error.message().as_deref(),
        Some("failed to update current plan backup for team-main")
    );

    let mut vault = Vault::with(&[(ACTIVE, "me", "team token"), (SAVED, "plan:ent", "x")]);
    vault.refused = Some(key(ACTIVE, "me"));
    let error = fail(&mut vault, &state, "ent");
    assert_eq!(error.message().as_deref(), Some("failed to activate plan ent"));
    assert_eq!(vault.item(ACTIVE, "me"), Some("team token"));

    let mut vault = Vault::with(&[(SAVED, "plan:ent", "x")]);
    vault.logged_in = None;
    let error = fail(&mut vault, &state, "ent");
    assert!(matches!(error, SwitchError::AccountUnknown));
    assert_eq!(error.message(), None);
}

#[test]
fn router_checks_the_name_it_leaves() {
    let mut state = state_with(
        Some("Team"),
        &[("Team", AccountKind::Team), ("ent", AccountKind::Enterprise)],
    );
    state.active_account = Some("me".to_string());
    let items = [(ACTIVE, "me", "team token"), (SAVED, "plan:ent", "x")];
    let switch = run(
        switch_to(router(), &state, "ent", NOISY).unwrap(),
        &mut Vault::with(&items),
    );
    match switch.phase {
        Phase::Failed(error) => assert_eq!(
            error.message().as_deref(),
            Some("account name must use lowercase letters, digits, and '-' only")
        ),
        other => panic!("no failure: {other:?}"),
    }
    let mut vault = Vault::with(&[(ACTIVE, "me", "team token"), ("acme-plan-swap", "plan:ent", "x")]);
    let swap = keychain(Product::PlanSwap);
    let switch = run(switch_to(swap, &state, "ent", NOISY).unwrap(), &mut vault);
    assert!(matches!(switch.phase, Phase::Done { switched: true, .. }));
    assert_eq!(vault.item("acme-plan-swap", "plan:Team"), Some("team token"));
}

#[test]
fn backups_are_refreshed_for_accepted_names() {
    let refresh = |product: Product, name: &str| {
        refresh_current_backup(keychain(product), name, "me".to_string(), "token".to_string())
    };
    assert!(matches!(
        refresh(Product::QuotaRouter, "team"),
        Phase::BackingUp { account, credential } if account == "me" && credential == "token"
    ));
    assert!(matches!(
        refresh(Product::QuotaRouter, ""),
        Phase::Failed(SwitchError::BadName(NameError::Length))
    ));
    assert!(matches!(refresh(Product::PlanSwap, ""), Phase::BackingUp { .. }));
}

#[test]
fn nothing_is_saved_where_no_credential_is_in_use() {
    let state = two_accounts();
    let mut vault = Vault::with(&[(SAVED, "plan:ent", "x")]);
    let switch = run(switch_to(router(), &state, "ent", NOISY).unwrap(), &mut vault);
    assert!(matches!(switch.phase, Phase::Done { switched: true, .. }));
    assert_eq!(vault.item(SAVED, "plan:team-main"), None);
    assert_eq!(vault.item(ACTIVE, "me"), Some("x"));
}

#[test]
fn switches_are_confirmed() {
    let state = two_accounts();
    let ask = || cmd_switch(router(), &state, "ent", false).unwrap();
    assert!(matches!(ask().request(), Request::Confirm));
    assert_eq!(ask().prompt(), "switch to ent? [y/N] ");
    for yes in ["y\n", " Y ", "yes", "YES\r\n"] {
        let agreed = ask().advance(Reply::Text(yes.to_string()));
        assert!(matches!(agreed.request(), Request::Call(SecurityCall::Detect { .. })));
    }
    for (reply, message) in [
        (Reply::Text("Yes".to_string()), "cancelled"),
        (Reply::Text(String::new()), "cancelled"),
        (Reply::Failed, "failed to read confirmation"),
        (
            Reply::NotInteractive,
            "refusing to switch without confirmation in non-interactive input; pass --yes",
        ),
    ] {
        let error = confirm_switch(&reply).unwrap_err();
        assert_eq!(error.message().as_deref(), Some(message));
        let stopped = ask().advance(reply).advance(Reply::Text("y".to_string()));
        assert!(matches!(stopped.request(), Request::Nothing));
        assert!(matches!(stopped.phase, Phase::Failed(_)));
    }
    assert!(confirm_switch(&Reply::Text("y".to_string())).is_ok());
}

fn save(mut setup: Setup<String>, vault: &mut Vault, kind: AccountKind) -> (Setup<String>, bool) {
    let mut asked = false;
    loop {
        setup = match setup.request() {
            SetupRequest::Call(call) => match vault.call(&call) {
                Some(text) => setup.advance(SetupReply::Text(text)),
                None => setup.advance(SetupReply::Failed),
            },
            SetupRequest::AskKind { credential } => {
                assert_eq!(credential, "token");
                asked = true;
                setup.advance(SetupReply::Kind(kind))
            }
            SetupRequest::Nothing => return (setup, asked),
        };
    }
}

#[test]
fn logins_are_saved_under_names() {
    let mut state = State::default();
    let mut vault = Vault::with(&[(ACTIVE, "me", "token")]);
    let setup = cmd_setup(router(), &state, "team-main", None).unwrap();
    let (done, asked) = save(setup, &mut vault, AccountKind::Team);
    assert!(asked);
    done.settle(&mut state, 10);
    assert_eq!(done.report().as_deref(), Some("saved plan: team-main (team)"));
    assert_eq!(state.current_account.as_deref(), Some("team-main"));
    assert_eq!(state.active_account.as_deref(), Some("me"));
    assert_eq!(vault.item(SAVED, "plan:team-main"), Some("token"));

    let setup = cmd_setup(router(), &state, "team-main", Some(AccountKind::Other)).unwrap();
    let (done, asked) = save(setup, &mut vault, AccountKind::Team);
    assert!(!asked);
    done.settle(&mut state, 20);
    let entry = state.accounts.get("team-main").unwrap();
    assert_eq!(
        *entry,
        AccountEntry { kind: AccountKind::Other, created_at: 10, updated_at: 20 }
    );
    assert_eq!(vault.item(ACTIVE, "me"), Some("token"));
}

#[test]
fn logins_that_cannot_be_saved_say_why() {
    let state = State::default();
    assert_eq!(
        cmd_setup(router(), &state, "-x", None).unwrap_err(),
        NameError::Hyphens
    );
    let fail = |vault: &mut Vault| {
        let setup = cmd_setup(router(), &state, "a", None).unwrap();
        let (setup, _) = save(setup, vault, AccountKind::Team);
        assert_eq!(setup.report(), None);
        match setup.phase {
            SetupPhase::Failed(error) => error,
            other => panic!("no failure: {other:?}"),
        }
    };
    let mut vault = Vault::with(&[]);
    assert_eq!(
        fail(&mut vault).message(client()).as_deref(),
        Some("failed to read active Acme Code credential from Keychain")
    );
    vault.logged_in = None;
    assert!(matches!(fail(&mut vault), SetupError::AccountUnknown));
    let mut vault = Vault::with(&[(ACTIVE, "me", "token")]);
    vault.refused = Some(key(SAVED, "plan:a"));
    assert_eq!(
        fail(&mut vault).message(client()).as_deref(),
        Some("failed to save plan credential for a")
    );
}

fn detect(mut detection: Detection, vault: &mut Vault) -> Detection {
    loop {
        match detection.request() {
            Request::Call(call) => {
                let reply = vault.reply(&call);
                detection.advance(reply);
            }
            _ => return detection,
        }
    }
}

fn ask(keychain: Keychain, state: &State) -> Detection {
    match cmd_current(keychain, state) {
        Current::Ask(detection) => detection,
        Current::Known(name) => panic!("known: {name}"),
    }
}

#[test]
fn account_in_use_is_found_by_credential() {
    let mut state = state_with(
        None,
        &[("a", AccountKind::Team), ("b", AccountKind::Team), ("c", AccountKind::Other)],
    );
    let mut vault = Vault::with(&[
        (ACTIVE, "me", "token"),
        (SAVED, "plan:b", "token"),
        (SAVED, "plan:c", "token"),
    ]);
    let found = detect(ask(router(), &state), &mut vault);
    assert!(matches!(&found.phase, DetectionPhase::Found { name, .. } if name == "b"));
    found.settle(&mut state);
    assert_eq!(state.current_account.as_deref(), Some("b"));
    assert_eq!(state.active_account.as_deref(), Some("me"));
    assert!(matches!(cmd_current(router(), &state), Current::Known(name) if name == "b"));
}

#[test]
fn detection_can_end_without_a_name() {
    let state = state_with(None, &[("a", AccountKind::Team), ("b_", AccountKind::Team)]);
    let mut vault = Vault::with(&[(ACTIVE, "me", "token"), ("acme-plan-swap", "plan:b_", "token")]);
    let refused = detect(ask(router(), &state), &mut vault);
    assert!(matches!(refused.phase, DetectionPhase::BadName(NameError::Characters)));
    let found = detect(ask(keychain(Product::PlanSwap), &state), &mut vault);
    assert!(matches!(&found.phase, DetectionPhase::Found { name, .. } if name == "b_"));

    let state = state_with(None, &[("a", AccountKind::Team)]);
    let unknown = detect(ask(router(), &state), &mut vault);
    assert!(matches!(unknown.phase, DetectionPhase::Unknown));
    let mut untouched = state_with(None, &[]);
    unknown.settle(&mut untouched);
    assert_eq!(untouched.current_account, None);
    let failed = detect(ask(router(), &state), &mut Vault::with(&[]));
    assert!(matches!(failed.phase, DetectionPhase::CallFailed));
    vault.logged_in = None;
    let failed = detect(ask(router(), &state), &mut vault);
    assert!(matches!(failed.phase, DetectionPhase::CallFailed));
}
