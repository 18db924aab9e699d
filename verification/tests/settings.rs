use quota_router::program::{Client, Product, Program};
use quota_router::settings::{
    cmd_install, cmd_uninstall, is_installed, is_our_statusline_command, statusline_command,
    SettingsError,
};
use serde_json::Value;

const EXE: &str = "/Users/me/it's here/acme-quota-router";

fn router() -> Program {
    Program {
        product: Product::QuotaRouter,
        client: Client { command: "acme" },
    }
}

fn parse(text: &str) -> Value {
    serde_json::from_str(text).unwrap()
}

#[test]
fn own_commands_are_recognised() {
    let command = statusline_command(EXE);
    assert_eq!(command, "'/Users/me/it'\\''s here/acme-quota-router' statusline");
    assert!(is_our_statusline_command(router(), &command));
    assert!(!is_our_statusline_command(router(), "acme-quota-router status"));
    assert!(!is_our_statusline_command(router(), "my-statusline"));
}

#[test]
fn installing_into_no_file_and_back() {
    let done = cmd_install(router(), None, EXE).unwrap();
    assert_eq!(done.prior, None);
    assert_eq!(
        done.settings,
        "{\n  \"statusLine\": {\n    \"command\": \"'/Users/me/it'\\\\''s here/acme-quota-router' statusline\",\n    \"type\": \"command\"\n  }\n}\n"
    );
    assert_eq!(is_installed(router(), Some(&done.settings)), Ok(true));
    let again = cmd_install(router(), Some(&done.settings), EXE).unwrap();
    assert_eq!(again.prior, None);
    assert_eq!(again.settings, done.settings);
    let undone = cmd_uninstall(router(), Some(&done.settings), None).unwrap();
    assert_eq!(undone.as_deref(), Some("{}\n"));
}

#[test]
fn other_settings_are_kept() {
    let before = r#"{"model": "x", "n": [1, -2, 2.5, null, true], "statusLine": {"type": "command", "command": "my line", "padding": 0}}"#;
    let done = cmd_install(router(), Some(before), EXE).unwrap();
    assert_eq!(done.prior.as_deref(), Some("my line"));
    let installed = parse(&done.settings);
    assert_eq!(installed.get("model"), parse(before).get("model"));
    assert_eq!(installed.get("n"), parse(before).get("n"));
    assert_eq!(installed["statusLine"].get("padding"), None);
    let undone = cmd_uninstall(router(), Some(&done.settings), Some(" my line\n")).unwrap();
    let restored = parse(&undone.unwrap());
    assert_eq!(restored["statusLine"]["command"], Value::from("my line"));
    assert_eq!(restored.get("n"), parse(before).get("n"));
}

#[test]
fn uninstalling_leaves_foreign_settings_alone() {
    for file in [
        None,
        Some("{}"),
        Some("[]"),
        Some("null"),
        Some(r#"{"statusLine": {"command": "my line"}}"#),
        Some(r#"{"statusLine": {"command": 7}}"#),
        Some(r#"{"statusLine": "acme-quota-router statusline"}"#),
    ] {
        assert_eq!(cmd_uninstall(router(), file, Some("x")), Ok(None));
        assert_eq!(is_installed(router(), file), Ok(false));
    }
}

#[test]
fn settings_that_cannot_be_changed_are_refused() {
    assert_eq!(
        cmd_install(router(), Some("{"), EXE).unwrap_err(),
        SettingsError::Unreadable
    );
    assert_eq!(is_installed(router(), Some("")), Err(SettingsError::Unreadable));
    assert_eq!(
        cmd_uninstall(router(), Some("x"), None),
        Err(SettingsError::Unreadable)
    );
    for file in ["[]", "7", "true", "\"text\""] {
        assert_eq!(
            cmd_install(router(), Some(file), EXE).unwrap_err(),
            SettingsError::NoObject
        );
    }
    let from_null = cmd_install(router(), Some("null"), EXE).unwrap();
    assert_eq!(from_null.settings, cmd_install(router(), None, EXE).unwrap().settings);
}

#[test]
fn installing_and_uninstalling_restores_the_file() {
    let nested = |depth: usize| {
        format!("{{\"a\": {}{}}}", "[".repeat(depth - 1), "]".repeat(depth - 1))
    };
    for before in [
        r#"{"a": 1, "b": [-1, "x", {"c": null}], "d": 2.5, "e": 1e300}"#.to_string(),
        nested(127),
    ] {
        let done = cmd_install(router(), Some(&before), EXE).unwrap();
        let undone = cmd_uninstall(router(), Some(&done.settings), done.prior.as_deref());
        assert_eq!(parse(&undone.unwrap().unwrap()), parse(&before));
    }
    assert_eq!(
        cmd_install(router(), Some(&nested(128)), EXE).unwrap_err(),
        SettingsError::Unreadable
    );
    let before = r#"{"a": 1, "statusLine": {"command": "my line", "type": "command"}}"#;
    let done = cmd_install(router(), Some(before), EXE).unwrap();
    let undone = cmd_uninstall(router(), Some(&done.settings), done.prior.as_deref());
    assert_eq!(parse(&undone.unwrap().unwrap()), parse(before));
}
