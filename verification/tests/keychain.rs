use quota_router::keychain::{
    parse_keychain_account, plan_account, plan_key, Keychain, KeychainError, SecurityCall,
    ToolOutput,
};
use quota_router::program::{Client, Product, Program};

fn program(product: Product) -> Program {
    Program { product, client: Client { command: "acme" } }
}

fn router() -> Keychain {
    Keychain { program: program(Product::QuotaRouter) }
}

fn output(success: bool, stdout: &str, stderr: &str) -> ToolOutput {
    ToolOutput { success, stdout: stdout.to_string(), stderr: stderr.to_string() }
}

#[test]
fn keychain_parses_keychain_account() {
    let text = r#"
keychain: "/Users/me/Library/Keychains/login.keychain-db"
class: "genp"
attributes:
    "acct"<blob>="me@example.com"
    "svce"<blob>="Acme Code-credentials"
"#;
    assert_eq!(
        parse_keychain_account(text).as_deref(),
        Some("me@example.com")
    );
}

#[test]
fn main_parses_keychain_account() {
    let text = r#"
keychain: "/Users/me/Library/Keychains/login.keychain-db"
class: "genp"
attributes:
    "acct"<blob>="me@example.com"
    "svce"<blob>="Acme Code-credentials"
"#;
    assert_eq!(
        parse_keychain_account(text).as_deref(),
        Some("me@example.com")
    );
}

#[test]
fn first_account_line_decides() {
    assert_eq!(parse_keychain_account(""), None);
    assert_eq!(parse_keychain_account("class: \"genp\"\n"), None);
    // The first line that speaks of an account names none.
    assert_eq!(
        parse_keychain_account("\"acct\"<NULL>\n\"acct\"<blob>=\"me\"\n"),
        None
    );
    assert_eq!(
        parse_keychain_account("\"acct\"<blob>=\"me\"\r\nx").as_deref(),
        Some("me")
    );
    // Without a line feed the carriage return belongs to the line.
    assert_eq!(
        parse_keychain_account("\"acct\"<blob>=\"me\"\r").as_deref(),
        Some("me\"\r")
    );
    assert_eq!(
        parse_keychain_account("\"acct\"<blob>=\"a=\"b\"\"\"\n").as_deref(),
        Some("a=\"b")
    );
}

#[test]
fn calls_have_the_arguments_of_the_tool() {
    assert_eq!(
        router().read_active("me").args(),
        vec!["find-generic-password", "-s", "Acme Code-credentials", "-a", "me", "-w"]
    );
    assert_eq!(
        router().upsert_active("me", "secret").args(),
        vec![
            "add-generic-password",
            "-U",
            "-s",
            "Acme Code-credentials",
            "-a",
            "me",
            "-w",
            "secret"
        ]
    );
    assert_eq!(
        router().read_plan("team-main").args(),
        vec!["find-generic-password", "-s", "acme-quota-router", "-a", "plan:team-main", "-w"]
    );
    let swap = Keychain { program: program(Product::PlanSwap) };
    assert_eq!(
        swap.upsert_plan("team", "secret").args(),
        vec![
            "add-generic-password",
            "-U",
            "-s",
            "acme-plan-swap",
            "-a",
            "plan:team",
            "-w",
            "secret"
        ]
    );
    assert_eq!(
        swap.delete_plan("team").args(),
        vec!["delete-generic-password", "-s", "acme-plan-swap", "-a", "plan:team"]
    );
    assert_eq!(
        router().detect_active_account().args(),
        vec!["find-generic-password", "-s", "Acme Code-credentials"]
    );
    assert_eq!(plan_account("a"), "plan:a");
    assert_eq!(plan_key("b"), "plan:b");
}

#[test]
fn answers_are_read_by_call() {
    let read = router().read_active("me");
    assert_eq!(read.result(Some(&output(true, "secret\n\n", ""))).unwrap(), "secret");
    assert_eq!(read.result(Some(&output(true, " secret \n", ""))).unwrap(), " secret ");
    assert_eq!(
        read.result(Some(&output(false, "", ""))).unwrap_err().message(program(Product::QuotaRouter)),
        "security find-generic-password failed for service Acme Code-credentials account me"
    );
    assert_eq!(
        read.result(None).unwrap_err().message(program(Product::QuotaRouter)),
        "failed to run security for service Acme Code-credentials"
    );

    let upsert = router().upsert_plan("a", "secret");
    assert_eq!(upsert.result(Some(&output(true, "ignored", ""))).unwrap(), "");
    assert_eq!(
        upsert
            .result(Some(&output(false, "", " denied \n")))
            .unwrap_err()
            .message(program(Product::QuotaRouter)),
        "security add-generic-password failed for service acme-quota-router account plan:a: denied"
    );
    assert!(matches!(upsert.result(None), Err(KeychainError::NotRun { .. })));

    let delete = router().delete_plan("a");
    assert_eq!(delete.result(Some(&output(true, "", ""))).unwrap(), "");
    assert_eq!(
        delete.result(Some(&output(false, "", ""))).unwrap_err().message(program(Product::PlanSwap)),
        "security delete-generic-password failed"
    );
    assert!(matches!(delete.result(None), Err(KeychainError::NotRun { .. })));
}

#[test]
fn detection_reads_the_description() {
    let detect: SecurityCall<String> = router().detect_active_account();
    assert_eq!(
        detect.result(Some(&output(true, "    \"acct\"<blob>=\"me\"\n", ""))).unwrap(),
        "me"
    );
    assert_eq!(
        detect.result(None).unwrap_err().message(program(Product::QuotaRouter)),
        "failed to run security to detect active Acme Code account"
    );
    assert_eq!(
        detect.result(Some(&output(false, "", ""))).unwrap_err().message(program(Product::QuotaRouter)),
        "Acme Code credential not found in Keychain; log in with acme first"
    );
    let unknown = detect.result(Some(&output(true, "", ""))).unwrap_err();
    assert_eq!(
        unknown.message(program(Product::QuotaRouter)),
        "failed to parse active Keychain account"
    );
    assert_eq!(
        unknown.message(program(Product::PlanSwap)),
        "failed to parse active Keychain account for Acme Code"
    );
}
