use quota_router::context::{AppContext, HomeUnset};
use quota_router::names::NameSet;
use quota_router::notification::notify_once;
use quota_router::program::{Client, Product, Program};
use quota_router::text::{contains_text, lowered, replaced, show_i64, show_u64, trimmed};
use quota_router::util::{display_pct, display_ts, escape_applescript, shell_quote};

fn program(product: Product) -> Program {
    Program { product, client: Client { command: "acme" } }
}

#[test]
fn util_quotes_shell_paths() {
    assert_eq!(
        shell_quote("/tmp/a b/plan's/bin"),
        "'/tmp/a b/plan'\\''s/bin'"
    );
}

#[test]
fn main_quotes_shell_paths() {
    assert_eq!(
        shell_quote("/tmp/a b/plan's/bin"),
        "'/tmp/a b/plan'\\''s/bin'"
    );
}

#[test]
fn quoting_covers_edges() {
    assert_eq!(shell_quote(""), "''");
    assert_eq!(shell_quote("'"), "''\\'''");
    assert_eq!(escape_applescript("say \"hi\" \\ bye"), "say \\\"hi\\\" \\\\ bye");
    assert_eq!(escape_applescript("\\\""), "\\\\\\\"");
}

#[test]
fn missing_values_are_dashes() {
    assert_eq!(display_pct(Some(0)), "0%");
    assert_eq!(display_pct(Some(255)), "255%");
    assert_eq!(display_pct(None), "-");
    assert_eq!(display_ts(Some(-12)), "-12");
    assert_eq!(display_ts(Some(i64::MIN)), "-9223372036854775808");
    assert_eq!(display_ts(None), "-");
}

#[test]
fn text_helpers_agree_with_std() {
    for n in [0, 9, 10, 99, 100, 12345, u64::MAX] {
        assert_eq!(show_u64(n), n.to_string());
    }
    for n in [0, -1, 10, i64::MAX, i64::MIN] {
        assert_eq!(show_i64(n), n.to_string());
    }
    for code in 0..0x11_0000u32 {
        if let Some(c) = char::from_u32(code) {
            if c.is_whitespace() {
                assert_eq!(trimmed(&format!("{c}x y{c}{c}")), "x y");
            }
        }
    }
    for text in ["\u{200b}x", "x\u{feff}", "\u{180e}", " \t\u{85}a", ""] {
        assert_eq!(trimmed(text), text.trim());
    }
    assert_eq!(lowered("TeAm-\u{c9}Z["), "team-\u{c9}z[");
    assert_eq!(replaced("a.b..", '.', "--"), "a--b----");
    assert!(contains_text("abcabd", "abd"));
    assert!(contains_text("abc", ""));
    assert!(contains_text("", ""));
    assert!(!contains_text("ab", "abc"));
    assert!(!contains_text("acb", "ab"));
}

#[test]
fn events_are_notified_of_once() {
    let mut notified = NameSet::new();
    let script = notify_once(&mut notified, "reset:a", "title", "say \"hi\"");
    assert_eq!(
        script.as_deref(),
        Some("display notification \"say \\\"hi\\\"\" with title \"title\"")
    );
    assert_eq!(notify_once(&mut notified, "reset:a", "title", "again"), None);
    assert!(notify_once(&mut notified, "reset:b", "title", "other").is_some());
    assert_eq!(notify_once(&mut notified, "reset:a", "title", "again"), None);
    assert!(notified.contains("reset:a"));
    assert_eq!(notified.len(), 2);
}

#[test]
fn files_lie_below_the_home_directory() {
    let home = Some("/Users/me".to_string());
    let router = AppContext::new(program(Product::QuotaRouter), None, None, home.clone()).unwrap();
    assert_eq!(router.state_path(), "/Users/me/.config/acme-quota-router/state.json");
    assert_eq!(
        router.rate_limits_path(),
        "/Users/me/.config/acme-quota-router/rate-limits.json"
    );
    assert_eq!(router.settings_path(), "/Users/me/.acme/settings.json");
    let swap = AppContext::new(program(Product::PlanSwap), None, None, home).unwrap();
    assert_eq!(swap.config_path(), "/Users/me/.config/acme-plan-swap/config.json");
    assert_eq!(
        swap.notified_path(),
        "/Users/me/.config/acme-plan-swap/notified.json"
    );
}

#[test]
fn set_directories_take_precedence() {
    let context = AppContext::new(
        program(Product::PlanSwap),
        Some("/tmp/app/".to_string()),
        Some(String::new()),
        None,
    )
    .unwrap();
    assert_eq!(context.swap_lock_path(), "/tmp/app/swapped.lock");
    assert_eq!(context.inner_statusline_path(), "/tmp/app/inner-statusline.txt");
    assert_eq!(context.settings_path(), "settings.json");
    let missing = AppContext::new(program(Product::PlanSwap), Some("/tmp/app".to_string()), None, None);
    assert_eq!(missing.unwrap_err(), HomeUnset);
    assert_eq!(HomeUnset.message(), "HOME is not set");
}
