use quota_router::subscription::{
    detect_account_kind_from_active_credential, detect_account_kind_from_claude_status,
    detect_account_kind_from_credential, detect_plan_kind_from_active,
};
use quota_router::domain::{AccountKind, LimitWindow, RateLimitSnapshot};
use quota_router::quota::{
    earliest_reset, max_limit, parse_rate_limits, read_input, value_to_i64, value_to_u8,
    LimitReadings, Reading, StatuslineInput,
};

const INPUT: &str = r#"{
    "rate_limits": {
        "five_hour": { "used_percentage": 91, "resets_at": 1000 },
        "seven_day": { "used_percentage": "12", "resets_at": "2000" }
    }
}"#;

fn written_input() -> StatuslineInput<String> {
    StatuslineInput {
        rate_limits: Some(LimitReadings {
            five_hour_used: Some(Reading::Unsigned(91)),
            five_hour_reset: Some(Reading::Unsigned(1000)),
            seven_day_used: Some(Reading::Text("12".to_string())),
            seven_day_reset: Some(Reading::Text("2000".to_string())),
        }),
    }
}

#[test]
fn statusline_parses_rate_limits_from_statusline_json() {
    let input = read_input(INPUT).unwrap();
    let parsed = parse_rate_limits(&input, 7).unwrap();
    assert_eq!(parsed.five_hour.used_percentage, Some(91));
    assert_eq!(parsed.five_hour.resets_at, Some(1000));
    assert_eq!(parsed.seven_day.used_percentage, Some(12));
    assert_eq!(parsed.seven_day.resets_at, Some(2000));
    assert_eq!(parsed.detected_at, 7);
}

#[test]
fn main_parses_rate_limits_from_statusline_json() {
    let parsed = parse_rate_limits(&written_input(), 7).unwrap();
    assert_eq!(parsed.five_hour.used_percentage, Some(91));
    assert_eq!(parsed.five_hour.resets_at, Some(1000));
    assert_eq!(parsed.seven_day.used_percentage, Some(12));
    assert_eq!(parsed.seven_day.resets_at, Some(2000));
    assert_eq!(Some(parsed), parse_rate_limits(&read_input(INPUT).unwrap(), 7));
}

fn snapshot(
    short: (Option<u8>, Option<i64>),
    long: (Option<u8>, Option<i64>),
) -> RateLimitSnapshot {
    RateLimitSnapshot {
        detected_at: 1,
        five_hour: LimitWindow { used_percentage: short.0, resets_at: short.1 },
        seven_day: LimitWindow { used_percentage: long.0, resets_at: long.1 },
    }
}

#[test]
fn statusline_picks_max_usage_and_earliest_reset() {
    let snapshot = RateLimitSnapshot {
        detected_at: 1,
        five_hour: LimitWindow {
            used_percentage: Some(80),
            resets_at: Some(500),
        },
        seven_day: LimitWindow {
            used_percentage: Some(95),
            resets_at: Some(1000),
        },
    };
    assert_eq!(max_limit(&snapshot), Some(("7d", 95)));
    assert_eq!(earliest_reset(&snapshot), Some(("5h", 500)));
}

#[test]
fn main_picks_max_usage_and_earliest_reset() {
    let snapshot = snapshot((Some(80), Some(500)), (Some(95), Some(1000)));
    assert_eq!(max_limit(&snapshot), Some(("7d", 95)));
    assert_eq!(earliest_reset(&snapshot), Some(("5h", 500)));
}

#[test]
fn the_shorter_window_wins_ties() {
    let tie = snapshot((Some(50), Some(9)), (Some(50), Some(9)));
    assert_eq!(max_limit(&tie), Some(("5h", 50)));
    assert_eq!(earliest_reset(&tie), Some(("5h", 9)));
    let long_only = snapshot((None, None), (Some(3), Some(-4)));
    assert_eq!(max_limit(&long_only), Some(("7d", 3)));
    assert_eq!(earliest_reset(&long_only), Some(("7d", -4)));
    let short_only = snapshot((Some(0), Some(8)), (None, None));
    assert_eq!(max_limit(&short_only), Some(("5h", 0)));
    assert_eq!(earliest_reset(&short_only), Some(("5h", 8)));
    let none = snapshot((None, None), (None, None));
    assert_eq!(max_limit(&none), None);
    assert_eq!(earliest_reset(&none), None);
    let sooner = snapshot((Some(1), Some(10)), (Some(2), Some(9)));
    assert_eq!(earliest_reset(&sooner), Some(("7d", 9)));
}

fn share(text: &str) -> Option<u8> {
    value_to_u8(Some(&Reading::Text(text.to_string())))
}

fn time(text: &str) -> Option<i64> {
    value_to_i64(Some(&Reading::Text(text.to_string())))
}

#[test]
fn shares_are_small_numbers() {
    assert_eq!(value_to_u8(None), None);
    assert_eq!(value_to_u8(Some(&Reading::Other)), None);
    assert_eq!(value_to_u8(Some(&Reading::Negative(-1))), None);
    assert_eq!(value_to_u8(Some(&Reading::Unsigned(255))), Some(255));
    assert_eq!(value_to_u8(Some(&Reading::Unsigned(256))), None);
    for text in ["0", "12", "+7", "255", "256", "000255", "-0", "", "+", "1 ", "1.0", "0x1"] {
        assert_eq!(share(text), text.parse::<u8>().ok(), "{text:?}");
    }
    assert_eq!(share("99999999999999999999999999999999999999999999"), None);
}

#[test]
fn times_are_signed_numbers() {
    assert_eq!(value_to_i64(None), None);
    assert_eq!(value_to_i64(Some(&Reading::Other)), None);
    assert_eq!(value_to_i64(Some(&Reading::Negative(-5))), Some(-5));
    assert_eq!(
        value_to_i64(Some(&Reading::Unsigned(i64::MAX as u64))),
        Some(i64::MAX)
    );
    assert_eq!(value_to_i64(Some(&Reading::Unsigned(i64::MAX as u64 + 1))), None);
    for text in [
        "0",
        "-0",
        "-1",
        "+1",
        "9223372036854775807",
        "9223372036854775808",
        "-9223372036854775808",
        "-9223372036854775809",
        "18446744073709551616",
        "-",
        "",
        "--1",
        " 1",
        "1e3",
    ] {
        assert_eq!(time(text), text.parse::<i64>().ok(), "{text:?}");
    }
}

#[test]
fn inputs_are_read_from_json() {
    assert!(read_input("").is_none());
    assert!(read_input("{").is_none());
    assert!(read_input("{}").unwrap().rate_limits.is_none());
    assert!(read_input("[1]").unwrap().rate_limits.is_none());
    // Null is there, though it holds no readings.
    let null = read_input(r#"{"rate_limits": null}"#).unwrap();
    let parsed = parse_rate_limits(&null, 3).unwrap();
    assert_eq!(
        parsed,
        RateLimitSnapshot {
            detected_at: 3,
            five_hour: LimitWindow::default(),
            seven_day: LimitWindow::default(),
        }
    );
    let mixed = read_input(
        r#"{"rate_limits": {
            "five_hour": {"used_percentage": 12.0, "resets_at": -5},
            "seven_day": [1]
        }}"#,
    )
    .unwrap();
    let parsed = parse_rate_limits(&mixed, 3).unwrap();
    assert_eq!(parsed.five_hour.used_percentage, None);
    assert_eq!(parsed.five_hour.resets_at, Some(-5));
    assert_eq!(parsed.seven_day, LimitWindow::default());
}

#[test]
fn kinds_are_told_by_status_then_credential() {
    let status = br#"{"subscriptionType": "Team"}"#.to_vec();
    let credential = r#"{"claudeAiOauth": {"subscriptionType": "enterprise"}}"#;
    assert_eq!(
        detect_account_kind_from_claude_status(Some(&status)),
        Some(AccountKind::Team)
    );
    assert_eq!(
        detect_account_kind_from_credential(credential),
        Some(AccountKind::Enterprise)
    );
    assert_eq!(
        detect_account_kind_from_active_credential(Some(&status), credential),
        AccountKind::Team
    );
    assert_eq!(
        detect_account_kind_from_active_credential(None, credential),
        AccountKind::Enterprise
    );
    assert_eq!(detect_plan_kind_from_active(Some(&status), credential), AccountKind::Team);
    let blank = b"not json".to_vec();
    assert_eq!(detect_account_kind_from_claude_status(Some(&blank)), None);
    let number = br#"{"subscriptionType": 1}"#.to_vec();
    assert_eq!(detect_account_kind_from_claude_status(Some(&number)), None);
    assert_eq!(detect_account_kind_from_claude_status(None), None);
    assert_eq!(detect_account_kind_from_credential("secret"), None);
    assert_eq!(
        detect_account_kind_from_credential(r#"{"claudeAiOauth": [1]}"#),
        None
    );
    assert_eq!(
        detect_account_kind_from_active_credential(Some(&blank), "secret"),
        AccountKind::Other
    );
}
