use bybit_notifier::config::{Config, DEFAULT_CHECK_INTERVAL};
use bybit_notifier::error::ServiceError;

fn config(interval: &str) -> Config {
    Config::new(
        "key".to_string(),
        "secret".to_string(),
        "UNIFIED".to_string(),
        "token".to_string(),
        "group".to_string(),
        interval,
    )
}

#[test]
fn config_keeps_its_values() {
    let config = config("900");
    assert_eq!(config.bybit_api_key, "key");
    assert_eq!(config.bybit_api_secret, "secret");
    assert_eq!(config.account_type, "UNIFIED");
    assert_eq!(config.telegram_bot_token, "token");
    assert_eq!(config.telegram_group_id, "group");
    assert_eq!(config.check_interval, 900);
}

#[test]
fn config_falls_back_to_one_hour() {
    assert_eq!(DEFAULT_CHECK_INTERVAL, 3600);
    assert_eq!(config("").check_interval, 3600);
    assert_eq!(config("soon").check_interval, 3600);
    assert_eq!(config("-1").check_interval, 3600);
    assert_eq!(config("1.5").check_interval, 3600);
    assert_eq!(config(" 60").check_interval, 3600);
    assert_eq!(config("18446744073709551616").check_interval, 3600);
}

#[test]
fn config_reads_any_u64() {
    assert_eq!(config("0").check_interval, 0);
    assert_eq!(config("+30").check_interval, 30);
    assert_eq!(config("18446744073709551615").check_interval, u64::MAX);
}

#[test]
fn error_lines_name_the_kind() {
    assert_eq!(
        ServiceError::RequestError("timed out".to_string()).message(),
        "Request error: timed out"
    );
    assert_eq!(
        ServiceError::ParseError("'list' is empty".to_string()).message(),
        "Parse error: 'list' is empty"
    );
    assert_eq!(ServiceError::ApiError("no".to_string()).message(), "API error: no");
    assert_eq!(ServiceError::ApiError(String::new()).message(), "API error: ");
}
