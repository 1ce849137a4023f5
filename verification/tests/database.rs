use split_costs_rust_backend::database::{parse_usize, pool_settings, ConfigError};

#[test]
fn parses_plain_numbers() {
    assert_eq!(parse_usize("10"), Some(10));
    assert_eq!(parse_usize("0"), Some(0));
    assert_eq!(parse_usize("007"), Some(7));
    assert_eq!(parse_usize("+5"), Some(5));
}

#[test]
fn refuses_what_is_not_an_unsigned_number() {
    assert_eq!(parse_usize(""), None);
    assert_eq!(parse_usize("+"), None);
    assert_eq!(parse_usize("-500"), None);
    assert_eq!(parse_usize("not-number"), None);
    assert_eq!(parse_usize("12a"), None);
    assert_eq!(parse_usize(" 12"), None);
    assert_eq!(parse_usize("1٣"), None);
}

#[test]
fn agrees_with_std_parse() {
    for text in ["1", "+0", "99", "-1", "", "++1", "4294967295", "18446744073709551615", "18446744073709551616", "x"] {
        assert_eq!(parse_usize(text), text.parse::<usize>().ok(), "{}", text);
    }
}

#[test]
fn refuses_overflow() {
    let max = usize::MAX.to_string();
    assert_eq!(parse_usize(&max), Some(usize::MAX));
    let over = format!("{}0", max);
    assert_eq!(parse_usize(&over), None);
}

#[test]
fn settings_with_both_variables() {
    let settings = pool_settings(Some("postgres://localhost/db".to_string()), Some("15".to_string())).unwrap();
    assert_eq!(settings.database_url, "postgres://localhost/db");
    assert_eq!(settings.max_size, 15);
}

#[test]
fn cant_create_pool_without_db_url_env() {
    assert_eq!(pool_settings(None, Some("15".to_string())).err(), Some(ConfigError::MissingDatabaseUrl));
    assert_eq!(pool_settings(None, None).err(), Some(ConfigError::MissingDatabaseUrl));
}

#[test]
fn cant_create_pool_without_pool_size_env() {
    assert_eq!(pool_settings(Some("postgres://x".to_string()), None).err(), Some(ConfigError::MissingPoolSize));
}

#[test]
fn cant_create_pool_with_pool_size_env_string() {
    assert_eq!(
        pool_settings(Some("postgres://x".to_string()), Some("not-number".to_string())).err(),
        Some(ConfigError::InvalidPoolSize)
    );
}

#[test]
fn cant_create_pool_with_pool_size_env_signed_int() {
    assert_eq!(
        pool_settings(Some("postgres://x".to_string()), Some("-500".to_string())).err(),
        Some(ConfigError::InvalidPoolSize)
    );
}
