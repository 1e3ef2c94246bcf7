use playlist_mirror::config::{Config, ConfigError};

#[test]
fn get_takes_all_four_settings() {
    let config = Config::get(
        "./music".to_string(),
        7,
        Some("http://localhost:9763".to_string()),
        Some("SECRET-REDACTED".to_string()),
        true,
    );
    assert_eq!(
        config,
        Ok(Config {
            dir: "./music".to_string(),
            play_id: 7,
            lx_api_url: "http://localhost:9763".to_string(),
            lx_api_key: "SECRET-REDACTED".to_string(),
            relaxed_tls: true,
        })
    );
}

#[test]
fn get_misses_the_address_first() {
    assert_eq!(
        Config::get("d".to_string(), 1, None, None, false),
        Err(ConfigError::MissingApiUrl)
    );
    assert_eq!(
        Config::get("d".to_string(), 1, None, Some("k".to_string()), false),
        Err(ConfigError::MissingApiUrl)
    );
}

#[test]
fn get_misses_the_key() {
    assert_eq!(
        Config::get("d".to_string(), 1, Some("u".to_string()), None, true),
        Err(ConfigError::MissingApiKey)
    );
}

#[test]
fn config_error_names_its_variable() {
    assert_eq!(ConfigError::MissingApiUrl.variable(), "LX_API_URL");
    assert_eq!(ConfigError::MissingApiKey.variable(), "LX_API_KEY");
}

#[test]
fn get_keeps_certificates_checked_unless_told() {
    let config =
        Config::get("d".to_string(), 1, Some("u".to_string()), Some("k".to_string()), false);
    assert_eq!(config.map(|c| c.relaxed_tls), Ok(false));
}
