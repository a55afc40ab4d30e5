use voice_bot::config::{Config, ConfigError};

fn text(value: &str) -> Option<String> {
    Some(value.to_string())
}

#[test]
fn resolves_a_complete_configuration() {
    let config = Config::resolve(text("abc"), text("123"), text("456")).unwrap();
    assert_eq!(config.token, "abc");
    assert_eq!(config.server_id, 123);
    assert_eq!(config.channel_id, 456);
}

#[test]
fn missing_token_is_reported_first() {
    assert_eq!(Config::resolve(None, None, None), Err(ConfigError::MissingToken));
    assert_eq!(Config::resolve(None, text("1"), text("2")), Err(ConfigError::MissingToken));
}

#[test]
fn missing_server_id_is_reported() {
    assert_eq!(Config::resolve(text("t"), None, text("2")), Err(ConfigError::MissingServerId));
    assert_eq!(Config::resolve(text("t"), None, None), Err(ConfigError::MissingServerId));
}

#[test]
fn malformed_server_id_is_reported() {
    assert_eq!(Config::resolve(text("t"), text("x1"), text("2")), Err(ConfigError::MalformedServerId));
    assert_eq!(Config::resolve(text("t"), text(""), None), Err(ConfigError::MalformedServerId));
    assert_eq!(
        Config::resolve(text("t"), text("18446744073709551616"), text("2")),
        Err(ConfigError::MalformedServerId)
    );
}

#[test]
fn missing_channel_id_is_reported() {
    assert_eq!(Config::resolve(text("t"), text("1"), None), Err(ConfigError::MissingChannelId));
}

#[test]
fn malformed_channel_id_is_reported() {
    assert_eq!(Config::resolve(text("t"), text("1"), text("-2")), Err(ConfigError::MalformedChannelId));
    assert_eq!(Config::resolve(text("t"), text("1"), text("2 ")), Err(ConfigError::MalformedChannelId));
}

#[test]
fn an_empty_token_is_still_a_token() {
    let config = Config::resolve(text(""), text("1"), text("2")).unwrap();
    assert_eq!(config.token, "");
}

#[test]
fn each_error_names_its_key() {
    assert_eq!(ConfigError::MissingToken.describe(), "DISCORD_TOKEN is not set");
    assert_eq!(ConfigError::MissingServerId.describe(), "GUILD_ID is not set");
    assert_eq!(
        ConfigError::MalformedServerId.describe(),
        "GUILD_ID is not an unsigned 64-bit integer"
    );
    assert_eq!(ConfigError::MissingChannelId.describe(), "CHANNEL_ID is not set");
    assert_eq!(
        ConfigError::MalformedChannelId.describe(),
        "CHANNEL_ID is not an unsigned 64-bit integer"
    );
}
