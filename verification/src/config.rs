//! The configuration that the bot needs before it starts: its credential, the
//! server it works in, and the voice channel it plays into. All three are
//! resolved once, from the texts found under their keys.

use crate::text::{parse_u64, parsed_u64};
use vstd::prelude::*;
use vstd::string::*;

verus! {

/// The resolved configuration.
#[derive(Debug, PartialEq, Eq)]
pub struct Config {
    /// The credential that the bot presents to the gateway.
    pub token: String,
    /// The server in which commands and voice operate.
    pub server_id: u64,
    /// The voice channel that the bot joins.
    pub channel_id: u64,
}

/// Why the configuration could not be resolved.
#[derive(Clone, Copy, Debug, PartialEq, Eq, Structural)]
pub enum ConfigError {
    /// No credential was given.
    MissingToken,
    /// No server identifier was given.
    MissingServerId,
    /// The server identifier is not a 64-bit unsigned integer in decimal.
    MalformedServerId,
    /// No channel identifier was given.
    MissingChannelId,
    /// The channel identifier is not a 64-bit unsigned integer in decimal.
    MalformedChannelId,
}

/// The configuration as a mathematical value.
pub ghost struct ConfigView {
    pub token: Seq<char>,
    pub server_id: u64,
    pub channel_id: u64,
}

impl View for Config {
    type V = ConfigView;

    open spec fn view(&self) -> ConfigView {
        ConfigView { token: self.token@, server_id: self.server_id, channel_id: self.channel_id }
    }
}

/// What the three texts resolve to. They are looked at in the order
/// credential, server, channel, and the first that is missing or malformed
/// decides the error.
pub open spec fn resolved(
    token: Option<Seq<char>>,
    server_id: Option<Seq<char>>,
    channel_id: Option<Seq<char>>,
) -> Result<ConfigView, ConfigError> {
    if token is None {
        Err(ConfigError::MissingToken)
    } else if server_id is None {
        Err(ConfigError::MissingServerId)
    } else if parsed_u64(server_id.unwrap()) is None {
        Err(ConfigError::MalformedServerId)
    } else if channel_id is None {
        Err(ConfigError::MissingChannelId)
    } else if parsed_u64(channel_id.unwrap()) is None {
        Err(ConfigError::MalformedChannelId)
    } else {
        Ok(
            ConfigView {
                token: token.unwrap(),
                server_id: parsed_u64(server_id.unwrap()).unwrap(),
                channel_id: parsed_u64(channel_id.unwrap()).unwrap(),
            },
        )
    }
}

/// The text of an optional string.
pub open spec fn optional_text(value: Option<String>) -> Option<Seq<char>> {
    match value {
        Some(text) => Some(text@),
        None => None,
    }
}

/// What is said of an error when the program gives up on it.
pub open spec fn diagnostic(error: ConfigError) -> Seq<char> {
    match error {
        ConfigError::MissingToken => "DISCORD_TOKEN is not set"@,
        ConfigError::MissingServerId => "GUILD_ID is not set"@,
        ConfigError::MalformedServerId => "GUILD_ID is not an unsigned 64-bit integer"@,
        ConfigError::MissingChannelId => "CHANNEL_ID is not set"@,
        ConfigError::MalformedChannelId => "CHANNEL_ID is not an unsigned 64-bit integer"@,
    }
}

impl ConfigError {
    /// A line that names the key at fault and says what is wrong with it.
    pub fn describe(&self) -> (line: String)
        ensures
            line@ == diagnostic(*self),
    {
        match self {
            ConfigError::MissingToken => String::from_str("DISCORD_TOKEN is not set"),
            ConfigError::MissingServerId => String::from_str("GUILD_ID is not set"),
            ConfigError::MalformedServerId => String::from_str(
                "GUILD_ID is not an unsigned 64-bit integer",
            ),
            ConfigError::MissingChannelId => String::from_str("CHANNEL_ID is not set"),
            ConfigError::MalformedChannelId => String::from_str(
                "CHANNEL_ID is not an unsigned 64-bit integer",
            ),
        }
    }
}

impl Config {
    /// Resolves the configuration from the texts found under the three keys;
    /// `None` stands for a key that is not set.
    pub fn resolve(
        token: Option<String>,
        server_id: Option<String>,
        channel_id: Option<String>,
    ) -> (result: Result<Config, ConfigError>)
        ensures
            match resolved(
                optional_text(token),
                optional_text(server_id),
                optional_text(channel_id),
            ) {
                Ok(config) => result matches Ok(found) && found@ == config,
                Err(error) => result == Err::<Config, ConfigError>(error),
            },
    {
        let token = match token {
            Some(text) => text,
            None => {
                return Err(ConfigError::MissingToken);
            },
        };
        let server_text = match server_id {
            Some(text) => text,
            None => {
                return Err(ConfigError::MissingServerId);
            },
        };
        let server_id = match parse_u64(server_text.as_str()) {
            Some(value) => value,
            None => {
                return Err(ConfigError::MalformedServerId);
            },
        };
        let channel_text = match channel_id {
            Some(text) => text,
            None => {
                return Err(ConfigError::MissingChannelId);
            },
        };
        let channel_id = match parse_u64(channel_text.as_str()) {
            Some(value) => value,
            None => {
                return Err(ConfigError::MalformedChannelId);
            },
        };
        Ok(Config { token, server_id, channel_id })
    }
}

} // verus!
