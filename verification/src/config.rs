//! The bot's configuration, read from the process environment.
//!
//! The environment is read at the edge of the program; what was found there is
//! handed to `Config::from_env` as an `Environment`, which decides whether it
//! makes a valid configuration.

use vstd::prelude::*;
use vstd::utf8::encode_utf8;
use crate::numbers::{parse_i64, parse_u16, i64_from_text, u16_from_text};
use crate::text::{is_blank, blank};

verus! {

/// The values the configuration is read from, one per variable; `None` where
/// the variable is unset or not valid Unicode.
#[derive(Clone, Debug)]
pub struct Environment {
    /// `TELEGRAM_TOKEN`
    pub telegram_token: Option<String>,
    /// `DATABASE_URL`
    pub database_url: Option<String>,
    /// `ADMIN_API_TOKEN`
    pub admin_api_token: Option<String>,
    /// `ADMIN_CHAT_ID`
    pub admin_chat_id: Option<String>,
    /// `HOST`
    pub host: Option<String>,
    /// `PORT`
    pub port: Option<String>,
}

/// The bot's configuration.
#[derive(Clone, Debug)]
pub struct Config {
    pub telegram_token: String,
    pub database_url: String,
    pub admin_chat_id: i64,
    pub admin_api_token: String,
    pub host: String,
    pub port: u16,
}

/// Why an environment does not make a configuration.
#[derive(Clone, Copy, Debug, PartialEq, Eq, Structural)]
pub enum ConfigError {
    /// The variable is not set.
    Missing(VarName),
    /// The variable is set to whitespace only.
    Empty(VarName),
    /// `ADMIN_API_TOKEN` is shorter than 32 bytes.
    AdminTokenTooShort,
    /// `ADMIN_CHAT_ID` is not an integer.
    InvalidAdminChatId,
    /// `PORT` is not a number from 0 to 65535.
    InvalidPort,
}

/// The variables that must be set.
#[derive(Clone, Copy, Debug, PartialEq, Eq, Structural)]
pub enum VarName {
    TelegramToken,
    DatabaseUrl,
    AdminApiToken,
    AdminChatId,
}

/// The least number of bytes an admin API token has.
pub const MIN_ADMIN_TOKEN_BYTES: usize = 32;

/// The host the admin API listens on when `HOST` is unset.
pub open spec fn default_host() -> Seq<char> {
    "127.0.0.1"@
}

/// The port the admin API listens on when `PORT` is unset.
pub open spec fn default_port_text() -> Seq<char> {
    "8080"@
}

/// What `required` makes of a variable's value.
pub open spec fn required_outcome(name: VarName, value: Option<String>) -> Result<Seq<char>, ConfigError> {
    match value {
        None => Err(ConfigError::Missing(name)),
        Some(v) => if blank(v@) { Err(ConfigError::Empty(name)) } else { Ok(v@) },
    }
}

/// A required variable: present and not blank. The value is kept as it was
/// found, surrounding whitespace included.
pub fn required(name: VarName, value: Option<String>) -> (r: Result<String, ConfigError>)
    ensures
        match (r, required_outcome(name, value)) {
            (Ok(v), Ok(w)) => v@ == w,
            (Err(e), Err(f)) => e == f,
            _ => false,
        },
{
    match value {
        None => Err(ConfigError::Missing(name)),
        Some(v) => {
            if is_blank(v.as_str()) {
                Err(ConfigError::Empty(name))
            } else {
                Ok(v)
            }
        },
    }
}

/// An optional variable: its value when present, else the default.
pub fn optional(value: Option<String>, default: &str) -> (r: String)
    ensures
        r@ == match value {
            Some(v) => v@,
            None => default@,
        },
{
    match value {
        Some(v) => v,
        None => default.to_owned(),
    }
}

/// The configuration an environment makes, or the first reason it makes none.
/// Variables are checked in this order: `TELEGRAM_TOKEN`, `DATABASE_URL`,
/// `ADMIN_API_TOKEN` (then its length), `ADMIN_CHAT_ID` (then its value),
/// `PORT`.
pub open spec fn config_outcome(env: Environment) -> Result<(Seq<char>, Seq<char>, i64, Seq<char>, Seq<char>, u16), ConfigError> {
    let host = match env.host { Some(h) => h@, None => default_host() };
    let port_text = match env.port { Some(p) => p@, None => default_port_text() };
    match required_outcome(VarName::TelegramToken, env.telegram_token) {
        Err(e) => Err(e),
        Ok(telegram_token) => match required_outcome(VarName::DatabaseUrl, env.database_url) {
            Err(e) => Err(e),
            Ok(database_url) => match required_outcome(VarName::AdminApiToken, env.admin_api_token) {
                Err(e) => Err(e),
                Ok(admin_api_token) => if encode_utf8(admin_api_token).len() < MIN_ADMIN_TOKEN_BYTES {
                    Err(ConfigError::AdminTokenTooShort)
                } else {
                    match required_outcome(VarName::AdminChatId, env.admin_chat_id) {
                        Err(e) => Err(e),
                        Ok(chat_text) => match i64_from_text(chat_text) {
                            None => Err(ConfigError::InvalidAdminChatId),
                            Some(admin_chat_id) => match u16_from_text(port_text) {
                                None => Err(ConfigError::InvalidPort),
                                Some(port) => Ok((telegram_token, database_url, admin_chat_id, admin_api_token, host, port)),
                            },
                        },
                    }
                },
            },
        },
    }
}

impl Config {
    /// The configuration's fields as plain values.
    pub open spec fn fields(&self) -> (Seq<char>, Seq<char>, i64, Seq<char>, Seq<char>, u16) {
        (self.telegram_token@, self.database_url@, self.admin_chat_id, self.admin_api_token@, self.host@, self.port)
    }

    /// Reads the configuration from the values found in the environment.
    pub fn from_env(env: Environment) -> (r: Result<Config, ConfigError>)
        ensures
            match (r, config_outcome(env)) {
                (Ok(c), Ok(f)) => c.fields() == f,
                (Err(e), Err(f)) => e == f,
                _ => false,
            },
    {
        let ghost env0 = env;
        let Environment { telegram_token, database_url, admin_api_token, admin_chat_id, host, port } = env;
        let telegram_token = match required(VarName::TelegramToken, telegram_token) {
            Ok(v) => v,
            Err(e) => return Err(e),
        };
        let database_url = match required(VarName::DatabaseUrl, database_url) {
            Ok(v) => v,
            Err(e) => return Err(e),
        };
        let admin_api_token = match required(VarName::AdminApiToken, admin_api_token) {
            Ok(v) => v,
            Err(e) => return Err(e),
        };
        if admin_api_token.as_str().as_bytes().len() < MIN_ADMIN_TOKEN_BYTES {
            return Err(ConfigError::AdminTokenTooShort);
        }
        let chat_text = match required(VarName::AdminChatId, admin_chat_id) {
            Ok(v) => v,
            Err(e) => return Err(e),
        };
        let admin_chat_id = match parse_i64(chat_text.as_str()) {
            Some(v) => v,
            None => return Err(ConfigError::InvalidAdminChatId),
        };
        let host = optional(host, "127.0.0.1");
        let port_text = optional(port, "8080");
        let port = match parse_u16(port_text.as_str()) {
            Some(p) => p,
            None => return Err(ConfigError::InvalidPort),
        };
        Ok(Config { telegram_token, database_url, admin_chat_id, admin_api_token, host, port })
    }
}

impl ConfigError {
    /// The message shown when the bot refuses to start.
    pub fn message(&self) -> (r: String)
        ensures
            r@ == config_error_message(*self),
    {
        match self {
            ConfigError::Missing(name) => {
                let mut m = "Переменная окружения ".to_owned();
                m.append(var_name_str(*name));
                m.append(" не задана");
                m
            },
            ConfigError::Empty(name) => {
                let mut m = "Переменная окружения ".to_owned();
                m.append(var_name_str(*name));
                m.append(" пустая");
                m
            },
            ConfigError::AdminTokenTooShort => "ADMIN_API_TOKEN должен содержать минимум 32 символа".to_owned(),
            ConfigError::InvalidAdminChatId => "ADMIN_CHAT_ID должен быть целым числом".to_owned(),
            ConfigError::InvalidPort => "PORT должен быть числом от 0 до 65535".to_owned(),
        }
    }
}

/// The name of an environment variable.
pub open spec fn var_name(v: VarName) -> Seq<char> {
    match v {
        VarName::TelegramToken => "TELEGRAM_TOKEN"@,
        VarName::DatabaseUrl => "DATABASE_URL"@,
        VarName::AdminApiToken => "ADMIN_API_TOKEN"@,
        VarName::AdminChatId => "ADMIN_CHAT_ID"@,
    }
}

/// The name of an environment variable, as text.
pub fn var_name_str(v: VarName) -> (r: &'static str)
    ensures
        r@ == var_name(v),
{
    match v {
        VarName::TelegramToken => "TELEGRAM_TOKEN",
        VarName::DatabaseUrl => "DATABASE_URL",
        VarName::AdminApiToken => "ADMIN_API_TOKEN",
        VarName::AdminChatId => "ADMIN_CHAT_ID",
    }
}

/// The message of each configuration error.
pub open spec fn config_error_message(e: ConfigError) -> Seq<char> {
    match e {
        ConfigError::Missing(name) => "Переменная окружения "@ + var_name(name) + " не задана"@,
        ConfigError::Empty(name) => "Переменная окружения "@ + var_name(name) + " пустая"@,
        ConfigError::AdminTokenTooShort => "ADMIN_API_TOKEN должен содержать минимум 32 символа"@,
        ConfigError::InvalidAdminChatId => "ADMIN_CHAT_ID должен быть целым числом"@,
        ConfigError::InvalidPort => "PORT должен быть числом от 0 до 65535"@,
    }
}

/// A configuration that is accepted keeps the rules it is checked against:
/// the token, the database address, the admin token and the admin chat id
/// were given and not blank, the admin token has at least 32 bytes, and the
/// chat id and the port are the numbers written in their variables (the
/// port's defaulting to 8080 and the host's to 127.0.0.1).
pub proof fn accepted_config_keeps_its_rules(env: Environment)
    ensures
        config_outcome(env) matches Ok(f) ==> {
            &&& env.telegram_token matches Some(t) && t@ == f.0 && !blank(f.0)
            &&& env.database_url matches Some(d) && d@ == f.1 && !blank(f.1)
            &&& env.admin_api_token matches Some(a) && a@ == f.3 && !blank(f.3)
            &&& encode_utf8(f.3).len() >= MIN_ADMIN_TOKEN_BYTES
            &&& env.admin_chat_id matches Some(c) && !blank(c@) && i64_from_text(c@) == Some(f.2)
            &&& u16_from_text(match env.port { Some(p) => p@, None => default_port_text() }) == Some(f.5)
            &&& f.4 == match env.host { Some(h) => h@, None => default_host() }
        },
{
}

} // verus!
