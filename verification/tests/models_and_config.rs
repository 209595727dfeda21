use real_estate_bot::config::{Config, ConfigError, Environment, VarName, optional, required};
use real_estate_bot::models::{RegistrationState, RequestStatus};

fn env_with(token: &str) -> Environment {
    Environment {
        telegram_token: Some("123:abc".to_string()),
        database_url: Some("postgres://localhost/db".to_string()),
        admin_api_token: Some(token.to_string()),
        admin_chat_id: Some("-100500".to_string()),
        host: None,
        port: None,
    }
}

const TOKEN: &str = "0123456789abcdef0123456789abcdef";

#[test]
fn config_with_defaults() {
    let c = Config::from_env(env_with(TOKEN)).ok().unwrap();
    assert_eq!(c.telegram_token, "123:abc");
    assert_eq!(c.database_url, "postgres://localhost/db");
    assert_eq!(c.admin_api_token, TOKEN);
    assert_eq!(c.admin_chat_id, -100500);
    assert_eq!(c.host, "127.0.0.1");
    assert_eq!(c.port, 8080);
}

#[test]
fn config_with_host_and_port() {
    let mut e = env_with(TOKEN);
    e.host = Some("0.0.0.0".to_string());
    e.port = Some("9000".to_string());
    let c = Config::from_env(e).ok().unwrap();
    assert_eq!(c.host, "0.0.0.0");
    assert_eq!(c.port, 9000);
}

#[test]
fn config_errors_come_in_order() {
    let mut e = env_with(TOKEN);
    e.telegram_token = None;
    e.database_url = None;
    assert_eq!(Config::from_env(e).err(), Some(ConfigError::Missing(VarName::TelegramToken)));

    let mut e = env_with(TOKEN);
    e.database_url = Some("  ".to_string());
    assert_eq!(Config::from_env(e).err(), Some(ConfigError::Empty(VarName::DatabaseUrl)));

    assert_eq!(Config::from_env(env_with("short")).err(), Some(ConfigError::AdminTokenTooShort));

    let mut e = env_with(TOKEN);
    e.admin_chat_id = None;
    assert_eq!(Config::from_env(e).err(), Some(ConfigError::Missing(VarName::AdminChatId)));

    let mut e = env_with(TOKEN);
    e.admin_chat_id = Some("chat".to_string());
    assert_eq!(Config::from_env(e).err(), Some(ConfigError::InvalidAdminChatId));

    let mut e = env_with(TOKEN);
    e.port = Some("70000".to_string());
    assert_eq!(Config::from_env(e).err(), Some(ConfigError::InvalidPort));
}

#[test]
fn admin_token_length_counts_bytes() {
    // 16 Cyrillic letters are 32 bytes in UTF-8.
    let token = "абвгдеёжзийклмно";
    assert_eq!(token.len(), 32);
    assert!(Config::from_env(env_with(token)).is_ok());
    assert_eq!(Config::from_env(env_with("абвгдеёжзийклмн")).err(), Some(ConfigError::AdminTokenTooShort));
}

#[test]
fn required_keeps_value_untrimmed() {
    assert_eq!(required(VarName::TelegramToken, Some(" t ".to_string())).ok(), Some(" t ".to_string()));
    assert_eq!(required(VarName::TelegramToken, Some("\t".to_string())).err(), Some(ConfigError::Empty(VarName::TelegramToken)));
    assert_eq!(optional(None, "8080"), "8080");
    assert_eq!(optional(Some("1".to_string()), "8080"), "1");
}

#[test]
fn config_error_messages() {
    assert_eq!(ConfigError::Missing(VarName::TelegramToken).message(), "Переменная окружения TELEGRAM_TOKEN не задана");
    assert_eq!(ConfigError::Empty(VarName::AdminChatId).message(), "Переменная окружения ADMIN_CHAT_ID пустая");
    assert_eq!(ConfigError::AdminTokenTooShort.message(), "ADMIN_API_TOKEN должен содержать минимум 32 символа");
    assert_eq!(ConfigError::InvalidAdminChatId.message(), "ADMIN_CHAT_ID должен быть целым числом");
    assert_eq!(ConfigError::InvalidPort.message(), "PORT должен быть числом от 0 до 65535");
}

#[test]
fn request_status_names_read_back() {
    for s in [RequestStatus::New, RequestStatus::InProgress, RequestStatus::Approved, RequestStatus::Rejected, RequestStatus::Completed] {
        assert_eq!(RequestStatus::parse_name(s.as_str()), Ok(s));
        assert_eq!(s.to_string().parse::<RequestStatus>(), Ok(s));
    }
    assert_eq!(RequestStatus::InProgress.as_str(), "InProgress");
}

#[test]
fn unknown_request_status_is_refused() {
    assert_eq!(RequestStatus::parse_name("new"), Err("Неизвестный статус заявки: new".to_string()));
    assert_eq!("".parse::<RequestStatus>(), Err("Неизвестный статус заявки: ".to_string()));
}

#[test]
fn defaults() {
    assert_eq!(RequestStatus::default(), RequestStatus::New);
    assert_eq!(RegistrationState::default(), RegistrationState::Start);
}
