use userbot_config::{
    AiSection, Config, ConfigDocument, LoadError, MissingField, SchemaFault, SourceFailure,
    TelegramSection,
};

fn document() -> ConfigDocument {
    ConfigDocument {
        telegram: Some(TelegramSection {
            api_id: Some(12345),
            api_hash: Some("hash".to_string()),
            bot_token: Some("token".to_string()),
        }),
        ai: Some(AiSection {
            api_key: Some("key".to_string()),
            api_url: Some("https://example.invalid/v1".to_string()),
            model: Some("solo".to_string()),
            models: None,
            temperature_bits: None,
        }),
        settings: None,
        users: None,
    }
}

#[test]
fn load_of_a_complete_document_succeeds() {
    let loaded = Config::load("config.toml".to_string(), Ok(document())).unwrap();
    assert_eq!(loaded, Config::from_document(&document()).unwrap());
    assert_eq!(loaded.settings.session_file, "userbot.session");
    assert_eq!(loaded.settings.debounce_seconds, 1);
    assert_eq!(loaded.settings.history_limit, 25);
    assert_eq!(f32::from_bits(loaded.ai.temperature_bits), 1.5f32);
    assert_eq!(loaded.ai.models_priority(), vec!["solo"]);
}

#[test]
fn load_without_api_hash_is_a_schema_mismatch_naming_the_path() {
    let mut doc = document();
    doc.telegram.as_mut().unwrap().api_hash = None;
    let error = Config::load("/etc/bot/config.toml".to_string(), Ok(doc)).unwrap_err();
    assert_eq!(
        error,
        LoadError::SchemaMismatch {
            path: "/etc/bot/config.toml".to_string(),
            fault: SchemaFault::Missing(MissingField::TelegramApiHash),
        }
    );
    assert_eq!(error.path(), "/etc/bot/config.toml");
    assert_eq!(error.message(), "Failed to parse config file: /etc/bot/config.toml");
    assert_eq!(error.cause(), "missing field `api_hash`");
}

#[test]
fn load_of_an_unreadable_source_names_the_path() {
    let failure = SourceFailure::Unreadable { detail: "No such file or directory".to_string() };
    let error = Config::load("missing.toml".to_string(), Err(failure)).unwrap_err();
    assert_eq!(
        error,
        LoadError::SourceUnreadable {
            path: "missing.toml".to_string(),
            detail: "No such file or directory".to_string(),
        }
    );
    assert_eq!(error.path(), "missing.toml");
    assert_eq!(error.message(), "Failed to load config file: missing.toml");
    assert_eq!(error.cause(), "No such file or directory");
}

#[test]
fn load_of_an_ill_typed_source_is_a_schema_mismatch() {
    let failure = SourceFailure::Mismatched { detail: "invalid type: string, expected i32".to_string() };
    let error = Config::load("config.toml".to_string(), Err(failure)).unwrap_err();
    assert_eq!(
        error,
        LoadError::SchemaMismatch {
            path: "config.toml".to_string(),
            fault: SchemaFault::Rejected { detail: "invalid type: string, expected i32".to_string() },
        }
    );
    assert_eq!(error.message(), "Failed to parse config file: config.toml");
    assert_eq!(error.cause(), "invalid type: string, expected i32");
}

#[test]
fn load_failure_with_an_empty_path() {
    let error = Config::load(String::new(), Ok(ConfigDocument::default())).unwrap_err();
    assert_eq!(error.path(), "");
    assert_eq!(error.message(), "Failed to parse config file: ");
    assert_eq!(error.cause(), "missing field `telegram`");
}

#[test]
fn missing_field_keys() {
    assert_eq!(MissingField::Telegram.key(), "telegram");
    assert_eq!(MissingField::TelegramApiId.key(), "api_id");
    assert_eq!(MissingField::TelegramApiHash.key(), "api_hash");
    assert_eq!(MissingField::TelegramBotToken.key(), "bot_token");
    assert_eq!(MissingField::Ai.key(), "ai");
    assert_eq!(MissingField::AiApiKey.key(), "api_key");
    assert_eq!(MissingField::AiApiUrl.key(), "api_url");
    assert_eq!(MissingField::UserId { index: 0 }.key(), "id");
    assert_eq!(MissingField::UserName { index: 1 }.key(), "name");
    assert_eq!(MissingField::UserSystemPrompt { index: 2 }.key(), "system_prompt");
}

#[test]
fn load_of_a_written_out_config_gives_it_back() {
    let config = Config::load("config.toml".to_string(), Ok(document())).unwrap();
    let again = Config::load("copy.toml".to_string(), Ok(config.to_document()));
    assert_eq!(again, Ok(config));
}
