use userbot_config::{
    AiConfig, AiSection, Config, ConfigDocument, MissingField, Settings, SettingsSection,
    TelegramConfig, TelegramSection, TrackedUser, UserEntry,
};

fn telegram_section() -> TelegramSection {
    TelegramSection {
        api_id: Some(12345),
        api_hash: Some("hash".to_string()),
        bot_token: Some("token".to_string()),
    }
}

fn ai_section() -> AiSection {
    AiSection {
        api_key: Some("key".to_string()),
        api_url: Some("https://example.invalid/v1".to_string()),
        model: None,
        models: None,
        temperature_bits: None,
    }
}

fn minimal() -> ConfigDocument {
    ConfigDocument {
        telegram: Some(telegram_section()),
        ai: Some(ai_section()),
        settings: None,
        users: None,
    }
}

fn entry(id: i64, name: &str, prompt: &str) -> UserEntry {
    UserEntry { id: Some(id), name: Some(name.to_string()), system_prompt: Some(prompt.to_string()) }
}

fn full_config() -> Config {
    Config {
        telegram: TelegramConfig {
            api_id: -7,
            api_hash: "0123abcd".to_string(),
            bot_token: "1:token".to_string(),
        },
        ai: AiConfig {
            api_key: "sk".to_string(),
            api_url: "https://example.invalid/v1".to_string(),
            model: "solo".to_string(),
            models: vec!["first".to_string(), "second".to_string()],
            temperature_bits: 0.25f32.to_bits(),
        },
        settings: Settings {
            session_file: "bot.session".to_string(),
            debounce_seconds: 3,
            history_limit: 100,
        },
        users: vec![
            TrackedUser { id: 30, name: "carol".to_string(), system_prompt: "c".to_string() },
            TrackedUser { id: 10, name: "alice".to_string(), system_prompt: "a".to_string() },
            TrackedUser { id: 30, name: "carol again".to_string(), system_prompt: String::new() },
        ],
    }
}

#[test]
fn minimal_document_takes_every_default() {
    let config = Config::from_document(&minimal()).unwrap();
    assert_eq!(config.settings.session_file, "userbot.session");
    assert_eq!(config.settings.debounce_seconds, 1);
    assert_eq!(config.settings.history_limit, 25);
    assert_eq!(f32::from_bits(config.ai.temperature_bits), 1.5f32);
    assert_eq!(config.ai.model, "");
    assert!(config.ai.models.is_empty());
    assert!(config.users.is_empty());
}

#[test]
fn minimal_document_keeps_what_it_states() {
    let config = Config::from_document(&minimal()).unwrap();
    assert_eq!(
        config.telegram,
        TelegramConfig {
            api_id: 12345,
            api_hash: "hash".to_string(),
            bot_token: "token".to_string(),
        }
    );
    assert_eq!(config.ai.api_key, "key");
    assert_eq!(config.ai.api_url, "https://example.invalid/v1");
}

#[test]
fn empty_settings_section_takes_every_default() {
    let mut doc = minimal();
    doc.settings = Some(SettingsSection::default());
    assert_eq!(Config::from_document(&doc).unwrap().settings, Settings::default());
}

#[test]
fn settings_fields_fall_back_one_by_one() {
    let mut doc = minimal();
    doc.settings = Some(SettingsSection {
        session_file: None,
        debounce_seconds: Some(9),
        history_limit: None,
    });
    assert_eq!(
        Config::from_document(&doc).unwrap().settings,
        Settings { session_file: "userbot.session".to_string(), debounce_seconds: 9, history_limit: 25 }
    );
    doc.settings = Some(SettingsSection {
        session_file: Some("other.session".to_string()),
        debounce_seconds: None,
        history_limit: Some(0),
    });
    assert_eq!(
        Config::from_document(&doc).unwrap().settings,
        Settings { session_file: "other.session".to_string(), debounce_seconds: 1, history_limit: 0 }
    );
}

#[test]
fn stated_ai_fields_are_kept() {
    let mut doc = minimal();
    doc.ai = Some(AiSection {
        model: Some("solo".to_string()),
        models: Some(vec!["first".to_string(), "second".to_string()]),
        temperature_bits: Some(0.5f32.to_bits()),
        ..ai_section()
    });
    let config = Config::from_document(&doc).unwrap();
    assert_eq!(config.ai.model, "solo");
    assert_eq!(config.ai.models, vec!["first", "second"]);
    assert_eq!(f32::from_bits(config.ai.temperature_bits), 0.5f32);
}

#[test]
fn users_keep_their_declared_order() {
    let mut doc = minimal();
    doc.users = Some(vec![entry(30, "carol", "c"), entry(10, "alice", "a"), entry(20, "bob", "b")]);
    let config = Config::from_document(&doc).unwrap();
    let ids: Vec<i64> = config.users.iter().map(|user| user.id).collect();
    assert_eq!(ids, vec![30, 10, 20]);
    assert_eq!(
        config.users[1],
        TrackedUser { id: 10, name: "alice".to_string(), system_prompt: "a".to_string() }
    );
}

#[test]
fn empty_users_list_is_an_empty_roster() {
    let mut doc = minimal();
    doc.users = Some(Vec::new());
    assert!(Config::from_document(&doc).unwrap().users.is_empty());
}

#[test]
fn missing_telegram_section_is_reported() {
    let mut doc = minimal();
    doc.telegram = None;
    assert_eq!(Config::from_document(&doc), Err(MissingField::Telegram));
}

#[test]
fn missing_api_id_is_reported() {
    let mut doc = minimal();
    doc.telegram = Some(TelegramSection { api_id: None, ..telegram_section() });
    assert_eq!(Config::from_document(&doc), Err(MissingField::TelegramApiId));
}

#[test]
fn missing_api_hash_is_reported() {
    let mut doc = minimal();
    doc.telegram = Some(TelegramSection { api_hash: None, ..telegram_section() });
    assert_eq!(Config::from_document(&doc), Err(MissingField::TelegramApiHash));
}

#[test]
fn missing_bot_token_is_reported() {
    let mut doc = minimal();
    doc.telegram = Some(TelegramSection { bot_token: None, ..telegram_section() });
    assert_eq!(Config::from_document(&doc), Err(MissingField::TelegramBotToken));
}

#[test]
fn missing_ai_section_is_reported() {
    let mut doc = minimal();
    doc.ai = None;
    assert_eq!(Config::from_document(&doc), Err(MissingField::Ai));
}

#[test]
fn missing_api_key_is_reported() {
    let mut doc = minimal();
    doc.ai = Some(AiSection { api_key: None, ..ai_section() });
    assert_eq!(Config::from_document(&doc), Err(MissingField::AiApiKey));
}

#[test]
fn missing_api_url_is_reported() {
    let mut doc = minimal();
    doc.ai = Some(AiSection { api_url: None, ..ai_section() });
    assert_eq!(Config::from_document(&doc), Err(MissingField::AiApiUrl));
}

#[test]
fn missing_user_fields_are_reported_with_their_position() {
    let mut doc = minimal();
    doc.users = Some(vec![entry(1, "a", "p"), UserEntry { id: None, ..entry(2, "b", "p") }]);
    assert_eq!(Config::from_document(&doc), Err(MissingField::UserId { index: 1 }));
    doc.users = Some(vec![UserEntry { name: None, ..entry(1, "a", "p") }, entry(2, "b", "p")]);
    assert_eq!(Config::from_document(&doc), Err(MissingField::UserName { index: 0 }));
    doc.users = Some(vec![
        entry(1, "a", "p"),
        entry(2, "b", "p"),
        UserEntry { system_prompt: None, ..entry(3, "c", "p") },
    ]);
    assert_eq!(Config::from_document(&doc), Err(MissingField::UserSystemPrompt { index: 2 }));
}

#[test]
fn first_missing_field_is_the_one_reported() {
    let empty = ConfigDocument::default();
    assert_eq!(Config::from_document(&empty), Err(MissingField::Telegram));

    let mut doc = minimal();
    doc.telegram = Some(TelegramSection::default());
    doc.ai = None;
    assert_eq!(Config::from_document(&doc), Err(MissingField::TelegramApiId));

    let mut doc = minimal();
    doc.ai = Some(AiSection::default());
    doc.users = Some(vec![UserEntry::default()]);
    assert_eq!(Config::from_document(&doc), Err(MissingField::AiApiKey));

    let mut doc = minimal();
    doc.users = Some(vec![
        entry(1, "a", "p"),
        UserEntry { id: Some(2), name: None, system_prompt: None },
        UserEntry::default(),
    ]);
    assert_eq!(Config::from_document(&doc), Err(MissingField::UserName { index: 1 }));
}

#[test]
fn section_resolvers_agree_with_the_whole() {
    assert_eq!(telegram_section().resolve(), Ok(Config::from_document(&minimal()).unwrap().telegram));
    assert_eq!(ai_section().resolve(), Ok(Config::from_document(&minimal()).unwrap().ai));
    assert_eq!(SettingsSection::default().resolve(), Settings::default());
    assert_eq!(
        entry(4, "dave", "d").resolve(0),
        Ok(TrackedUser { id: 4, name: "dave".to_string(), system_prompt: "d".to_string() })
    );
    assert_eq!(UserEntry::default().resolve(17), Err(MissingField::UserId { index: 17 }));
}

#[test]
fn to_document_states_every_field() {
    let doc = full_config().to_document();
    assert_eq!(
        doc.telegram,
        Some(TelegramSection {
            api_id: Some(-7),
            api_hash: Some("0123abcd".to_string()),
            bot_token: Some("1:token".to_string()),
        })
    );
    assert_eq!(
        doc.ai,
        Some(AiSection {
            api_key: Some("sk".to_string()),
            api_url: Some("https://example.invalid/v1".to_string()),
            model: Some("solo".to_string()),
            models: Some(vec!["first".to_string(), "second".to_string()]),
            temperature_bits: Some(0.25f32.to_bits()),
        })
    );
    assert_eq!(
        doc.settings,
        Some(SettingsSection {
            session_file: Some("bot.session".to_string()),
            debounce_seconds: Some(3),
            history_limit: Some(100),
        })
    );
    assert_eq!(
        doc.users,
        Some(vec![entry(30, "carol", "c"), entry(10, "alice", "a"), entry(30, "carol again", "")])
    );
}

#[test]
fn document_round_trip_gives_the_config_back() {
    let config = full_config();
    assert_eq!(Config::from_document(&config.to_document()), Ok(config));
}

#[test]
fn document_round_trip_of_a_resolved_minimal_document() {
    let config = Config::from_document(&minimal()).unwrap();
    let again = Config::from_document(&config.to_document()).unwrap();
    assert_eq!(again, config);
    assert!(again.to_document().settings.is_some());
}
