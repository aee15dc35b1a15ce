use userbot_config::AiConfig;

fn ai(model: &str, models: &[&str]) -> AiConfig {
    AiConfig {
        api_key: "key".to_string(),
        api_url: "https://example.invalid/v1".to_string(),
        model: model.to_string(),
        models: models.iter().map(|name| name.to_string()).collect(),
        temperature_bits: 1.5f32.to_bits(),
    }
}

#[test]
fn models_list_wins_over_single_model() {
    let config = ai("solo", &["first", "second", "third"]);
    assert_eq!(config.models_priority(), vec!["first", "second", "third"]);
}

#[test]
fn models_list_alone_is_returned_in_order() {
    let config = ai("", &["zeta", "alpha"]);
    assert_eq!(config.models_priority(), vec!["zeta", "alpha"]);
}

#[test]
fn models_list_keeps_duplicates_and_empty_names() {
    let config = ai("solo", &["twice", "", "twice"]);
    assert_eq!(config.models_priority(), vec!["twice", "", "twice"]);
}

#[test]
fn single_model_is_the_only_candidate() {
    let config = ai("solo", &[]);
    assert_eq!(config.models_priority(), vec!["solo"]);
}

#[test]
fn nothing_configured_gives_no_candidate() {
    let config = ai("", &[]);
    assert_eq!(config.models_priority(), Vec::<String>::new());
}

#[test]
fn models_priority_leaves_the_config_untouched() {
    let config = ai("solo", &["first"]);
    let before = config.clone();
    let _ = config.models_priority();
    assert_eq!(config, before);
}
