//! The configuration record and the mathematical view of each of its parts.

use vstd::prelude::*;

verus! {

/// Credentials for the messaging platform.
#[derive(Debug, PartialEq, Eq)]
pub struct TelegramConfig {
    pub api_id: i32,
    pub api_hash: String,
    pub bot_token: String,
}

/// Settings of the text-generation backend.
///
/// `model` and `models` are two ways to name the wanted models; see
/// [`AiConfig::models_priority`] for how they combine. The sampling
/// temperature is kept as the bit pattern of a single-precision float.
#[derive(Debug, PartialEq, Eq)]
pub struct AiConfig {
    pub api_key: String,
    pub api_url: String,
    pub model: String,
    pub models: Vec<String>,
    pub temperature_bits: u32,
}

/// Operational tuning.
#[derive(Debug, PartialEq, Eq)]
pub struct Settings {
    pub session_file: String,
    pub debounce_seconds: u64,
    pub history_limit: usize,
}

/// One participant that the bot treats specially.
#[derive(Debug, PartialEq, Eq)]
pub struct TrackedUser {
    pub id: i64,
    pub name: String,
    pub system_prompt: String,
}

/// The whole configuration.
#[derive(Debug, PartialEq, Eq)]
pub struct Config {
    pub telegram: TelegramConfig,
    pub ai: AiConfig,
    pub settings: Settings,
    pub users: Vec<TrackedUser>,
}

/// What a [`TelegramConfig`] holds, as mathematical values.
pub struct TelegramConfigView {
    pub api_id: i32,
    pub api_hash: Seq<char>,
    pub bot_token: Seq<char>,
}

/// What a [`AiConfig`] holds, as mathematical values.
pub struct AiConfigView {
    pub api_key: Seq<char>,
    pub api_url: Seq<char>,
    pub model: Seq<char>,
    pub models: Seq<Seq<char>>,
    pub temperature_bits: u32,
}

/// What a [`Settings`] holds, as mathematical values.
pub struct SettingsView {
    pub session_file: Seq<char>,
    pub debounce_seconds: u64,
    pub history_limit: usize,
}

/// What a [`TrackedUser`] holds, as mathematical values.
pub struct TrackedUserView {
    pub id: i64,
    pub name: Seq<char>,
    pub system_prompt: Seq<char>,
}

/// What a [`Config`] holds, as mathematical values.
pub struct ConfigView {
    pub telegram: TelegramConfigView,
    pub ai: AiConfigView,
    pub settings: SettingsView,
    pub users: Seq<TrackedUserView>,
}

/// The texts that a sequence of strings holds, in order.
pub open spec fn texts(names: Seq<String>) -> Seq<Seq<char>> {
    Seq::new(names.len(), |i: int| names[i]@)
}

/// The records that a roster holds, in order.
pub open spec fn roster(users: Seq<TrackedUser>) -> Seq<TrackedUserView> {
    Seq::new(users.len(), |i: int| users[i]@)
}

impl View for TelegramConfig {
    type V = TelegramConfigView;

    open spec fn view(&self) -> TelegramConfigView {
        TelegramConfigView {
            api_id: self.api_id,
            api_hash: self.api_hash@,
            bot_token: self.bot_token@,
        }
    }
}

impl View for AiConfig {
    type V = AiConfigView;

    open spec fn view(&self) -> AiConfigView {
        AiConfigView {
            api_key: self.api_key@,
            api_url: self.api_url@,
            model: self.model@,
            models: texts(self.models@),
            temperature_bits: self.temperature_bits,
        }
    }
}

impl View for Settings {
    type V = SettingsView;

    open spec fn view(&self) -> SettingsView {
        SettingsView {
            session_file: self.session_file@,
            debounce_seconds: self.debounce_seconds,
            history_limit: self.history_limit,
        }
    }
}

impl View for TrackedUser {
    type V = TrackedUserView;

    open spec fn view(&self) -> TrackedUserView {
        TrackedUserView { id: self.id, name: self.name@, system_prompt: self.system_prompt@ }
    }
}

impl View for Config {
    type V = ConfigView;

    open spec fn view(&self) -> ConfigView {
        ConfigView {
            telegram: self.telegram@,
            ai: self.ai@,
            settings: self.settings@,
            users: roster(self.users@),
        }
    }
}

impl Clone for TelegramConfig {
    fn clone(&self) -> (copy: Self)
        ensures
            copy@ == self@,
    {
        TelegramConfig {
            api_id: self.api_id,
            api_hash: self.api_hash.clone(),
            bot_token: self.bot_token.clone(),
        }
    }
}

impl Clone for Settings {
    fn clone(&self) -> (copy: Self)
        ensures
            copy@ == self@,
    {
        Settings {
            session_file: self.session_file.clone(),
            debounce_seconds: self.debounce_seconds,
            history_limit: self.history_limit,
        }
    }
}

impl Clone for TrackedUser {
    fn clone(&self) -> (copy: Self)
        ensures
            copy@ == self@,
    {
        TrackedUser {
            id: self.id,
            name: self.name.clone(),
            system_prompt: self.system_prompt.clone(),
        }
    }
}

impl Clone for AiConfig {
    fn clone(&self) -> (copy: Self)
        ensures
            copy@ == self@,
    {
        let models = self.models.clone();
        AiConfig {
            api_key: self.api_key.clone(),
            api_url: self.api_url.clone(),
            model: self.model.clone(),
            models,
            temperature_bits: self.temperature_bits,
        }
    }
}

impl Clone for Config {
    fn clone(&self) -> (copy: Self)
        ensures
            copy@ == self@,
    {
        let users = self.users.clone();
        assert(roster(users@) =~= roster(self.users@));
        Config {
            telegram: self.telegram.clone(),
            ai: self.ai.clone(),
            settings: self.settings.clone(),
            users,
        }
    }
}

} // verus!
