//! A configuration as its source states it, before anything is filled in.
//!
//! In a document every section and every field may be absent.

use vstd::prelude::*;
use crate::schema::texts;

verus! {

/// The `telegram` section as written.
#[derive(Debug, Default, PartialEq, Eq)]
pub struct TelegramSection {
    pub api_id: Option<i32>,
    pub api_hash: Option<String>,
    pub bot_token: Option<String>,
}

/// The `ai` section as written.
#[derive(Debug, Default, PartialEq, Eq)]
pub struct AiSection {
    pub api_key: Option<String>,
    pub api_url: Option<String>,
    pub model: Option<String>,
    pub models: Option<Vec<String>>,
    pub temperature_bits: Option<u32>,
}

/// The `settings` section as written.
#[derive(Debug, Default, PartialEq, Eq)]
pub struct SettingsSection {
    pub session_file: Option<String>,
    pub debounce_seconds: Option<u64>,
    pub history_limit: Option<usize>,
}

/// One entry of the `users` list as written.
#[derive(Debug, Default, PartialEq, Eq)]
pub struct UserEntry {
    pub id: Option<i64>,
    pub name: Option<String>,
    pub system_prompt: Option<String>,
}

/// A whole configuration source as written.
#[derive(Debug, Default, PartialEq, Eq)]
pub struct ConfigDocument {
    pub telegram: Option<TelegramSection>,
    pub ai: Option<AiSection>,
    pub settings: Option<SettingsSection>,
    pub users: Option<Vec<UserEntry>>,
}

/// A field without a fallback that a document leaves out. For a field of a
/// participant, `index` is the entry's position in the `users` list.
#[derive(Debug, Clone, Copy, PartialEq, Eq, Structural)]
pub enum MissingField {
    /// The `telegram` section as a whole.
    Telegram,
    /// `telegram.api_id`.
    TelegramApiId,
    /// `telegram.api_hash`.
    TelegramApiHash,
    /// `telegram.bot_token`.
    TelegramBotToken,
    /// The `ai` section as a whole.
    Ai,
    /// `ai.api_key`.
    AiApiKey,
    /// `ai.api_url`.
    AiApiUrl,
    /// The `id` of a participant.
    UserId { index: usize },
    /// The `name` of a participant.
    UserName { index: usize },
    /// The `system_prompt` of a participant.
    UserSystemPrompt { index: usize },
}

/// What a [`TelegramSection`] holds, as mathematical values.
pub struct TelegramSectionView {
    pub api_id: Option<i32>,
    pub api_hash: Option<Seq<char>>,
    pub bot_token: Option<Seq<char>>,
}

/// What a [`AiSection`] holds, as mathematical values.
pub struct AiSectionView {
    pub api_key: Option<Seq<char>>,
    pub api_url: Option<Seq<char>>,
    pub model: Option<Seq<char>>,
    pub models: Option<Seq<Seq<char>>>,
    pub temperature_bits: Option<u32>,
}

/// What a [`SettingsSection`] holds, as mathematical values.
pub struct SettingsSectionView {
    pub session_file: Option<Seq<char>>,
    pub debounce_seconds: Option<u64>,
    pub history_limit: Option<usize>,
}

/// What a [`UserEntry`] holds, as mathematical values.
pub struct UserEntryView {
    pub id: Option<i64>,
    pub name: Option<Seq<char>>,
    pub system_prompt: Option<Seq<char>>,
}

/// What a [`ConfigDocument`] holds, as mathematical values.
pub struct ConfigDocumentView {
    pub telegram: Option<TelegramSectionView>,
    pub ai: Option<AiSectionView>,
    pub settings: Option<SettingsSectionView>,
    pub users: Option<Seq<UserEntryView>>,
}

/// The text of a string that may be absent.
pub open spec fn text(field: Option<String>) -> Option<Seq<char>> {
    match field {
        Some(s) => Some(s@),
        None => None,
    }
}

/// The entries that a list holds, in order.
pub open spec fn entries(list: Seq<UserEntry>) -> Seq<UserEntryView> {
    Seq::new(list.len(), |i: int| list[i]@)
}

impl View for TelegramSection {
    type V = TelegramSectionView;

    open spec fn view(&self) -> TelegramSectionView {
        TelegramSectionView {
            api_id: self.api_id,
            api_hash: text(self.api_hash),
            bot_token: text(self.bot_token),
        }
    }
}

impl View for AiSection {
    type V = AiSectionView;

    open spec fn view(&self) -> AiSectionView {
        AiSectionView {
            api_key: text(self.api_key),
            api_url: text(self.api_url),
            model: text(self.model),
            models: match self.models {
                Some(names) => Some(texts(names@)),
                None => None,
            },
            temperature_bits: self.temperature_bits,
        }
    }
}

impl View for SettingsSection {
    type V = SettingsSectionView;

    open spec fn view(&self) -> SettingsSectionView {
        SettingsSectionView {
            session_file: text(self.session_file),
            debounce_seconds: self.debounce_seconds,
            history_limit: self.history_limit,
        }
    }
}

impl View for UserEntry {
    type V = UserEntryView;

    open spec fn view(&self) -> UserEntryView {
        UserEntryView {
            id: self.id,
            name: text(self.name),
            system_prompt: text(self.system_prompt),
        }
    }
}

impl View for ConfigDocument {
    type V = ConfigDocumentView;

    open spec fn view(&self) -> ConfigDocumentView {
        ConfigDocumentView {
            telegram: match self.telegram {
                Some(section) => Some(section@),
                None => None,
            },
            ai: match self.ai {
                Some(section) => Some(section@),
                None => None,
            },
            settings: match self.settings {
                Some(section) => Some(section@),
                None => None,
            },
            users: match self.users {
                Some(list) => Some(entries(list@)),
                None => None,
            },
        }
    }
}

} // verus!
