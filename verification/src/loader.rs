//! Loading: from what reading a source produced to a configuration or a
//! failure that names the source.
//!
//! Reading and parsing the source is the caller's part. What it produced, a
//! document or the reason why there is none, is handed to [`Config::load`]
//! together with the path, and nothing is recovered from: a load either
//! yields a whole configuration or fails.

use vstd::prelude::*;
use vstd::string::StringExecFns;
use crate::document::{ConfigDocument, MissingField};
use crate::resolve::resolve;
use crate::schema::Config;

verus! {

/// Why reading a source produced no document.
#[derive(Debug, PartialEq, Eq)]
pub enum SourceFailure {
    /// The source does not exist, cannot be read, or is not structured data.
    Unreadable { detail: String },
    /// The source is structured data, but some field holds a value of the
    /// wrong type.
    Mismatched { detail: String },
}

/// In what way a source that could be read does not fit the schema.
#[derive(Debug, PartialEq, Eq)]
pub enum SchemaFault {
    /// A field without a fallback is absent.
    Missing(MissingField),
    /// A field holds a value of the wrong type.
    Rejected { detail: String },
}

/// Why a load failed, with the path of the source.
#[derive(Debug, PartialEq, Eq)]
pub enum LoadError {
    /// The source could not be read or parsed at all.
    SourceUnreadable { path: String, detail: String },
    /// The source was parsed, but does not fit the schema.
    SchemaMismatch { path: String, fault: SchemaFault },
}

/// The key of a missing field, as the source would have written it.
pub open spec fn key_text(field: MissingField) -> Seq<char> {
    match field {
        MissingField::Telegram => "telegram"@,
        MissingField::TelegramApiId => "api_id"@,
        MissingField::TelegramApiHash => "api_hash"@,
        MissingField::TelegramBotToken => "bot_token"@,
        MissingField::Ai => "ai"@,
        MissingField::AiApiKey => "api_key"@,
        MissingField::AiApiUrl => "api_url"@,
        MissingField::UserId { .. } => "id"@,
        MissingField::UserName { .. } => "name"@,
        MissingField::UserSystemPrompt { .. } => "system_prompt"@,
    }
}

/// The headline of a load failure.
pub open spec fn message_text(error: LoadError) -> Seq<char> {
    match error {
        LoadError::SourceUnreadable { path, .. } => "Failed to load config file: "@ + path@,
        LoadError::SchemaMismatch { path, .. } => "Failed to parse config file: "@ + path@,
    }
}

/// What lies behind a load failure: the reader's own words, or the field
/// that the document leaves out.
pub open spec fn cause_text(error: LoadError) -> Seq<char> {
    match error {
        LoadError::SourceUnreadable { detail, .. } => detail@,
        LoadError::SchemaMismatch { fault: SchemaFault::Rejected { detail }, .. } => detail@,
        LoadError::SchemaMismatch { fault: SchemaFault::Missing(field), .. } => "missing field `"@
            + key_text(field) + "`"@,
    }
}

impl MissingField {
    /// The key of the field, as the source would have written it.
    pub fn key(&self) -> (key: &'static str)
        ensures
            key@ == key_text(*self),
    {
        match self {
            MissingField::Telegram => "telegram",
            MissingField::TelegramApiId => "api_id",
            MissingField::TelegramApiHash => "api_hash",
            MissingField::TelegramBotToken => "bot_token",
            MissingField::Ai => "ai",
            MissingField::AiApiKey => "api_key",
            MissingField::AiApiUrl => "api_url",
            MissingField::UserId { .. } => "id",
            MissingField::UserName { .. } => "name",
            MissingField::UserSystemPrompt { .. } => "system_prompt",
        }
    }
}

impl LoadError {
    /// The path of the source that could not be loaded.
    pub fn path(&self) -> (path: &String)
        ensures
            *path == match *self {
                LoadError::SourceUnreadable { path, .. } => path,
                LoadError::SchemaMismatch { path, .. } => path,
            },
    {
        match self {
            LoadError::SourceUnreadable { path, .. } => path,
            LoadError::SchemaMismatch { path, .. } => path,
        }
    }

    /// The headline of the failure: which step failed, and on which source.
    pub fn message(&self) -> (message: String)
        ensures
            message@ == message_text(*self),
    {
        match self {
            LoadError::SourceUnreadable { path, .. } => String::from_str(
                "Failed to load config file: ",
            ).concat(path.as_str()),
            LoadError::SchemaMismatch { path, .. } => String::from_str(
                "Failed to parse config file: ",
            ).concat(path.as_str()),
        }
    }
}

impl LoadError {
    /// What lies behind the failure.
    pub fn cause(&self) -> (cause: String)
        ensures
            cause@ == cause_text(*self),
    {
        match self {
            LoadError::SourceUnreadable { detail, .. } => detail.clone(),
            LoadError::SchemaMismatch { fault: SchemaFault::Rejected { detail }, .. } => {
                detail.clone()
            },
            LoadError::SchemaMismatch { fault: SchemaFault::Missing(field), .. } => {
                String::from_str("missing field `").concat(field.key()).concat("`")
            },
        }
    }
}

impl Config {
    /// Completes a load of the source at `path`, given what reading it
    /// produced.
    ///
    /// A source that gave no document fails the load as it stands: an
    /// unreadable one as [`LoadError::SourceUnreadable`], an ill-typed one as
    /// [`LoadError::SchemaMismatch`]. A document is resolved; it yields its
    /// configuration, or a [`LoadError::SchemaMismatch`] that names the
    /// missing field. Every failure carries `path`.
    pub fn load(path: String, source: Result<ConfigDocument, SourceFailure>) -> (outcome: Result<
        Config,
        LoadError,
    >)
        ensures
            match source {
                Err(SourceFailure::Unreadable { detail }) => outcome == Err::<Config, LoadError>(
                    LoadError::SourceUnreadable { path, detail },
                ),
                Err(SourceFailure::Mismatched { detail }) => outcome == Err::<Config, LoadError>(
                    LoadError::SchemaMismatch { path, fault: SchemaFault::Rejected { detail } },
                ),
                Ok(doc) => match resolve(doc@) {
                    Ok(config) => outcome matches Ok(loaded) && loaded@ == config,
                    Err(field) => outcome == Err::<Config, LoadError>(
                        LoadError::SchemaMismatch { path, fault: SchemaFault::Missing(field) },
                    ),
                },
            },
    {
        match source {
            Err(SourceFailure::Unreadable { detail }) => Err(
                LoadError::SourceUnreadable { path, detail },
            ),
            Err(SourceFailure::Mismatched { detail }) => Err(
                LoadError::SchemaMismatch { path, fault: SchemaFault::Rejected { detail } },
            ),
            Ok(doc) => match Config::from_document(&doc) {
                Ok(config) => Ok(config),
                Err(field) => Err(
                    LoadError::SchemaMismatch { path, fault: SchemaFault::Missing(field) },
                ),
            },
        }
    }
}

} // verus!
