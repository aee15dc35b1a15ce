//! Runtime configuration of a chat bot backed by a text-generation service.
//!
//! A configuration names the credentials for the messaging platform, the
//! text-generation backend with its models, some operational tuning, and a
//! roster of participants that the bot treats specially. This crate defines
//! that record, resolves it from a document in which fields may be absent,
//! orders the candidate models, and builds the index from a peer's identity to
//! the participant it stands for.
//!
//! Nothing here touches a file: reading and parsing a source is left to the
//! caller, who hands the outcome to [`Config::load`].

pub mod defaults;
pub mod document;
pub mod loader;
pub mod models;
pub mod peer;
pub mod resolve;
pub mod roster;
pub mod schema;

pub use document::{AiSection, ConfigDocument, MissingField, SettingsSection, TelegramSection, UserEntry};
pub use loader::{LoadError, SchemaFault, SourceFailure};
pub use roster::find_user;
pub use schema::{AiConfig, Config, Settings, TelegramConfig, TrackedUser};
