//! Fallback values for settings that a configuration source leaves out.

use vstd::prelude::*;
use crate::schema::{Settings, SettingsView};

verus! {

/// Where the platform session is persisted when no path is configured.
pub const DEFAULT_SESSION_FILE: &'static str = "userbot.session";

/// Seconds of quiet after a burst of messages before the bot reacts.
pub const DEFAULT_DEBOUNCE_SECONDS: u64 = 1;

/// How many earlier messages are kept per conversation.
pub const DEFAULT_HISTORY_LIMIT: usize = 25;

/// The sampling temperature 1.5 as the bit pattern of an IEEE 754 single:
/// sign 0, biased exponent 127, fraction one half.
pub const DEFAULT_TEMPERATURE_BITS: u32 = 0x3FC0_0000;

/// The session file name used when the source names none.
pub fn default_session_file() -> (name: String)
    ensures
        name@ == "userbot.session"@,
{
    DEFAULT_SESSION_FILE.to_string()
}

/// The debounce interval used when the source names none.
pub fn default_debounce() -> (seconds: u64)
    ensures
        seconds == 1,
{
    DEFAULT_DEBOUNCE_SECONDS
}

/// The history limit used when the source names none.
pub fn default_history_limit() -> (limit: usize)
    ensures
        limit == 25,
{
    DEFAULT_HISTORY_LIMIT
}

/// The sampling temperature used when the source names none, as bits of a
/// single-precision float.
pub fn default_temperature_bits() -> (bits: u32)
    ensures
        bits == 0x3FC0_0000,
{
    DEFAULT_TEMPERATURE_BITS
}

/// The tuning that nothing overrides.
pub open spec fn default_settings() -> SettingsView {
    SettingsView {
        session_file: DEFAULT_SESSION_FILE@,
        debounce_seconds: DEFAULT_DEBOUNCE_SECONDS,
        history_limit: DEFAULT_HISTORY_LIMIT,
    }
}

impl Default for Settings {
    /// The tuning that nothing overrides.
    fn default() -> (settings: Settings)
        ensures
            settings@ == default_settings(),
    {
        Settings {
            session_file: default_session_file(),
            debounce_seconds: default_debounce(),
            history_limit: default_history_limit(),
        }
    }
}

} // verus!
