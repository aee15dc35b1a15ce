//! The rules that turn a document into a [`Config`], and back.
//!
//! Resolving demands the fields that have no fallback, takes the fallback for
//! the others, and keeps the participants in the order in which they were
//! declared. Writing a configuration out as a document states every field, so
//! that resolving the result gives the configuration back.

use vstd::prelude::*;
use crate::defaults::{
    default_debounce, default_history_limit, default_session_file, default_settings,
    default_temperature_bits, DEFAULT_TEMPERATURE_BITS,
};
use crate::document::{
    entries, AiSection, AiSectionView, ConfigDocument, ConfigDocumentView, MissingField,
    SettingsSection, SettingsSectionView, TelegramSection, TelegramSectionView, UserEntry,
    UserEntryView,
};
use crate::schema::{
    roster, texts, AiConfig, AiConfigView, Config, ConfigView, Settings, SettingsView,
    TelegramConfig, TelegramConfigView, TrackedUser, TrackedUserView,
};

verus! {

/// The credentials that a `telegram` section yields: all three fields are
/// demanded, and the first one absent is reported.
pub open spec fn resolve_telegram(section: Option<TelegramSectionView>) -> Result<
    TelegramConfigView,
    MissingField,
> {
    match section {
        None => Err(MissingField::Telegram),
        Some(s) => match (s.api_id, s.api_hash, s.bot_token) {
            (None, _, _) => Err(MissingField::TelegramApiId),
            (Some(_), None, _) => Err(MissingField::TelegramApiHash),
            (Some(_), Some(_), None) => Err(MissingField::TelegramBotToken),
            (Some(api_id), Some(api_hash), Some(bot_token)) => Ok(
                TelegramConfigView { api_id, api_hash, bot_token },
            ),
        },
    }
}

/// The backend settings that an `ai` section yields: key and URL are
/// demanded, an absent `model` or `models` is empty, and an absent
/// temperature is 1.5.
pub open spec fn resolve_ai(section: Option<AiSectionView>) -> Result<AiConfigView, MissingField> {
    match section {
        None => Err(MissingField::Ai),
        Some(s) => match (s.api_key, s.api_url) {
            (None, _) => Err(MissingField::AiApiKey),
            (Some(_), None) => Err(MissingField::AiApiUrl),
            (Some(api_key), Some(api_url)) => Ok(
                AiConfigView {
                    api_key,
                    api_url,
                    model: match s.model {
                        Some(model) => model,
                        None => Seq::empty(),
                    },
                    models: match s.models {
                        Some(models) => models,
                        None => Seq::empty(),
                    },
                    temperature_bits: match s.temperature_bits {
                        Some(bits) => bits,
                        None => DEFAULT_TEMPERATURE_BITS,
                    },
                },
            ),
        },
    }
}

/// The tuning that a `settings` section yields: each field on its own falls
/// back to its default, and so does the section as a whole.
pub open spec fn resolve_settings(section: Option<SettingsSectionView>) -> SettingsView {
    match section {
        None => default_settings(),
        Some(s) => SettingsView {
            session_file: match s.session_file {
                Some(name) => name,
                None => default_settings().session_file,
            },
            debounce_seconds: match s.debounce_seconds {
                Some(seconds) => seconds,
                None => default_settings().debounce_seconds,
            },
            history_limit: match s.history_limit {
                Some(limit) => limit,
                None => default_settings().history_limit,
            },
        },
    }
}

/// The participant that the entry at position `index` yields: all three
/// fields are demanded, and the first one absent is reported.
pub open spec fn resolve_user(entry: UserEntryView, index: usize) -> Result<
    TrackedUserView,
    MissingField,
> {
    match (entry.id, entry.name, entry.system_prompt) {
        (None, _, _) => Err(MissingField::UserId { index }),
        (Some(_), None, _) => Err(MissingField::UserName { index }),
        (Some(_), Some(_), None) => Err(MissingField::UserSystemPrompt { index }),
        (Some(id), Some(name), Some(system_prompt)) => Ok(
            TrackedUserView { id, name, system_prompt },
        ),
    }
}

/// The roster that a list of entries yields: the participants in the order
/// of their entries, or what the first incomplete entry lacks.
pub open spec fn resolve_entries(list: Seq<UserEntryView>) -> Result<
    Seq<TrackedUserView>,
    MissingField,
>
    decreases list.len(),
{
    if list.len() == 0 {
        Ok(Seq::empty())
    } else {
        match resolve_entries(list.drop_last()) {
            Err(field) => Err(field),
            Ok(users) => match resolve_user(list.last(), (list.len() - 1) as usize) {
                Err(field) => Err(field),
                Ok(user) => Ok(users.push(user)),
            },
        }
    }
}

/// The roster that a `users` list yields; an absent list is an empty roster.
pub open spec fn resolve_users(list: Option<Seq<UserEntryView>>) -> Result<
    Seq<TrackedUserView>,
    MissingField,
> {
    match list {
        None => Ok(Seq::empty()),
        Some(list) => resolve_entries(list),
    }
}

/// The configuration that a document yields. The sections are taken in the
/// order `telegram`, `ai`, `settings`, `users`, and the first demanded field
/// found absent is reported.
pub open spec fn resolve(doc: ConfigDocumentView) -> Result<ConfigView, MissingField> {
    match resolve_telegram(doc.telegram) {
        Err(field) => Err(field),
        Ok(telegram) => match resolve_ai(doc.ai) {
            Err(field) => Err(field),
            Ok(ai) => match resolve_users(doc.users) {
                Err(field) => Err(field),
                Ok(users) => Ok(
                    ConfigView { telegram, ai, settings: resolve_settings(doc.settings), users },
                ),
            },
        },
    }
}

/// An outcome with its value replaced by the value's view.
pub open spec fn viewed<T: View>(outcome: Result<T, MissingField>) -> Result<T::V, MissingField> {
    match outcome {
        Ok(value) => Ok(value@),
        Err(field) => Err(field),
    }
}

/// Once a front part of a list fails to resolve, the whole list fails in the
/// same way.
proof fn lemma_failure_persists(list: Seq<UserEntryView>, n: int)
    requires
        0 <= n <= list.len(),
        resolve_entries(list.take(n)) is Err,
    ensures
        resolve_entries(list) == resolve_entries(list.take(n)),
    decreases list.len() - n,
{
    if n == list.len() {
        assert(list.take(n) == list);
    } else {
        assert(list.drop_last().take(n) == list.take(n));
        lemma_failure_persists(list.drop_last(), n);
    }
}

/// A list resolves entry by entry and in order: the roster holds, at each
/// position, the participant of the entry at that position. A list fails at
/// its first incomplete entry, and reports what that entry lacks.
pub proof fn lemma_entries_resolve_in_order(list: Seq<UserEntryView>)
    requires
        list.len() <= usize::MAX,
    ensures
        match resolve_entries(list) {
            Ok(users) => {
                &&& users.len() == list.len()
                &&& forall|i: int|
                    0 <= i < list.len() ==> resolve_user(#[trigger] list[i], i as usize) == Ok::<
                        TrackedUserView,
                        MissingField,
                    >(users[i])
            },
            Err(field) => exists|i: int|
                {
                    &&& 0 <= i < list.len()
                    &&& resolve_user(#[trigger] list[i], i as usize) == Err::<
                        TrackedUserView,
                        MissingField,
                    >(field)
                    &&& forall|j: int|
                        0 <= j < i ==> resolve_user(#[trigger] list[j], j as usize) is Ok
                },
        },
    decreases list.len(),
{
    if list.len() > 0 {
        let front = list.drop_last();
        lemma_entries_resolve_in_order(front);
        assert forall|i: int| 0 <= i < front.len() implies front[i] == list[i] by {}
        if resolve_entries(front) is Ok && resolve_entries(list) is Err {
            assert(resolve_user(list[list.len() - 1], (list.len() - 1) as usize) is Err);
        }
    }
}

impl TelegramSection {
    /// The credentials that this section yields.
    pub fn resolve(&self) -> (outcome: Result<TelegramConfig, MissingField>)
        ensures
            viewed(outcome) == resolve_telegram(Some(self@)),
    {
        let api_id: i32 = match self.api_id {
            Some(api_id) => api_id,
            None => return Err(MissingField::TelegramApiId),
        };
        let api_hash = match &self.api_hash {
            Some(api_hash) => api_hash.clone(),
            None => return Err(MissingField::TelegramApiHash),
        };
        let bot_token = match &self.bot_token {
            Some(bot_token) => bot_token.clone(),
            None => return Err(MissingField::TelegramBotToken),
        };
        Ok(TelegramConfig { api_id, api_hash, bot_token })
    }
}

impl AiSection {
    /// The backend settings that this section yields.
    pub fn resolve(&self) -> (outcome: Result<AiConfig, MissingField>)
        ensures
            viewed(outcome) == resolve_ai(Some(self@)),
    {
        let api_key = match &self.api_key {
            Some(api_key) => api_key.clone(),
            None => return Err(MissingField::AiApiKey),
        };
        let api_url = match &self.api_url {
            Some(api_url) => api_url.clone(),
            None => return Err(MissingField::AiApiUrl),
        };
        let model = match &self.model {
            Some(model) => model.clone(),
            None => String::new(),
        };
        let models: Vec<String> = match &self.models {
            Some(models) => {
                let copy = models.clone();
                copy
            },
            None => {
                let none: Vec<String> = Vec::new();
                assert(texts(none@) =~= Seq::<Seq<char>>::empty());
                none
            },
        };
        let temperature_bits: u32 = match self.temperature_bits {
            Some(bits) => bits,
            None => default_temperature_bits(),
        };
        Ok(AiConfig { api_key, api_url, model, models, temperature_bits })
    }
}

impl SettingsSection {
    /// The tuning that this section yields.
    pub fn resolve(&self) -> (settings: Settings)
        ensures
            settings@ == resolve_settings(Some(self@)),
    {
        let session_file = match &self.session_file {
            Some(name) => name.clone(),
            None => default_session_file(),
        };
        let debounce_seconds: u64 = match self.debounce_seconds {
            Some(seconds) => seconds,
            None => default_debounce(),
        };
        let history_limit: usize = match self.history_limit {
            Some(limit) => limit,
            None => default_history_limit(),
        };
        Settings { session_file, debounce_seconds, history_limit }
    }
}

impl UserEntry {
    /// The participant that this entry yields, `index` being its position in
    /// the `users` list.
    pub fn resolve(&self, index: usize) -> (outcome: Result<TrackedUser, MissingField>)
        ensures
            viewed(outcome) == resolve_user(self@, index),
    {
        let id: i64 = match self.id {
            Some(id) => id,
            None => return Err(MissingField::UserId { index }),
        };
        let name = match &self.name {
            Some(name) => name.clone(),
            None => return Err(MissingField::UserName { index }),
        };
        let system_prompt = match &self.system_prompt {
            Some(system_prompt) => system_prompt.clone(),
            None => return Err(MissingField::UserSystemPrompt { index }),
        };
        Ok(TrackedUser { id, name, system_prompt })
    }
}

/// The roster that a list of entries yields.
pub fn resolve_roster(list: &Vec<UserEntry>) -> (outcome: Result<Vec<TrackedUser>, MissingField>)
    ensures
        match outcome {
            Ok(users) => resolve_entries(entries(list@)) == Ok::<
                Seq<TrackedUserView>,
                MissingField,
            >(roster(users@)),
            Err(field) => resolve_entries(entries(list@)) == Err::<
                Seq<TrackedUserView>,
                MissingField,
            >(field),
        },
{
    let mut users: Vec<TrackedUser> = Vec::new();
    assert(roster(users@) =~= Seq::<TrackedUserView>::empty());
    for i in 0..list.len()
        invariant
            resolve_entries(entries(list@).take(i as int)) == Ok::<
                Seq<TrackedUserView>,
                MissingField,
            >(roster(users@)),
    {
        let ghost seen = entries(list@).take(i as int);
        let ghost next = entries(list@).take(i + 1);
        let ghost before = roster(users@);
        assert(next.drop_last() == seen);
        match list[i].resolve(i) {
            Ok(user) => {
                users.push(user);
                assert(roster(users@) =~= before.push(user@));
            },
            Err(field) => {
                proof {
                    lemma_failure_persists(entries(list@), i + 1);
                }
                return Err(field);
            },
        }
    }
    assert(entries(list@).take(list.len() as int) == entries(list@));
    Ok(users)
}

impl Config {
    /// Resolves a document into a configuration, or reports the first field
    /// without a fallback that the document leaves out.
    pub fn from_document(doc: &ConfigDocument) -> (outcome: Result<Config, MissingField>)
        ensures
            viewed(outcome) == resolve(doc@),
    {
        let telegram = match &doc.telegram {
            None => return Err(MissingField::Telegram),
            Some(section) => match section.resolve() {
                Ok(telegram) => telegram,
                Err(field) => return Err(field),
            },
        };
        let ai = match &doc.ai {
            None => return Err(MissingField::Ai),
            Some(section) => match section.resolve() {
                Ok(ai) => ai,
                Err(field) => return Err(field),
            },
        };
        let users: Vec<TrackedUser> = match &doc.users {
            None => {
                let none: Vec<TrackedUser> = Vec::new();
                assert(roster(none@) =~= Seq::<TrackedUserView>::empty());
                none
            },
            Some(list) => match resolve_roster(list) {
                Ok(users) => users,
                Err(field) => return Err(field),
            },
        };
        let settings = match &doc.settings {
            None => Settings::default(),
            Some(section) => section.resolve(),
        };
        Ok(Config { telegram, ai, settings, users })
    }
}

/// The section that states every field of the credentials.
pub open spec fn telegram_section_of(telegram: TelegramConfigView) -> TelegramSectionView {
    TelegramSectionView {
        api_id: Some(telegram.api_id),
        api_hash: Some(telegram.api_hash),
        bot_token: Some(telegram.bot_token),
    }
}

/// The section that states every field of the backend settings.
pub open spec fn ai_section_of(ai: AiConfigView) -> AiSectionView {
    AiSectionView {
        api_key: Some(ai.api_key),
        api_url: Some(ai.api_url),
        model: Some(ai.model),
        models: Some(ai.models),
        temperature_bits: Some(ai.temperature_bits),
    }
}

/// The section that states every field of the tuning.
pub open spec fn settings_section_of(settings: SettingsView) -> SettingsSectionView {
    SettingsSectionView {
        session_file: Some(settings.session_file),
        debounce_seconds: Some(settings.debounce_seconds),
        history_limit: Some(settings.history_limit),
    }
}

/// The entry that states every field of a participant.
pub open spec fn entry_of(user: TrackedUserView) -> UserEntryView {
    UserEntryView {
        id: Some(user.id),
        name: Some(user.name),
        system_prompt: Some(user.system_prompt),
    }
}

/// The entries that state a roster, in its order.
pub open spec fn entries_of(users: Seq<TrackedUserView>) -> Seq<UserEntryView> {
    Seq::new(users.len(), |i: int| entry_of(users[i]))
}

/// The document that states every field of a configuration.
pub open spec fn document_of(config: ConfigView) -> ConfigDocumentView {
    ConfigDocumentView {
        telegram: Some(telegram_section_of(config.telegram)),
        ai: Some(ai_section_of(config.ai)),
        settings: Some(settings_section_of(config.settings)),
        users: Some(entries_of(config.users)),
    }
}

impl TelegramConfig {
    /// The section that states these credentials.
    pub fn to_section(&self) -> (section: TelegramSection)
        ensures
            section@ == telegram_section_of(self@),
    {
        TelegramSection {
            api_id: Some(self.api_id),
            api_hash: Some(self.api_hash.clone()),
            bot_token: Some(self.bot_token.clone()),
        }
    }
}

impl AiConfig {
    /// The section that states these backend settings.
    pub fn to_section(&self) -> (section: AiSection)
        ensures
            section@ == ai_section_of(self@),
    {
        let models = self.models.clone();
        AiSection {
            api_key: Some(self.api_key.clone()),
            api_url: Some(self.api_url.clone()),
            model: Some(self.model.clone()),
            models: Some(models),
            temperature_bits: Some(self.temperature_bits),
        }
    }
}

impl Settings {
    /// The section that states this tuning.
    pub fn to_section(&self) -> (section: SettingsSection)
        ensures
            section@ == settings_section_of(self@),
    {
        SettingsSection {
            session_file: Some(self.session_file.clone()),
            debounce_seconds: Some(self.debounce_seconds),
            history_limit: Some(self.history_limit),
        }
    }
}

impl TrackedUser {
    /// The entry that states this participant.
    pub fn to_entry(&self) -> (entry: UserEntry)
        ensures
            entry@ == entry_of(self@),
    {
        UserEntry {
            id: Some(self.id),
            name: Some(self.name.clone()),
            system_prompt: Some(self.system_prompt.clone()),
        }
    }
}

impl Config {
    /// Writes the configuration out as a document in which nothing is absent.
    pub fn to_document(&self) -> (doc: ConfigDocument)
        ensures
            doc@ == document_of(self@),
    {
        let mut list: Vec<UserEntry> = Vec::new();
        for i in 0..self.users.len()
            invariant
                list@.len() == i,
                forall|j: int| 0 <= j < i ==> (#[trigger] list@[j])@ == entry_of(self.users@[j]@),
        {
            list.push(self.users[i].to_entry());
        }
        assert(entries(list@) =~= entries_of(roster(self.users@)));
        ConfigDocument {
            telegram: Some(self.telegram.to_section()),
            ai: Some(self.ai.to_section()),
            settings: Some(self.settings.to_section()),
            users: Some(list),
        }
    }
}

/// A roster written out as entries resolves to itself.
proof fn lemma_entries_round_trip(users: Seq<TrackedUserView>)
    ensures
        resolve_entries(entries_of(users)) == Ok::<Seq<TrackedUserView>, MissingField>(users),
    decreases users.len(),
{
    if users.len() == 0 {
        assert(users == Seq::<TrackedUserView>::empty());
    } else {
        let front = users.drop_last();
        lemma_entries_round_trip(front);
        assert(entries_of(users).drop_last() == entries_of(front));
        assert(front.push(users.last()) == users);
    }
}

/// Writing a configuration out as a document and resolving that document
/// gives the configuration back, field for field and entry for entry.
pub proof fn lemma_document_round_trip(config: ConfigView)
    ensures
        resolve(document_of(config)) == Ok::<ConfigView, MissingField>(config),
{
    lemma_entries_round_trip(config.users);
}

/// In a document that resolves, whatever is left out takes its fallback: the
/// session file is `userbot.session`, the debounce interval one second, the
/// history limit 25 messages, the temperature 1.5 (bits `0x3FC00000`), and an
/// absent model, model list or participant list is empty. A field absent from
/// a section that is present falls back just as a field of an absent section.
pub proof fn lemma_absent_fields_take_defaults(doc: ConfigDocumentView)
    requires
        resolve(doc) is Ok,
    ensures
        resolve(doc) matches Ok(config) && doc.ai matches Some(ai) && {
            &&& (doc.settings matches Some(section) ==> section.session_file is None)
                ==> config.settings.session_file == "userbot.session"@
            &&& (doc.settings matches Some(section) ==> section.debounce_seconds is None)
                ==> config.settings.debounce_seconds == 1
            &&& (doc.settings matches Some(section) ==> section.history_limit is None)
                ==> config.settings.history_limit == 25
            &&& ai.temperature_bits is None ==> config.ai.temperature_bits == 0x3FC0_0000
            &&& ai.model is None ==> config.ai.model == Seq::<char>::empty()
            &&& ai.models is None ==> config.ai.models == Seq::<Seq<char>>::empty()
            &&& doc.users is None ==> config.users == Seq::<TrackedUserView>::empty()
        },
{
}

} // verus!
