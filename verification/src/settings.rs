//! The settings of the pipeline, and what loading and saving them comes to.
//!
//! The settings live in one file of the user's configuration directory. This
//! module reads and writes nothing: the caller looks at the disk and says
//! what it found, and the module says what that means.

use vstd::prelude::*;
use vstd::string::*;

verus! {

/// The namespace that is used where none was set.
pub const DEFAULT_NAMESPACE: &'static str = "book";

/// The name of the settings file inside the configuration directory.
pub const SETTINGS_FILE: &'static str = "settings.json";

/// The three names by which the configuration directory of the application is
/// found: qualifier, organisation and application.
pub const APP_QUALIFIER: &'static str = "com";

pub const APP_ORGANIZATION: &'static str = "open-source-solutions";

pub const APP_NAME: &'static str = "vectore-store-uploader";

/// The four settings of the pipeline.
#[derive(Debug)]
pub struct Settings {
    /// The credential of the embedding service.
    pub openai_api_key: String,
    /// The credential of the vector store.
    pub pinecone_api_key: String,
    /// The host of the index in the vector store.
    pub pinecone_index_host: String,
    /// The namespace that all records of an upload belong to.
    pub pinecone_namespace: String,
}

/// What a [`Settings`] value stands for.
pub struct SettingsView {
    pub openai_api_key: Seq<char>,
    pub pinecone_api_key: Seq<char>,
    pub pinecone_index_host: Seq<char>,
    pub pinecone_namespace: Seq<char>,
}

impl View for Settings {
    type V = SettingsView;

    open spec fn view(&self) -> SettingsView {
        SettingsView {
            openai_api_key: self.openai_api_key@,
            pinecone_api_key: self.pinecone_api_key@,
            pinecone_index_host: self.pinecone_index_host@,
            pinecone_namespace: self.pinecone_namespace@,
        }
    }
}

impl Clone for Settings {
    fn clone(&self) -> (copy: Settings)
        ensures
            copy@ == self@,
    {
        Settings {
            openai_api_key: self.openai_api_key.clone(),
            pinecone_api_key: self.pinecone_api_key.clone(),
            pinecone_index_host: self.pinecone_index_host.clone(),
            pinecone_namespace: self.pinecone_namespace.clone(),
        }
    }
}

/// The settings before any were saved: no credential, no host, and the
/// default namespace.
pub open spec fn default_settings() -> SettingsView {
    SettingsView {
        openai_api_key: Seq::empty(),
        pinecone_api_key: Seq::empty(),
        pinecone_index_host: Seq::empty(),
        pinecone_namespace: DEFAULT_NAMESPACE@,
    }
}

impl Default for Settings {
    fn default() -> (settings: Settings)
        ensures
            settings@ == default_settings(),
    {
        Settings {
            openai_api_key: String::new(),
            pinecone_api_key: String::new(),
            pinecone_index_host: String::new(),
            pinecone_namespace: String::from_str(DEFAULT_NAMESPACE),
        }
    }
}

/// What the caller found when it went to load the settings.
#[derive(Debug)]
pub enum Found {
    /// The place of the settings file could not be determined.
    NoPath,
    /// There is no settings file yet.
    NoFile,
    /// The file is there and could not be read; with the reason.
    Unreadable(String),
    /// The file was read and its content is no settings; with the reason.
    Malformed(String),
    /// The file holds these settings.
    Stored(Settings),
}

/// What came of the caller's attempt to save the settings.
#[derive(Debug)]
pub enum Saved {
    /// The place of the settings file could not be determined.
    NoPath,
    /// The directory of the file could not be created; with the reason.
    NoDirectory(String),
    /// The settings could not be put into the form of the file; with the
    /// reason.
    NotEncoded(String),
    /// The file could not be written; with the reason.
    NotWritten(String),
    /// The file was written.
    Written,
}

/// The report of a settings file whose place is unknown.
pub open spec fn no_path_report() -> Seq<char> {
    "Не удалось определить путь для настроек"@
}

/// The result of loading, as plain text and plain settings.
pub open spec fn loaded(found: Found) -> Result<SettingsView, Seq<char>> {
    match found {
        Found::NoPath => Err(no_path_report()),
        Found::NoFile => Ok(default_settings()),
        Found::Unreadable(why) => Err("Ошибка чтения файла настроек: "@ + why@),
        Found::Malformed(why) => Err("Ошибка парсинга настроек: "@ + why@),
        Found::Stored(settings) => Ok(settings@),
    }
}

/// The result of saving, as plain text.
pub open spec fn saved(outcome: Saved) -> Result<(), Seq<char>> {
    match outcome {
        Saved::NoPath => Err(no_path_report()),
        Saved::NoDirectory(why) => Err("Ошибка создания директории настроек: "@ + why@),
        Saved::NotEncoded(why) => Err("Ошибка сериализации настроек: "@ + why@),
        Saved::NotWritten(why) => Err("Ошибка сохранения настроек: "@ + why@),
        Saved::Written => Ok(()),
    }
}

/// The result of loading or saving with the settings or the report as plain
/// values.
pub open spec fn load_view(result: Result<Settings, String>) -> Result<SettingsView, Seq<char>> {
    match result {
        Ok(settings) => Ok(settings@),
        Err(why) => Err(why@),
    }
}

pub open spec fn save_view(result: Result<(), String>) -> Result<(), Seq<char>> {
    match result {
        Ok(done) => Ok(done),
        Err(why) => Err(why@),
    }
}

/// Loads and saves the settings, as far as that is a decision.
pub struct SettingsManager;

impl SettingsManager {
    /// The settings that loading gives, from what the caller found. Where no
    /// file exists yet, these are the default settings. A file that cannot be
    /// read, or whose content is no settings, is an error, as is a place that
    /// cannot be determined; the report ends with the reason given.
    pub fn load(found: Found) -> (result: Result<Settings, String>)
        ensures
            load_view(result) == loaded(found),
    {
        match found {
            Found::NoPath => Err(String::from_str("Не удалось определить путь для настроек")),
            Found::NoFile => Ok(Settings::default()),
            Found::Unreadable(why) => Err(
                String::from_str("Ошибка чтения файла настроек: ").concat(why.as_str()),
            ),
            Found::Malformed(why) => Err(
                String::from_str("Ошибка парсинга настроек: ").concat(why.as_str()),
            ),
            Found::Stored(settings) => Ok(settings),
        }
    }

    /// The result of saving, from what came of the caller's attempt: done
    /// where the file was written, and else the report of the step that
    /// failed, which ends with the reason given.
    pub fn save(outcome: Saved) -> (result: Result<(), String>)
        ensures
            save_view(result) == saved(outcome),
    {
        match outcome {
            Saved::NoPath => Err(String::from_str("Не удалось определить путь для настроек")),
            Saved::NoDirectory(why) => Err(
                String::from_str("Ошибка создания директории настроек: ").concat(why.as_str()),
            ),
            Saved::NotEncoded(why) => Err(
                String::from_str("Ошибка сериализации настроек: ").concat(why.as_str()),
            ),
            Saved::NotWritten(why) => Err(
                String::from_str("Ошибка сохранения настроек: ").concat(why.as_str()),
            ),
            Saved::Written => Ok(()),
        }
    }
}

} // verus!
