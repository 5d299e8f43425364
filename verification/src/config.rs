//! The configuration of every provider, the errors of loading and saving it,
//! and its two passages between a value and the text of its file.

use crate::clients::deepseek::DeepSeekConfig;
use crate::clients::gemini::GeminiConfig;
use crate::clients::openai::OpenAiConfig;
use crate::clients::ProviderSettings;
use crate::document::{document_of, well_typed, Document, DocumentView};
use crate::laws::{default_fill_is_total, malformed_field_is_rejected};
use crate::merge::merged_settings;
use crate::text::join;
use crate::toml_tree::{
    integer_value, parse_fault_text, parse_table, render_fault_text, table_entries, table_text,
    table_value, text_value, toml_parse, toml_text, TomlNode,
};
use crate::views::result_view;
use vstd::prelude::*;

verus! {

/// Why the configuration could not be loaded or saved.
#[derive(Debug, Clone, PartialEq, Eq)]
pub enum ConfigError {
    /// An I/O failure: the directory could not be created, or the file could
    /// not be written.
    IoError(String),
    /// A serialization failure: a section or a field that is present does not
    /// hold what it must, or the configuration cannot be written as a document.
    SerializationError(String),
    /// A build failure: the file cannot be read as a well-formed document.
    ConfigBuildingError(String),
    /// An unhandled failure: anything else.
    UnhandledError(String),
}

/// A `ConfigError` as mathematical values.
pub enum ConfigErrorView {
    IoError(Seq<char>),
    SerializationError(Seq<char>),
    ConfigBuildingError(Seq<char>),
    UnhandledError(Seq<char>),
}

impl View for ConfigError {
    type V = ConfigErrorView;

    open spec fn view(&self) -> ConfigErrorView {
        match self {
            ConfigError::IoError(detail) => ConfigErrorView::IoError(detail@),
            ConfigError::SerializationError(detail) => ConfigErrorView::SerializationError(
                detail@,
            ),
            ConfigError::ConfigBuildingError(detail) => ConfigErrorView::ConfigBuildingError(
                detail@,
            ),
            ConfigError::UnhandledError(detail) => ConfigErrorView::UnhandledError(detail@),
        }
    }
}

impl ConfigErrorView {
    /// The message of the error: what kind it is, then its detail.
    pub open spec fn message(self) -> Seq<char> {
        match self {
            ConfigErrorView::IoError(detail) => "I/O error: "@ + detail,
            ConfigErrorView::SerializationError(detail) => "Serialization error: "@ + detail,
            ConfigErrorView::ConfigBuildingError(detail) => "Error while building config: "@
                + detail,
            ConfigErrorView::UnhandledError(detail) => "Unhandled error: "@ + detail,
        }
    }
}

impl ConfigError {
    /// The message of the error, for people to read.
    pub fn message(&self) -> (text: String)
        ensures
            text@ == self@.message(),
    {
        match self {
            ConfigError::IoError(detail) => join("I/O error: ", detail.as_str()),
            ConfigError::SerializationError(detail) => join(
                "Serialization error: ",
                detail.as_str(),
            ),
            ConfigError::ConfigBuildingError(detail) => join(
                "Error while building config: ",
                detail.as_str(),
            ),
            ConfigError::UnhandledError(detail) => join("Unhandled error: ", detail.as_str()),
        }
    }
}

/// The configuration of every provider.
#[derive(Debug, PartialEq, Eq)]
pub struct AppConfig {
    pub openai: OpenAiConfig,
    pub deepseek: DeepSeekConfig,
    pub gemini: GeminiConfig,
}

/// An `AppConfig` as mathematical values.
pub struct AppConfigView {
    pub openai: ProviderSettings,
    pub deepseek: ProviderSettings,
    pub gemini: ProviderSettings,
}

impl View for AppConfig {
    type V = AppConfigView;

    open spec fn view(&self) -> AppConfigView {
        AppConfigView { openai: self.openai@, deepseek: self.deepseek@, gemini: self.gemini@ }
    }
}

impl AppConfig {
    /// The configuration in which every provider has its defaults.
    pub open spec fn defaults() -> AppConfigView {
        AppConfigView {
            openai: OpenAiConfig::defaults(),
            deepseek: DeepSeekConfig::defaults(),
            gemini: GeminiConfig::defaults(),
        }
    }
}

impl Default for AppConfig {
    fn default() -> (config: Self)
        ensures
            config@ == AppConfig::defaults(),
    {
        AppConfig {
            openai: OpenAiConfig::default(),
            deepseek: DeepSeekConfig::default(),
            gemini: GeminiConfig::default(),
        }
    }
}

impl AppConfig {
    /// Whether two configurations hold the same values.
    pub fn same_as(&self, other: &AppConfig) -> (same: bool)
        ensures
            same == (self@ == other@),
    {
        self.openai.api_url == other.openai.api_url && self.openai.default_model
            == other.openai.default_model && self.openai.timeout_secs
            == other.openai.timeout_secs && self.deepseek.api_url == other.deepseek.api_url
            && self.deepseek.default_model == other.deepseek.default_model
            && self.deepseek.timeout_secs == other.deepseek.timeout_secs && self.gemini.api_url
            == other.gemini.api_url && self.gemini.default_model == other.gemini.default_model
            && self.gemini.timeout_secs == other.gemini.timeout_secs
    }
}

impl Clone for AppConfig {
    fn clone(&self) -> (copy: Self)
        ensures
            copy@ == self@,
    {
        AppConfig {
            openai: self.openai.clone(),
            deepseek: self.deepseek.clone(),
            gemini: self.gemini.clone(),
        }
    }
}

/// The configuration that a document gives once every provider's section is
/// merged over that provider's defaults. The first section that is wrong, in
/// the order `openai`, `deepseek`, `gemini`, gives the error.
pub open spec fn merged(document: DocumentView) -> Result<AppConfigView, ConfigErrorView> {
    match merged_settings(document.openai, OpenAiConfig::defaults(), "openai"@) {
        Err(error) => Err(error),
        Ok(openai) => match merged_settings(
            document.deepseek,
            DeepSeekConfig::defaults(),
            "deepseek"@,
        ) {
            Err(error) => Err(error),
            Ok(deepseek) => match merged_settings(
                document.gemini,
                GeminiConfig::defaults(),
                "gemini"@,
            ) {
                Err(error) => Err(error),
                Ok(gemini) => Ok(AppConfigView { openai, deepseek, gemini }),
            },
        },
    }
}

/// What loading a text gives: a text that is no TOML document is refused with
/// the parser's message, and a document is merged over the defaults.
pub open spec fn parsed(text: Seq<char>) -> Result<AppConfigView, ConfigErrorView> {
    match toml_parse(text) {
        Err(message) => Err(ConfigErrorView::ConfigBuildingError(message)),
        Ok(entries) => merged(document_of(entries)),
    }
}

impl AppConfig {
    /// Fills what a document omits from the defaults, for every provider.
    /// Succeeds exactly when no section and no field that is present is of the
    /// wrong kind.
    pub fn from_document(document: &Document) -> (r: Result<AppConfig, ConfigError>)
        ensures
            result_view(r) == merged(document@),
            r is Ok <==> well_typed(document@),
    {
        proof {
            if well_typed(document@) {
                default_fill_is_total(document@);
            } else {
                malformed_field_is_rejected(document@);
            }
        }
        let openai = OpenAiConfig::from_section(&document.openai)?;
        let deepseek = DeepSeekConfig::from_section(&document.deepseek)?;
        let gemini = GeminiConfig::from_section(&document.gemini)?;
        Ok(AppConfig { openai, deepseek, gemini })
    }
}

/// Reads a configuration from the text of its file.
pub fn parse(text: &str) -> (r: Result<AppConfig, ConfigError>)
    ensures
        result_view(r) == parsed(text@),
        r is Ok <==> (toml_parse(text@) matches Ok(entries) && well_typed(document_of(entries))),
{
    match parse_table(text) {
        Err(error) => Err(ConfigError::ConfigBuildingError(parse_fault_text(&error))),
        Ok(root) => {
            let document = Document::read(&root);
            AppConfig::from_document(&document)
        },
    }
}

/// The entries of the section that holds a provider's settings.
pub open spec fn settings_entries(settings: ProviderSettings) -> Map<Seq<char>, TomlNode> {
    Map::<Seq<char>, TomlNode>::empty().insert(
        "api_url"@,
        TomlNode::Text(settings.api_url),
    ).insert("default_model"@, TomlNode::Text(settings.default_model)).insert(
        "timeout_secs"@,
        TomlNode::Integer(settings.timeout_secs as int),
    )
}

/// The entries of the document that holds a configuration: one section for
/// each provider, every field written out.
pub open spec fn entries_of(config: AppConfigView) -> Map<Seq<char>, TomlNode> {
    Map::<Seq<char>, TomlNode>::empty().insert(
        "openai"@,
        TomlNode::Table(settings_entries(config.openai)),
    ).insert("deepseek"@, TomlNode::Table(settings_entries(config.deepseek))).insert(
        "gemini"@,
        TomlNode::Table(settings_entries(config.gemini)),
    )
}

/// Whether a number of seconds can stand in a document: a TOML integer is signed
/// and has 64 bits.
pub open spec fn writable_seconds(seconds: u64) -> bool {
    seconds <= i64::MAX
}

/// Whether every provider's number of seconds can stand in a document.
pub open spec fn representable(config: AppConfigView) -> bool {
    writable_seconds(config.openai.timeout_secs) && writable_seconds(config.deepseek.timeout_secs)
        && writable_seconds(config.gemini.timeout_secs)
}

/// The error for a provider whose number of seconds cannot stand in a document.
pub open spec fn unwritable(section: Seq<char>) -> ConfigErrorView {
    ConfigErrorView::SerializationError(
        section + ".timeout_secs: too large for a TOML integer"@,
    )
}

/// The error for a text that was written and does not read back as the
/// configuration it was written for.
pub open spec fn unfaithful() -> ConfigErrorView {
    ConfigErrorView::SerializationError(
        "the written document does not read back as the configuration"@,
    )
}

/// What writing a configuration out gives: the text of its document, which
/// reads back as the configuration; or an error for the first provider, in
/// the order `openai`, `deepseek`, `gemini`, whose number of seconds cannot be
/// written; or the serializer's message; or an error for a text that does not
/// read back as the configuration.
pub open spec fn rendered(config: AppConfigView) -> Result<Seq<char>, ConfigErrorView> {
    if !writable_seconds(config.openai.timeout_secs) {
        Err(unwritable("openai"@))
    } else if !writable_seconds(config.deepseek.timeout_secs) {
        Err(unwritable("deepseek"@))
    } else if !writable_seconds(config.gemini.timeout_secs) {
        Err(unwritable("gemini"@))
    } else {
        match toml_text(entries_of(config)) {
            Ok(text) => if parsed(text) == Ok::<AppConfigView, ConfigErrorView>(config) {
                Ok(text)
            } else {
                Err(unfaithful())
            },
            Err(message) => Err(ConfigErrorView::SerializationError(message)),
        }
    }
}

/// Builds the section that holds a provider's settings.
fn settings_table(name: &str, api_url: &str, default_model: &str, timeout_secs: u64) -> (r:
    Result<toml::Table, ConfigError>)
    ensures
        match r {
            Ok(table) => writable_seconds(timeout_secs) && table_entries(table)
                == settings_entries(
                ProviderSettings { api_url: api_url@, default_model: default_model@, timeout_secs },
            ),
            Err(error) => !writable_seconds(timeout_secs) && error@ == unwritable(name@),
        },
{
    if timeout_secs > i64::MAX as u64 {
        return Err(
            ConfigError::SerializationError(
                join(name, ".timeout_secs: too large for a TOML integer"),
            ),
        );
    }
    let mut table = toml::Table::new();
    table.insert("api_url".to_owned(), text_value(api_url.to_owned()));
    table.insert("default_model".to_owned(), text_value(default_model.to_owned()));
    table.insert("timeout_secs".to_owned(), integer_value(timeout_secs as i64));
    Ok(table)
}

/// Writes a configuration out as the text of its file. The text is read back
/// before it is handed out: a text that comes out of here reads as the
/// configuration it was written for.
pub fn render(config: &AppConfig) -> (r: Result<String, ConfigError>)
    ensures
        result_view(r) == rendered(config@),
        r matches Ok(text) ==> parsed(text@) == Ok::<AppConfigView, ConfigErrorView>(config@),
        r is Ok <==> (representable(config@) && (toml_text(entries_of(config@)) matches Ok(text)
            && parsed(text) == Ok::<AppConfigView, ConfigErrorView>(config@))),
{
    let openai = settings_table(
        "openai",
        config.openai.api_url.as_str(),
        config.openai.default_model.as_str(),
        config.openai.timeout_secs,
    )?;
    let deepseek = settings_table(
        "deepseek",
        config.deepseek.api_url.as_str(),
        config.deepseek.default_model.as_str(),
        config.deepseek.timeout_secs,
    )?;
    let gemini = settings_table(
        "gemini",
        config.gemini.api_url.as_str(),
        config.gemini.default_model.as_str(),
        config.gemini.timeout_secs,
    )?;
    let mut root = toml::Table::new();
    root.insert("openai".to_owned(), table_value(openai));
    root.insert("deepseek".to_owned(), table_value(deepseek));
    root.insert("gemini".to_owned(), table_value(gemini));
    let text = match table_text(&root) {
        Ok(text) => text,
        Err(error) => {
            return Err(ConfigError::SerializationError(render_fault_text(&error)));
        },
    };
    let faithful = match parse(text.as_str()) {
        Ok(back) => back.same_as(config),
        Err(_) => false,
    };
    if faithful {
        Ok(text)
    } else {
        Err(
            ConfigError::SerializationError(
                "the written document does not read back as the configuration".to_owned(),
            ),
        )
    }
}

} // verus!
