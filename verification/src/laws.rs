//! What holds of the library whatever its inputs are: of documents and their
//! merge over the defaults, of loads and saves, and of prompt exchanges.

use crate::clients::deepseek::DeepSeekConfig;
use crate::clients::gemini::GeminiConfig;
use crate::clients::openai::OpenAiConfig;
use crate::clients::{is_success, replied, ClientErrorView, ProviderSettings};
use crate::config::{
    entries_of, merged, parsed, rendered, representable, settings_entries, writable_seconds,
    AppConfig, AppConfigView, ConfigErrorView,
};
use crate::document::{
    document_of, lookup, section_fits, section_of, well_typed, DocumentView, EntryView, SectionView,
};
use crate::merge::merged_settings;
use crate::store::{
    load_rank, load_run, load_run_from, load_step, save_rank, save_run, save_run_from, save_step,
    Disk, LoadState, SaveActionView, SaveState, StoreEventView,
};
use crate::toml_tree::{toml_parse, TomlNode};
use vstd::prelude::*;

verus! {

/// A text field is filled: it is the default where the entry is absent and the
/// entry's string where it is present.
pub open spec fn text_filled(entry: EntryView, default: Seq<char>, value: Seq<char>) -> bool {
    match entry {
        EntryView::Absent => value == default,
        EntryView::Text(text) => value == text,
        _ => false,
    }
}

/// A field of seconds is filled: it is the default where the entry is absent
/// and the entry's number where it is present.
pub open spec fn seconds_filled(entry: EntryView, default: u64, value: u64) -> bool {
    match entry {
        EntryView::Absent => value == default,
        EntryView::Integer(number) => value == number,
        _ => false,
    }
}

/// A provider's settings are filled from its section: all defaults where the
/// section is absent, and field by field where it is present.
pub open spec fn section_filled(
    section: SectionView,
    defaults: ProviderSettings,
    settings: ProviderSettings,
) -> bool {
    match section {
        SectionView::Absent => settings == defaults,
        SectionView::Malformed => false,
        SectionView::Present(fields) => text_filled(
            fields.api_url,
            defaults.api_url,
            settings.api_url,
        ) && text_filled(fields.default_model, defaults.default_model, settings.default_model)
            && seconds_filled(fields.timeout_secs, defaults.timeout_secs, settings.timeout_secs),
    }
}

/// A configuration is filled from a document, provider by provider.
pub open spec fn filled(document: DocumentView, config: AppConfigView) -> bool {
    section_filled(document.openai, OpenAiConfig::defaults(), config.openai) && section_filled(
        document.deepseek,
        DeepSeekConfig::defaults(),
        config.deepseek,
    ) && section_filled(document.gemini, GeminiConfig::defaults(), config.gemini)
}

/// Merging a section that fits succeeds and fills the settings; merging one
/// that does not fit is a serialization error.
pub proof fn section_merge_fills(section: SectionView, defaults: ProviderSettings, name: Seq<char>)
    ensures
        section_fits(section) ==> (merged_settings(section, defaults, name) matches Ok(settings)
            && section_filled(section, defaults, settings)),
        !section_fits(section) ==> (merged_settings(section, defaults, name) matches Err(error)
            && error is SerializationError),
{
}

/// Default fill is total: a document in which every field that is present
/// holds a value of its kind, whatever fields and sections it omits, gives a
/// configuration, in which every omitted field has its default and every
/// present field has the document's value, for all providers.
pub proof fn default_fill_is_total(document: DocumentView)
    requires
        well_typed(document),
    ensures
        merged(document) matches Ok(config) && filled(document, config),
{
    section_merge_fills(document.openai, OpenAiConfig::defaults(), "openai"@);
    section_merge_fills(document.deepseek, DeepSeekConfig::defaults(), "deepseek"@);
    section_merge_fills(document.gemini, GeminiConfig::defaults(), "gemini"@);
}

/// A malformed field is rejected: a document in which a section is no table,
/// or a field that is present holds a value of the wrong kind, gives a
/// serialization error, never a configuration with the default in its place.
pub proof fn malformed_field_is_rejected(document: DocumentView)
    requires
        !well_typed(document),
    ensures
        merged(document) matches Err(error) && error is SerializationError,
{
    section_merge_fills(document.openai, OpenAiConfig::defaults(), "openai"@);
    section_merge_fills(document.deepseek, DeepSeekConfig::defaults(), "deepseek"@);
    section_merge_fills(document.gemini, GeminiConfig::defaults(), "gemini"@);
}

/// Loading a text gives a configuration exactly when the text is a TOML
/// document and that document is well typed; the configuration is then filled
/// from it. A text that is no document is a building error, and a document
/// that is not well typed a serialization error.
pub proof fn load_outcomes(text: Seq<char>)
    ensures
        match toml_parse(text) {
            Err(message) => parsed(text) == Err::<AppConfigView, ConfigErrorView>(
                ConfigErrorView::ConfigBuildingError(message),
            ),
            Ok(entries) => if well_typed(document_of(entries)) {
                parsed(text) matches Ok(config) && filled(document_of(entries), config)
            } else {
                parsed(text) matches Err(error) && error is SerializationError
            },
        },
{
    if let Ok(entries) = toml_parse(text) {
        if well_typed(document_of(entries)) {
            default_fill_is_total(document_of(entries));
        } else {
            malformed_field_is_rejected(document_of(entries));
        }
    }
}

/// The three keys of a section are distinct, and so are the three names of
/// the providers.
pub proof fn keys_are_distinct()
    ensures
        "api_url"@ != "default_model"@,
        "api_url"@ != "timeout_secs"@,
        "default_model"@ != "timeout_secs"@,
        "openai"@ != "deepseek"@,
        "openai"@ != "gemini"@,
        "deepseek"@ != "gemini"@,
{
    reveal_strlit("api_url");
    reveal_strlit("default_model");
    reveal_strlit("timeout_secs");
    reveal_strlit("openai");
    reveal_strlit("deepseek");
    reveal_strlit("gemini");
    assert("api_url"@.len() == 7);
    assert("default_model"@.len() == 13);
    assert("timeout_secs"@.len() == 12);
    assert("openai"@.len() == 6);
    assert("deepseek"@.len() == 8);
    assert("openai"@[0] == 'o');
    assert("gemini"@[0] == 'g');
}

/// A section that was written from settings reads back as those settings,
/// whatever the defaults are, where the number of seconds can be written.
pub proof fn section_round_trip(
    settings: ProviderSettings,
    defaults: ProviderSettings,
    name: Seq<char>,
)
    requires
        writable_seconds(settings.timeout_secs),
    ensures
        merged_settings(
            section_of(Some(TomlNode::Table(settings_entries(settings)))),
            defaults,
            name,
        ) == Ok::<ProviderSettings, ConfigErrorView>(settings),
{
    keys_are_distinct();
    let entries = settings_entries(settings);
    assert(lookup(entries, "api_url"@) == Some(TomlNode::Text(settings.api_url)));
    assert(lookup(entries, "default_model"@) == Some(TomlNode::Text(settings.default_model)));
    assert(lookup(entries, "timeout_secs"@) == Some(
        TomlNode::Integer(settings.timeout_secs as int),
    ));
}

/// The document that is written for a configuration reads back as that
/// configuration, for every configuration whose numbers of seconds can be
/// written.
pub proof fn document_round_trip(config: AppConfigView)
    requires
        representable(config),
    ensures
        merged(document_of(entries_of(config))) == Ok::<AppConfigView, ConfigErrorView>(config),
{
    keys_are_distinct();
    let entries = entries_of(config);
    assert(lookup(entries, "openai"@) == Some(TomlNode::Table(settings_entries(config.openai))));
    assert(lookup(entries, "deepseek"@) == Some(
        TomlNode::Table(settings_entries(config.deepseek)),
    ));
    assert(lookup(entries, "gemini"@) == Some(TomlNode::Table(settings_entries(config.gemini))));
    section_round_trip(config.openai, OpenAiConfig::defaults(), "openai"@);
    section_round_trip(config.deepseek, DeepSeekConfig::defaults(), "deepseek"@);
    section_round_trip(config.gemini, GeminiConfig::defaults(), "gemini"@);
}

/// The round trip: the text that is written for a configuration reads back as
/// that configuration, for every configuration that can be written at all.
pub proof fn round_trip(config: AppConfigView)
    ensures
        rendered(config) matches Ok(text) ==> parsed(text) == Ok::<AppConfigView, ConfigErrorView>(
            config,
        ),
{
}

/// Every step of a load either ends the run or takes it further, whatever the
/// driver reports: a run is over after five steps at most, and it is over
/// exactly when it says so.
pub proof fn load_advances(state: LoadState, event: StoreEventView)
    ensures
        load_step(state, event).1 is Finish <==> load_step(state, event).0 == LoadState::Finished,
        !(load_step(state, event).1 is Finish) ==> load_rank(load_step(state, event).0)
            > load_rank(state),
{
}

/// Every step of a save either ends the run or takes it further, whatever the
/// driver reports: a run is over after four steps at most, and it is over
/// exactly when it says so.
pub proof fn save_advances(state: SaveState, config: AppConfigView, event: StoreEventView)
    ensures
        save_step(state, config, event).1 is Finish <==> save_step(state, config, event).0
            == SaveState::Finished,
        !(save_step(state, config, event).1 is Finish) ==> save_rank(
            save_step(state, config, event).0,
        ) > save_rank(state),
{
}

/// A save asks for the configuration file to be replaced only when the
/// temporary file has just been written whole, and what it asks to be written
/// there is the text of the configuration, which reads back as it.
pub proof fn save_replaces_only_what_was_written(
    state: SaveState,
    config: AppConfigView,
    event: StoreEventView,
)
    ensures
        save_step(state, config, event).1 is Replace ==> state == SaveState::WritingTemporary
            && event is Completed,
        save_step(state, config, event).1 matches SaveActionView::WriteTemporary(text)
            ==> rendered(config) == Ok::<Seq<char>, ConfigErrorView>(text) && parsed(text) == Ok::<
            AppConfigView,
            ConfigErrorView,
        >(config),
{
}

/// A load on a disk without faults always comes to a result. Where the file
/// exists, the load leaves the disk as it was and gives what the file's text
/// reads as.
pub proof fn load_reads_what_is_there(disk: Disk)
    ensures
        load_run(disk).1 is Some,
        disk.file matches Some(text) ==> load_run(disk) == (disk, Some(parsed(text))),
{
    reveal_with_fuel(load_run_from, 5);
}

/// The bootstrap is idempotent: of two loads in a row on a disk without a
/// configuration file, the second leaves the disk exactly as the first left
/// it and gives the same result as the first.
pub proof fn bootstrap_is_idempotent(disk: Disk)
    requires
        disk.file is None,
    ensures
        load_run(load_run(disk).0).0 == load_run(disk).0,
        load_run(load_run(disk).0).1 == load_run(disk).1,
        load_run(disk).1 is Some,
{
    reveal_with_fuel(load_run_from, 5);
}

/// The first load on a disk without a configuration file leaves there the text
/// of the defaults and gives the defaults, unless the defaults cannot be
/// written out, which leaves the disk as it was.
pub proof fn bootstrap_writes_the_defaults(disk: Disk)
    requires
        disk.file is None,
    ensures
        match rendered(AppConfig::defaults()) {
            Ok(text) => load_run(disk) == (
                Disk { file: Some(text), temporary: disk.temporary },
                Some(Ok::<AppConfigView, ConfigErrorView>(AppConfig::defaults())),
            ),
            Err(error) => load_run(disk) == (
                disk,
                Some(Err::<AppConfigView, ConfigErrorView>(error)),
            ),
        },
{
    reveal_with_fuel(load_run_from, 5);
}

/// A save on a disk without faults, whether or not the file existed before,
/// leaves the text of the configuration in the file and no temporary file
/// behind, and a load that follows gives the configuration that was saved.
/// A configuration that cannot be written out leaves the disk as it was.
pub proof fn save_then_load(config: AppConfigView, disk: Disk)
    ensures
        match rendered(config) {
            Ok(text) => {
                &&& save_run(config, disk) == (
                    Disk { file: Some(text), temporary: None },
                    Some(Ok::<(), ConfigErrorView>(())),
                )
                &&& load_run(save_run(config, disk).0) == (
                    Disk { file: Some(text), temporary: None },
                    Some(Ok::<AppConfigView, ConfigErrorView>(config)),
                )
            },
            Err(error) => save_run(config, disk) == (
                disk,
                Some(Err::<(), ConfigErrorView>(error)),
            ),
        },
{
    reveal_with_fuel(save_run_from, 4);
    if let Ok(text) = rendered(config) {
        load_reads_what_is_there(Disk { file: Some(text), temporary: None });
    }
}

/// Every client's exchange ends the same way, whatever the provider: a status
/// outside the 2xx range is a failed request, whatever the body; a 2xx body
/// that cannot be decoded is a serialization failure; a 2xx body that can is
/// its completion text.
pub proof fn replies_are_uniform(status: u16, completion: Result<Seq<char>, Seq<char>>)
    ensures
        !is_success(status) ==> (replied(status, completion) matches Err(error)
            && error is RequestFailed),
        is_success(status) && completion is Err ==> (replied(status, completion) matches Err(error)
            && error is SerializationFailed),
        is_success(status) ==> (completion matches Ok(text) ==> replied(status, completion) == Ok::<
            Seq<char>,
            ClientErrorView,
        >(text)),
{
}

} // verus!
