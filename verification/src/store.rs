//! Loading and saving the configuration file, as two protocols. Each is a
//! function from where a run stands and what just happened to where it stands
//! next and what is to be done. Whoever drives a run does what it is told on
//! the disk and reports back; nothing here touches the disk.

use crate::config::{
    parse, parsed, render, rendered, AppConfig, AppConfigView, ConfigError, ConfigErrorView,
};
use crate::views::result_view;
use vstd::prelude::*;

verus! {

/// Name of the one file that holds the configuration, inside the directory
/// that the host supplies.
pub fn config_file_name() -> (name: &'static str)
    ensures
        name@ == "configuration.toml"@,
{
    "configuration.toml"
}

/// Name of the file that a save writes first, beside the configuration file,
/// and then puts in the configuration file's place.
pub fn temporary_file_name() -> (name: &'static str)
    ensures
        name@ == "configuration.toml.tmp"@,
{
    "configuration.toml.tmp"
}

/// What the driver of a run reports.
#[derive(Debug, Clone, PartialEq, Eq)]
pub enum StoreEvent {
    /// The run begins.
    Started,
    /// What was asked for is done.
    Completed,
    /// What was asked for failed; the cause as text.
    Failed(String),
    /// The host could not say where the configuration directory is; the
    /// cause as text.
    Unresolved(String),
    /// The file that was to be read is not there: it does not exist, or
    /// nothing can be learned of it.
    Absent,
    /// The file that was to be read holds this text.
    Contents(String),
}

/// A `StoreEvent` as mathematical values.
pub enum StoreEventView {
    Started,
    Completed,
    Failed(Seq<char>),
    Unresolved(Seq<char>),
    Absent,
    Contents(Seq<char>),
}

impl View for StoreEvent {
    type V = StoreEventView;

    open spec fn view(&self) -> StoreEventView {
        match self {
            StoreEvent::Started => StoreEventView::Started,
            StoreEvent::Completed => StoreEventView::Completed,
            StoreEvent::Failed(detail) => StoreEventView::Failed(detail@),
            StoreEvent::Unresolved(detail) => StoreEventView::Unresolved(detail@),
            StoreEvent::Absent => StoreEventView::Absent,
            StoreEvent::Contents(text) => StoreEventView::Contents(text@),
        }
    }
}

/// Where a load stands.
#[derive(Debug, Clone, Copy, PartialEq, Eq, Structural)]
pub enum LoadState {
    /// Nothing was done yet.
    Idle,
    /// The directory is being made sure of.
    EnsuringDirectory,
    /// The file is being read.
    Reading,
    /// The file was absent, and the defaults are being written.
    Writing,
    /// The defaults were written, and the file is being read again.
    Rereading,
    /// The run is over.
    Finished,
}

/// What a load asks its driver to do next.
#[derive(Debug, PartialEq, Eq)]
pub enum LoadAction {
    /// Ask the host for the configuration directory and create it, with its
    /// parents, unless it exists.
    EnsureDirectory,
    /// Read the configuration file as text. A file that is not there is
    /// reported as `Absent`; one that is there and cannot be read as text, as
    /// `Failed`.
    ReadFile,
    /// Create the configuration file with this text.
    WriteFile(String),
    /// Stop: this is the result of the load.
    Finish(Result<AppConfig, ConfigError>),
}

/// A `LoadAction` as mathematical values.
pub enum LoadActionView {
    EnsureDirectory,
    ReadFile,
    WriteFile(Seq<char>),
    Finish(Result<AppConfigView, ConfigErrorView>),
}

impl View for LoadAction {
    type V = LoadActionView;

    open spec fn view(&self) -> LoadActionView {
        match self {
            LoadAction::EnsureDirectory => LoadActionView::EnsureDirectory,
            LoadAction::ReadFile => LoadActionView::ReadFile,
            LoadAction::WriteFile(text) => LoadActionView::WriteFile(text@),
            LoadAction::Finish(result) => LoadActionView::Finish(result_view(*result)),
        }
    }
}

/// The error for an event that cannot follow what was asked for.
pub open spec fn unexpected_event() -> ConfigErrorView {
    ConfigErrorView::UnhandledError("an event arrived that nothing had asked for"@)
}

/// What a load does when the file is in: it reads the text as a configuration.
pub open spec fn load_finish(text: Seq<char>) -> (LoadState, LoadActionView) {
    (LoadState::Finished, LoadActionView::Finish(parsed(text)))
}

/// What a load does when it fails.
pub open spec fn load_fail(error: ConfigErrorView) -> (LoadState, LoadActionView) {
    (LoadState::Finished, LoadActionView::Finish(Err(error)))
}

/// One step of a load.
///
/// The directory is made sure of first. Then the file is read. Where it is
/// there, its text is read as a configuration, and the file is left as it is.
/// Where it is absent, the defaults are written out and the file is read
/// again. A directory that the host cannot name is an unhandled error; a
/// directory that cannot be made and a file that cannot be written are I/O
/// errors; a file that cannot be read is a building error.
pub open spec fn load_step(state: LoadState, event: StoreEventView) -> (LoadState, LoadActionView) {
    match (state, event) {
        (LoadState::Idle, StoreEventView::Started) => (
            LoadState::EnsuringDirectory,
            LoadActionView::EnsureDirectory,
        ),
        (LoadState::EnsuringDirectory, StoreEventView::Completed) => (
            LoadState::Reading,
            LoadActionView::ReadFile,
        ),
        (LoadState::EnsuringDirectory, StoreEventView::Failed(detail)) => load_fail(
            ConfigErrorView::IoError(detail),
        ),
        (LoadState::EnsuringDirectory, StoreEventView::Unresolved(detail)) => load_fail(
            ConfigErrorView::UnhandledError(detail),
        ),
        (LoadState::Reading, StoreEventView::Contents(text)) => load_finish(text),
        (LoadState::Reading, StoreEventView::Absent) => match rendered(AppConfig::defaults()) {
            Ok(text) => (LoadState::Writing, LoadActionView::WriteFile(text)),
            Err(error) => load_fail(error),
        },
        (LoadState::Reading, StoreEventView::Failed(detail)) => load_fail(
            ConfigErrorView::ConfigBuildingError(detail),
        ),
        (LoadState::Writing, StoreEventView::Completed) => (
            LoadState::Rereading,
            LoadActionView::ReadFile,
        ),
        (LoadState::Writing, StoreEventView::Failed(detail)) => load_fail(
            ConfigErrorView::IoError(detail),
        ),
        (LoadState::Rereading, StoreEventView::Contents(text)) => load_finish(text),
        (LoadState::Rereading, StoreEventView::Absent) => load_fail(
            ConfigErrorView::ConfigBuildingError(
                "the configuration file is gone after it was written"@,
            ),
        ),
        (LoadState::Rereading, StoreEventView::Failed(detail)) => load_fail(
            ConfigErrorView::ConfigBuildingError(detail),
        ),
        _ => load_fail(unexpected_event()),
    }
}

fn load_failed(error: ConfigError) -> (next: (LoadState, LoadAction))
    ensures
        (next.0, next.1@) == load_fail(error@),
{
    (LoadState::Finished, LoadAction::Finish(Err(error)))
}

fn load_finished(text: &str) -> (next: (LoadState, LoadAction))
    ensures
        (next.0, next.1@) == load_finish(text@),
{
    (LoadState::Finished, LoadAction::Finish(parse(text)))
}

fn unexpected() -> (error: ConfigError)
    ensures
        error@ == unexpected_event(),
{
    ConfigError::UnhandledError("an event arrived that nothing had asked for".to_owned())
}

/// Advances a load by one step: given where it stands and what its driver
/// reports, says where it stands next and what the driver is to do. A run
/// begins in `LoadState::Idle` with `StoreEvent::Started` and is over with
/// `LoadAction::Finish`, which carries the configuration or the error.
pub fn load(state: LoadState, event: StoreEvent) -> (next: (LoadState, LoadAction))
    ensures
        (next.0, next.1@) == load_step(state, event@),
{
    match state {
        LoadState::Idle => match event {
            StoreEvent::Started => (LoadState::EnsuringDirectory, LoadAction::EnsureDirectory),
            _ => load_failed(unexpected()),
        },
        LoadState::EnsuringDirectory => match event {
            StoreEvent::Completed => (LoadState::Reading, LoadAction::ReadFile),
            StoreEvent::Failed(detail) => load_failed(ConfigError::IoError(detail)),
            StoreEvent::Unresolved(detail) => load_failed(ConfigError::UnhandledError(detail)),
            _ => load_failed(unexpected()),
        },
        LoadState::Reading => match event {
            StoreEvent::Contents(text) => load_finished(text.as_str()),
            StoreEvent::Absent => match render(&AppConfig::default()) {
                Ok(text) => (LoadState::Writing, LoadAction::WriteFile(text)),
                Err(error) => load_failed(error),
            },
            StoreEvent::Failed(detail) => load_failed(ConfigError::ConfigBuildingError(detail)),
            _ => load_failed(unexpected()),
        },
        LoadState::Writing => match event {
            StoreEvent::Completed => (LoadState::Rereading, LoadAction::ReadFile),
            StoreEvent::Failed(detail) => load_failed(ConfigError::IoError(detail)),
            _ => load_failed(unexpected()),
        },
        LoadState::Rereading => match event {
            StoreEvent::Contents(text) => load_finished(text.as_str()),
            StoreEvent::Absent => load_failed(
                ConfigError::ConfigBuildingError(
                    "the configuration file is gone after it was written".to_owned(),
                ),
            ),
            StoreEvent::Failed(detail) => load_failed(ConfigError::ConfigBuildingError(detail)),
            _ => load_failed(unexpected()),
        },
        LoadState::Finished => load_failed(unexpected()),
    }
}

/// Where a save stands.
#[derive(Debug, Clone, Copy, PartialEq, Eq, Structural)]
pub enum SaveState {
    /// Nothing was done yet.
    Idle,
    /// The directory is being made sure of.
    EnsuringDirectory,
    /// The temporary file is being written.
    WritingTemporary,
    /// The temporary file is being put in the configuration file's place.
    Replacing,
    /// The run is over.
    Finished,
}

/// What a save asks its driver to do next.
#[derive(Debug, PartialEq, Eq)]
pub enum SaveAction {
    /// Ask the host for the configuration directory and create it, with its
    /// parents, unless it exists.
    EnsureDirectory,
    /// Write this text to the temporary file, whole.
    WriteTemporary(String),
    /// Rename the temporary file to the configuration file, over any that exists.
    Replace,
    /// Stop: this is the result of the save.
    Finish(Result<(), ConfigError>),
}

/// A `SaveAction` as mathematical values.
pub enum SaveActionView {
    EnsureDirectory,
    WriteTemporary(Seq<char>),
    Replace,
    Finish(Result<(), ConfigErrorView>),
}

impl View for SaveAction {
    type V = SaveActionView;

    open spec fn view(&self) -> SaveActionView {
        match self {
            SaveAction::EnsureDirectory => SaveActionView::EnsureDirectory,
            SaveAction::WriteTemporary(text) => SaveActionView::WriteTemporary(text@),
            SaveAction::Replace => SaveActionView::Replace,
            SaveAction::Finish(result) => SaveActionView::Finish(
                match result {
                    Ok(_) => Ok(()),
                    Err(error) => Err(error@),
                },
            ),
        }
    }
}

/// What a save does when it fails.
pub open spec fn save_fail(error: ConfigErrorView) -> (SaveState, SaveActionView) {
    (SaveState::Finished, SaveActionView::Finish(Err(error)))
}

/// One step of a save.
///
/// The directory is made sure of first. Then the whole configuration is
/// written to a temporary file, and only when that is done is the temporary
/// file put in the configuration file's place: the configuration file itself
/// is never written to, so it holds the old document or the new one and never
/// part of either. A configuration that cannot be written out is a
/// serialization error, and nothing is written; a directory that the host
/// cannot name is an unhandled error; whatever fails on the disk is an I/O
/// error.
pub open spec fn save_step(state: SaveState, config: AppConfigView, event: StoreEventView) -> (
    SaveState,
    SaveActionView,
) {
    match (state, event) {
        (SaveState::Idle, StoreEventView::Started) => (
            SaveState::EnsuringDirectory,
            SaveActionView::EnsureDirectory,
        ),
        (SaveState::EnsuringDirectory, StoreEventView::Completed) => match rendered(config) {
            Ok(text) => (SaveState::WritingTemporary, SaveActionView::WriteTemporary(text)),
            Err(error) => save_fail(error),
        },
        (SaveState::WritingTemporary, StoreEventView::Completed) => (
            SaveState::Replacing,
            SaveActionView::Replace,
        ),
        (SaveState::Replacing, StoreEventView::Completed) => (
            SaveState::Finished,
            SaveActionView::Finish(Ok(())),
        ),
        (SaveState::EnsuringDirectory, StoreEventView::Failed(detail)) => save_fail(
            ConfigErrorView::IoError(detail),
        ),
        (SaveState::EnsuringDirectory, StoreEventView::Unresolved(detail)) => save_fail(
            ConfigErrorView::UnhandledError(detail),
        ),
        (SaveState::WritingTemporary, StoreEventView::Failed(detail)) => save_fail(
            ConfigErrorView::IoError(detail),
        ),
        (SaveState::Replacing, StoreEventView::Failed(detail)) => save_fail(
            ConfigErrorView::IoError(detail),
        ),
        _ => save_fail(unexpected_event()),
    }
}

fn save_failed(error: ConfigError) -> (next: (SaveState, SaveAction))
    ensures
        (next.0, next.1@) == save_fail(error@),
{
    (SaveState::Finished, SaveAction::Finish(Err(error)))
}

/// Advances a save of `config` by one step: given where it stands and what its
/// driver reports, says where it stands next and what the driver is to do. A
/// run begins in `SaveState::Idle` with `StoreEvent::Started` and is over with
/// `SaveAction::Finish`.
pub fn save(state: SaveState, config: &AppConfig, event: StoreEvent) -> (next: (
    SaveState,
    SaveAction,
))
    ensures
        (next.0, next.1@) == save_step(state, config@, event@),
{
    match state {
        SaveState::Idle => match event {
            StoreEvent::Started => (SaveState::EnsuringDirectory, SaveAction::EnsureDirectory),
            _ => save_failed(unexpected()),
        },
        SaveState::EnsuringDirectory => match event {
            StoreEvent::Completed => match render(config) {
                Ok(text) => (SaveState::WritingTemporary, SaveAction::WriteTemporary(text)),
                Err(error) => save_failed(error),
            },
            StoreEvent::Failed(detail) => save_failed(ConfigError::IoError(detail)),
            StoreEvent::Unresolved(detail) => save_failed(ConfigError::UnhandledError(detail)),
            _ => save_failed(unexpected()),
        },
        SaveState::WritingTemporary => match event {
            StoreEvent::Completed => (SaveState::Replacing, SaveAction::Replace),
            StoreEvent::Failed(detail) => save_failed(ConfigError::IoError(detail)),
            _ => save_failed(unexpected()),
        },
        SaveState::Replacing => match event {
            StoreEvent::Completed => (SaveState::Finished, SaveAction::Finish(Ok(()))),
            StoreEvent::Failed(detail) => save_failed(ConfigError::IoError(detail)),
            _ => save_failed(unexpected()),
        },
        SaveState::Finished => save_failed(unexpected()),
    }
}

/// How far a load has come.
pub open spec fn load_rank(state: LoadState) -> nat {
    match state {
        LoadState::Idle => 0,
        LoadState::EnsuringDirectory => 1,
        LoadState::Reading => 2,
        LoadState::Writing => 3,
        LoadState::Rereading => 4,
        LoadState::Finished => 5,
    }
}

/// How far a save has come.
pub open spec fn save_rank(state: SaveState) -> nat {
    match state {
        SaveState::Idle => 0,
        SaveState::EnsuringDirectory => 1,
        SaveState::WritingTemporary => 2,
        SaveState::Replacing => 3,
        SaveState::Finished => 4,
    }
}

/// The two files of the configuration directory, each with its text where it
/// exists.
pub struct Disk {
    pub file: Option<Seq<char>>,
    pub temporary: Option<Seq<char>>,
}

/// What doing a load's bidding does to a disk without faults, and what is
/// reported back.
pub open spec fn load_effect(action: LoadActionView, disk: Disk) -> (StoreEventView, Disk) {
    match action {
        LoadActionView::ReadFile => match disk.file {
            Some(text) => (StoreEventView::Contents(text), disk),
            None => (StoreEventView::Absent, disk),
        },
        LoadActionView::WriteFile(text) => (
            StoreEventView::Completed,
            Disk { file: Some(text), temporary: disk.temporary },
        ),
        _ => (StoreEventView::Completed, disk),
    }
}

/// What doing a save's bidding does to a disk without faults, and what is
/// reported back.
pub open spec fn save_effect(action: SaveActionView, disk: Disk) -> (StoreEventView, Disk) {
    match action {
        SaveActionView::WriteTemporary(text) => (
            StoreEventView::Completed,
            Disk { file: disk.file, temporary: Some(text) },
        ),
        SaveActionView::Replace => match disk.temporary {
            Some(text) => (StoreEventView::Completed, Disk { file: Some(text), temporary: None }),
            None => (StoreEventView::Failed("there is no temporary file"@), disk),
        },
        _ => (StoreEventView::Completed, disk),
    }
}

/// A load driven on a disk without faults, from a given point, for at most a
/// number of actions: the disk it leaves, and its result if it came to one.
pub open spec fn load_run_from(
    state: LoadState,
    event: StoreEventView,
    disk: Disk,
    actions: nat,
) -> (Disk, Option<Result<AppConfigView, ConfigErrorView>>)
    decreases actions,
{
    let (next, action) = load_step(state, event);
    match action {
        LoadActionView::Finish(result) => (disk, Some(result)),
        _ => if actions == 0 {
            (disk, None)
        } else {
            let (reply, after) = load_effect(action, disk);
            load_run_from(next, reply, after, (actions - 1) as nat)
        },
    }
}

/// A whole load on a disk without faults. No load asks for more than four
/// actions.
pub open spec fn load_run(disk: Disk) -> (Disk, Option<Result<AppConfigView, ConfigErrorView>>) {
    load_run_from(LoadState::Idle, StoreEventView::Started, disk, 4)
}

/// A save driven on a disk without faults, from a given point, for at most a
/// number of actions: the disk it leaves, and its result if it came to one.
pub open spec fn save_run_from(
    state: SaveState,
    config: AppConfigView,
    event: StoreEventView,
    disk: Disk,
    actions: nat,
) -> (Disk, Option<Result<(), ConfigErrorView>>)
    decreases actions,
{
    let (next, action) = save_step(state, config, event);
    match action {
        SaveActionView::Finish(result) => (disk, Some(result)),
        _ => if actions == 0 {
            (disk, None)
        } else {
            let (reply, after) = save_effect(action, disk);
            save_run_from(next, config, reply, after, (actions - 1) as nat)
        },
    }
}

/// A whole save on a disk without faults. No save asks for more than three
/// actions.
pub open spec fn save_run(config: AppConfigView, disk: Disk) -> (
    Disk,
    Option<Result<(), ConfigErrorView>>,
) {
    save_run_from(SaveState::Idle, config, StoreEventView::Started, disk, 3)
}

} // verus!
