//! The on/off flag that outlives the process.
//!
//! The flag is kept in a small file. Reading and writing that file is the
//! caller's part; what to make of a missing, unreadable or garbled file, and
//! how a failed write is reported, is decided here.

use vstd::prelude::*;
use vstd::string::*;
use crate::error::{Error, ErrorView};

verus! {

/// The directory of the state file. It is created where it is absent.
pub const CONFIG_DIR: &'static str = "/var/lib/lenovo-kb";

/// The state file.
pub const CONFIG_PATH: &'static str = "/var/lib/lenovo-kb/state.toml";

/// What is said when the flag cannot be put into text.
pub const SERIALIZE_FAILURE: &'static str = "Could not serialize config";

/// What is said when the text cannot be written to the file.
pub const WRITE_FAILURE: &'static str = "Could not write the config to file";

/// The persisted state of the backlight.
#[derive(Clone, Copy, Debug, PartialEq, Eq, Structural)]
pub struct LedConfig {
    /// Whether the backlight is on.
    pub is_on: bool,
}

/// What was found in the place of the state file.
#[derive(Debug)]
pub enum StoredState {
    /// There is no file.
    Missing,
    /// There is a file, but it could not be opened or read; the text says why.
    Unreadable(String),
    /// The file was read, and its text does not give the flag.
    Unparsable,
    /// The file gave this state.
    Parsed(LedConfig),
}

/// A [`StoredState`] as a mathematical value.
pub enum StoredStateView {
    Missing,
    Unreadable(Seq<char>),
    Unparsable,
    Parsed(LedConfig),
}

impl View for StoredState {
    type V = StoredStateView;

    open spec fn view(&self) -> StoredStateView {
        match self {
            StoredState::Missing => StoredStateView::Missing,
            StoredState::Unreadable(reason) => StoredStateView::Unreadable(reason@),
            StoredState::Unparsable => StoredStateView::Unparsable,
            StoredState::Parsed(config) => StoredStateView::Parsed(*config),
        }
    }
}

/// The state to start from, and whether it has yet to be written to the file.
#[derive(Clone, Copy, Debug, PartialEq, Eq, Structural)]
pub struct Loaded {
    pub config: LedConfig,
    pub write_back: bool,
}

/// How writing the state file went.
#[derive(Debug)]
pub enum SaveOutcome {
    /// The file holds the state.
    Saved,
    /// The state could not be put into text.
    NotSerialized,
    /// The directory could not be created; the text says why.
    DirectoryFailed(String),
    /// The file could not be created; the text says why.
    FileFailed(String),
    /// The file was created, but the text could not be written into it.
    NotWritten,
}

/// A [`SaveOutcome`] as a mathematical value.
pub enum SaveOutcomeView {
    Saved,
    NotSerialized,
    DirectoryFailed(Seq<char>),
    FileFailed(Seq<char>),
    NotWritten,
}

impl View for SaveOutcome {
    type V = SaveOutcomeView;

    open spec fn view(&self) -> SaveOutcomeView {
        match self {
            SaveOutcome::Saved => SaveOutcomeView::Saved,
            SaveOutcome::NotSerialized => SaveOutcomeView::NotSerialized,
            SaveOutcome::DirectoryFailed(reason) => SaveOutcomeView::DirectoryFailed(reason@),
            SaveOutcome::FileFailed(reason) => SaveOutcomeView::FileFailed(reason@),
            SaveOutcome::NotWritten => SaveOutcomeView::NotWritten,
        }
    }
}

/// The state of a keyboard that was never switched: on.
pub open spec fn default_config() -> LedConfig {
    LedConfig { is_on: true }
}

/// What loading makes of what was found. A missing or garbled file gives the
/// default, which is then to be written; a file that cannot be read is an
/// error.
pub open spec fn loaded_from(found: StoredStateView) -> Result<Loaded, ErrorView> {
    match found {
        StoredStateView::Missing => Ok(Loaded { config: default_config(), write_back: true }),
        StoredStateView::Unparsable => Ok(Loaded { config: default_config(), write_back: true }),
        StoredStateView::Parsed(config) => Ok(Loaded { config, write_back: false }),
        StoredStateView::Unreadable(reason) => Err(ErrorView::Problem(reason)),
    }
}

/// The error that a failed save is reported with, if it failed.
pub open spec fn save_error(outcome: SaveOutcomeView) -> Option<ErrorView> {
    match outcome {
        SaveOutcomeView::Saved => None,
        SaveOutcomeView::NotSerialized => Some(ErrorView::Problem(SERIALIZE_FAILURE@)),
        SaveOutcomeView::DirectoryFailed(reason) => Some(ErrorView::Problem(reason)),
        SaveOutcomeView::FileFailed(reason) => Some(ErrorView::Problem(reason)),
        SaveOutcomeView::NotWritten => Some(ErrorView::Problem(WRITE_FAILURE@)),
    }
}

impl LedConfig {
    /// The state of a keyboard that was never switched: on.
    pub fn default() -> (config: LedConfig)
        ensures
            config == default_config(),
    {
        LedConfig { is_on: true }
    }

    /// The state to start from, given what was found in the place of the
    /// state file.
    pub fn load(found: StoredState) -> (result: Result<Loaded, Error>)
        ensures
            match result {
                Ok(loaded) => loaded_from(found@) == Ok::<Loaded, ErrorView>(loaded),
                Err(error) => loaded_from(found@) == Err::<Loaded, ErrorView>(error@),
            },
    {
        match found {
            StoredState::Missing => Ok(Loaded { config: LedConfig::default(), write_back: true }),
            StoredState::Unparsable => Ok(
                Loaded { config: LedConfig::default(), write_back: true },
            ),
            StoredState::Parsed(config) => Ok(Loaded { config, write_back: false }),
            StoredState::Unreadable(reason) => Err(Error::Problem(reason)),
        }
    }

    /// The result of saving this state, given how writing the file went.
    pub fn save(&self, outcome: SaveOutcome) -> (result: Result<(), Error>)
        ensures
            match result {
                Ok(_) => save_error(outcome@) is None,
                Err(error) => save_error(outcome@) == Some(error@),
            },
    {
        match outcome {
            SaveOutcome::Saved => Ok(()),
            SaveOutcome::NotSerialized => Err(
                Error::Problem(String::from_str(SERIALIZE_FAILURE)),
            ),
            SaveOutcome::DirectoryFailed(reason) => Err(Error::Problem(reason)),
            SaveOutcome::FileFailed(reason) => Err(Error::Problem(reason)),
            SaveOutcome::NotWritten => Err(Error::Problem(String::from_str(WRITE_FAILURE))),
        }
    }

    /// The state after the hotkey was pressed once more.
    pub fn toggled(&self) -> (config: LedConfig)
        ensures
            config == (LedConfig { is_on: !self.is_on }),
    {
        LedConfig { is_on: !self.is_on }
    }
}

} // verus!
