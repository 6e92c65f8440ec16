//! The settings that are kept between runs, and what becomes of the file
//! that holds them.

use vstd::prelude::*;
use vstd::string::*;

verus! {

pub const DEFAULT_IP: &'static str = "192.168.1.4";

pub const DEFAULT_PORT: &'static str = "9025";

pub const DEFAULT_FILE_PATH: &'static str = "";

pub const DEFAULT_AUTO_SAVE_ENABLED: bool = false;

/// The name of the file that auto-save keeps the settings in.
pub const AUTO_SAVE_FILE: &'static str = "app_config.json";

/// The three editable fields and the auto-save preference.
#[derive(Debug)]
pub struct Config {
    pub ip: String,
    pub port: String,
    pub file_path: String,
    pub auto_save_enabled: bool,
}

/// What a `Config` holds, as plain text.
pub struct ConfigView {
    pub ip: Seq<char>,
    pub port: Seq<char>,
    pub file_path: Seq<char>,
    pub auto_save_enabled: bool,
}

impl View for Config {
    type V = ConfigView;

    open spec fn view(&self) -> ConfigView {
        ConfigView {
            ip: self.ip@,
            port: self.port@,
            file_path: self.file_path@,
            auto_save_enabled: self.auto_save_enabled,
        }
    }
}

impl ConfigView {
    /// The settings of a first run.
    pub open spec fn defaults() -> ConfigView {
        ConfigView {
            ip: DEFAULT_IP@,
            port: DEFAULT_PORT@,
            file_path: DEFAULT_FILE_PATH@,
            auto_save_enabled: DEFAULT_AUTO_SAVE_ENABLED,
        }
    }
}

impl Clone for Config {
    fn clone(&self) -> (copy: Config)
        ensures
            copy == *self,
    {
        Config {
            ip: self.ip.clone(),
            port: self.port.clone(),
            file_path: self.file_path.clone(),
            auto_save_enabled: self.auto_save_enabled,
        }
    }
}

/// What the auto-save file was found to hold.
#[derive(Debug)]
pub enum StoredConfig {
    /// There is no file.
    Missing,
    /// There is a file, but no settings could be read from it.
    Unreadable,
    /// The file holds these settings.
    Present(Config),
}

pub enum StoredView {
    Missing,
    Unreadable,
    Present(ConfigView),
}

impl View for StoredConfig {
    type V = StoredView;

    open spec fn view(&self) -> StoredView {
        match self {
            StoredConfig::Missing => StoredView::Missing,
            StoredConfig::Unreadable => StoredView::Unreadable,
            StoredConfig::Present(config) => StoredView::Present(config@),
        }
    }
}

/// What is to be done to the auto-save file.
#[derive(Debug)]
pub enum StoreAction {
    /// Leave the file as it is.
    Keep,
    /// Replace the file's content by these settings.
    Write(Config),
    /// Delete the file.
    Remove,
}

pub enum StoreActionView {
    Keep,
    Write(ConfigView),
    Remove,
}

impl View for StoreAction {
    type V = StoreActionView;

    open spec fn view(&self) -> StoreActionView {
        match self {
            StoreAction::Keep => StoreActionView::Keep,
            StoreAction::Write(config) => StoreActionView::Write(config@),
            StoreAction::Remove => StoreActionView::Remove,
        }
    }
}

impl StoredView {
    /// Whether a file is there, readable or not.
    pub open spec fn is_there(self) -> bool {
        !(self is Missing)
    }

    /// The settings to work with: those of the file, or the defaults where
    /// the file is missing or unreadable.
    pub open spec fn or_default(self) -> ConfigView {
        match self {
            StoredView::Present(config) => config,
            _ => ConfigView::defaults(),
        }
    }

    /// What the file holds once `action` has been carried out without fault.
    pub open spec fn after(self, action: StoreActionView) -> StoredView {
        match action {
            StoreActionView::Keep => self,
            StoreActionView::Write(config) => StoredView::Present(config),
            StoreActionView::Remove => StoredView::Missing,
        }
    }
}

impl StoredConfig {
    /// Carries `action` out on a copy of the file that is kept in memory.
    pub fn apply(self, action: StoreAction) -> (next: StoredConfig)
        ensures
            next@ == self@.after(action@),
    {
        match action {
            StoreAction::Keep => self,
            StoreAction::Write(config) => StoredConfig::Present(config),
            StoreAction::Remove => StoredConfig::Missing,
        }
    }
}

impl Config {
    /// Settings with the auto-save preference at its default.
    pub fn new(ip: String, port: String, file_path: String) -> (config: Config)
        ensures
            config.ip == ip,
            config.port == port,
            config.file_path == file_path,
            config.auto_save_enabled == DEFAULT_AUTO_SAVE_ENABLED,
    {
        Config { ip, port, file_path, auto_save_enabled: DEFAULT_AUTO_SAVE_ENABLED }
    }

    pub fn new_with_auto_save(
        ip: String,
        port: String,
        file_path: String,
        auto_save_enabled: bool,
    ) -> (config: Config)
        ensures
            config.ip == ip,
            config.port == port,
            config.file_path == file_path,
            config.auto_save_enabled == auto_save_enabled,
    {
        Config { ip, port, file_path, auto_save_enabled }
    }

    /// The settings of a first run.
    pub fn default() -> (config: Config)
        ensures
            config@ == ConfigView::defaults(),
    {
        Config::new(DEFAULT_IP.to_owned(), DEFAULT_PORT.to_owned(), DEFAULT_FILE_PATH.to_owned())
    }

    /// The stored settings, or the defaults where none can be had. Nothing
    /// is written on the way.
    pub fn load_or_default(stored: &StoredConfig) -> (config: Config)
        ensures
            config@ == stored@.or_default(),
    {
        match stored {
            StoredConfig::Present(config) => config.clone(),
            _ => Config::default(),
        }
    }

    /// The request to store these settings in the auto-save file.
    pub fn auto_save(&self) -> (action: StoreAction)
        ensures
            action@ == StoreActionView::Write(self@),
    {
        StoreAction::Write(self.clone())
    }

    /// Whether the auto-save file is there.
    pub fn config_file_exists(stored: &StoredConfig) -> (found: bool)
        ensures
            found == stored@.is_there(),
    {
        match stored {
            StoredConfig::Missing => false,
            _ => true,
        }
    }
}

/// Settings that were stored are the settings that are loaded next,
/// whatever the file held before.
pub proof fn lemma_stored_settings_load_back(before: StoredView, settings: ConfigView)
    ensures
        before.after(StoreActionView::Write(settings)).or_default() == settings,
        before.after(StoreActionView::Write(settings)).is_there(),
{
}

/// Once the file is deleted, loading gives the defaults.
pub proof fn lemma_removed_settings_load_defaults(before: StoredView)
    ensures
        before.after(StoreActionView::Remove).or_default() == ConfigView::defaults(),
        !before.after(StoreActionView::Remove).is_there(),
{
}

/// Why settings could not be stored or loaded. Each variant carries the
/// cause as the system worded it; those that concern a file carry its path.
#[derive(Debug)]
pub enum ConfigError {
    Serialize { cause: String },
    Create { path: String, cause: String },
    Write { path: String, cause: String },
    Read { path: String, cause: String },
    Parse { path: String, cause: String },
}

pub enum ConfigErrorView {
    Serialize { cause: Seq<char> },
    Create { path: Seq<char>, cause: Seq<char> },
    Write { path: Seq<char>, cause: Seq<char> },
    Read { path: Seq<char>, cause: Seq<char> },
    Parse { path: Seq<char>, cause: Seq<char> },
}

impl View for ConfigError {
    type V = ConfigErrorView;

    open spec fn view(&self) -> ConfigErrorView {
        match self {
            ConfigError::Serialize { cause } => ConfigErrorView::Serialize { cause: cause@ },
            ConfigError::Create { path, cause } => ConfigErrorView::Create {
                path: path@,
                cause: cause@,
            },
            ConfigError::Write { path, cause } => ConfigErrorView::Write {
                path: path@,
                cause: cause@,
            },
            ConfigError::Read { path, cause } => ConfigErrorView::Read {
                path: path@,
                cause: cause@,
            },
            ConfigError::Parse { path, cause } => ConfigErrorView::Parse {
                path: path@,
                cause: cause@,
            },
        }
    }
}

/// The sentence for a fault that concerns the file at `path`.
pub open spec fn file_fault_text(what: Seq<char>, path: Seq<char>, cause: Seq<char>) -> Seq<char> {
    what + path + "': "@ + cause
}

impl ConfigErrorView {
    /// The sentence that reports the fault.
    pub open spec fn message(self) -> Seq<char> {
        match self {
            ConfigErrorView::Serialize { cause } => "Failed to serialize config: "@ + cause,
            ConfigErrorView::Create { path, cause } => file_fault_text(
                "Failed to create config file '"@,
                path,
                cause,
            ),
            ConfigErrorView::Write { path, cause } => file_fault_text(
                "Failed to write config file '"@,
                path,
                cause,
            ),
            ConfigErrorView::Read { path, cause } => file_fault_text(
                "Failed to read config file '"@,
                path,
                cause,
            ),
            ConfigErrorView::Parse { path, cause } => file_fault_text(
                "Failed to parse config file '"@,
                path,
                cause,
            ),
        }
    }
}

fn file_fault(what: &str, path: &str, cause: &str) -> (text: String)
    ensures
        text@ == file_fault_text(what@, path@, cause@),
{
    let mut text = what.to_owned();
    text.append(path);
    text.append("': ");
    text.append(cause);
    text
}

impl ConfigError {
    /// The sentence that reports the fault.
    pub fn message(&self) -> (text: String)
        ensures
            text@ == self@.message(),
    {
        match self {
            ConfigError::Serialize { cause } => {
                let mut text = "Failed to serialize config: ".to_owned();
                text.append(cause.as_str());
                text
            },
            ConfigError::Create { path, cause } => file_fault(
                "Failed to create config file '",
                path.as_str(),
                cause.as_str(),
            ),
            ConfigError::Write { path, cause } => file_fault(
                "Failed to write config file '",
                path.as_str(),
                cause.as_str(),
            ),
            ConfigError::Read { path, cause } => file_fault(
                "Failed to read config file '",
                path.as_str(),
                cause.as_str(),
            ),
            ConfigError::Parse { path, cause } => file_fault(
                "Failed to parse config file '",
                path.as_str(),
                cause.as_str(),
            ),
        }
    }
}

} // verus!
