//! The user's settings file: what was loaded at startup and how edits are picked up.
//!
//! The settings themselves (thresholds are fractional percentages) are decoded outside this
//! crate; the manager here decides which settings are in force, for any settings type `C`.

use vstd::prelude::*;

use crate::file_watch::{same_stamp, FileStamp};
use crate::text::{push_str, str_eq, string_from};

verus! {

/// General switches.
#[derive(Debug, Clone, Copy, PartialEq, Eq, Structural)]
pub struct GeneralConfig {
    /// Allow automation in hideouts; towns are always blocked.
    pub enable_in_hideout: bool,
}

impl Default for GeneralConfig {
    /// Hideouts are blocked by default.
    fn default() -> (c: Self)
        ensures
            !c.enable_in_hideout,
    {
        GeneralConfig { enable_in_hideout: false }
    }
}

/// How the settings file was found at startup.
#[derive(Debug, Clone, PartialEq, Eq)]
pub enum ConfigStartup {
    /// An existing file was loaded.
    Loaded,
    /// The file was missing and was created with the defaults.
    Created,
    /// The file could not be created; the built-in defaults are used, with the reason.
    BuiltInFallback(String),
}

/// What a reload check found.
#[derive(Debug, Clone, PartialEq, Eq)]
pub enum ConfigReload {
    Unchanged,
    Reloaded,
    Removed,
    Invalid(String),
    ReadError(String),
}

pub enum ConfigReloadModel {
    Unchanged,
    Reloaded,
    Removed,
    Invalid(Seq<char>),
    ReadError(Seq<char>),
}

impl View for ConfigReload {
    type V = ConfigReloadModel;

    open spec fn view(&self) -> ConfigReloadModel {
        match self {
            ConfigReload::Unchanged => ConfigReloadModel::Unchanged,
            ConfigReload::Reloaded => ConfigReloadModel::Reloaded,
            ConfigReload::Removed => ConfigReloadModel::Removed,
            ConfigReload::Invalid(e) => ConfigReloadModel::Invalid(e@),
            ConfigReload::ReadError(e) => ConfigReloadModel::ReadError(e@),
        }
    }
}

/// What reading and decoding the settings file gave.
pub enum ConfigRead<C> {
    /// Valid settings.
    Parsed(C),
    /// The text was read but is not valid settings, with the reason.
    Invalid(String),
    /// The file could not be read, with the system's message.
    ReadFailed(String),
}

pub enum ConfigReadModel<C> {
    Parsed(C),
    Invalid(Seq<char>),
    ReadFailed(Seq<char>),
}

pub open spec fn read_view<C>(r: ConfigRead<C>) -> ConfigReadModel<C> {
    match r {
        ConfigRead::Parsed(c) => ConfigReadModel::Parsed(c),
        ConfigRead::Invalid(e) => ConfigReadModel::Invalid(e@),
        ConfigRead::ReadFailed(e) => ConfigReadModel::ReadFailed(e@),
    }
}

/// Keeps the settings in force while the file is edited, removed or broken.
pub struct ConfigManager<C> {
    current: C,
    path: String,
    observed_stamp: Option<FileStamp>,
    file_present: bool,
    current_from_file: bool,
    startup: ConfigStartup,
    last_read_error: Option<String>,
}

pub struct ConfigManagerModel<C> {
    pub current: C,
    pub path: Seq<char>,
    pub observed: Option<FileStamp>,
    pub file_present: bool,
    pub current_from_file: bool,
    pub last_read_error: Option<Seq<char>>,
}

pub open spec fn text_opt(s: Option<String>) -> Option<Seq<char>> {
    match s {
        Some(t) => Some(t@),
        None => None,
    }
}

impl<C> View for ConfigManager<C> {
    type V = ConfigManagerModel<C>;

    closed spec fn view(&self) -> ConfigManagerModel<C> {
        ConfigManagerModel {
            current: self.current,
            path: self.path@,
            observed: self.observed_stamp,
            file_present: self.file_present,
            current_from_file: self.current_from_file,
            last_read_error: text_opt(self.last_read_error),
        }
    }
}

/// Whether a check with this stamp reads the file.
pub open spec fn config_reads_file<C>(
    m: ConfigManagerModel<C>,
    stamp: Result<Option<FileStamp>, Seq<char>>,
) -> bool {
    match stamp {
        Ok(Some(s)) => m.observed != Some(s),
        _ => false,
    }
}

/// A read failure is reported once while its message stays the same; the settings stay.
pub open spec fn config_read_error<C>(m: ConfigManagerModel<C>, message: Seq<char>) -> (
    ConfigManagerModel<C>,
    ConfigReloadModel,
) {
    if m.last_read_error == Some(message) {
        (m, ConfigReloadModel::Unchanged)
    } else {
        (
            ConfigManagerModel { last_read_error: Some(message), ..m },
            ConfigReloadModel::ReadError(message),
        )
    }
}

/// One reload check, from the stamp found and, when it was read, the file.
pub open spec fn config_reload_step<C>(
    m: ConfigManagerModel<C>,
    stamp: Result<Option<FileStamp>, Seq<char>>,
    file: Option<ConfigReadModel<C>>,
) -> (ConfigManagerModel<C>, ConfigReloadModel) {
    match stamp {
        Err(e) => config_read_error(m, e),
        Ok(s) => if s == m.observed {
            (m, ConfigReloadModel::Unchanged)
        } else {
            match s {
                None => {
                    let m1 = ConfigManagerModel { observed: None, last_read_error: None, ..m };
                    if m.file_present {
                        (ConfigManagerModel { file_present: false, ..m1 }, ConfigReloadModel::Removed)
                    } else {
                        (m1, ConfigReloadModel::Unchanged)
                    }
                },
                Some(st) => match file {
                    None => (m, ConfigReloadModel::Unchanged),
                    Some(ConfigReadModel::ReadFailed(e)) => config_read_error(m, e),
                    Some(ConfigReadModel::Parsed(c)) => (
                        ConfigManagerModel {
                            current: c,
                            current_from_file: true,
                            file_present: true,
                            observed: Some(st),
                            last_read_error: None,
                            ..m
                        },
                        ConfigReloadModel::Reloaded,
                    ),
                    Some(ConfigReadModel::Invalid(e)) => (
                        ConfigManagerModel {
                            file_present: true,
                            observed: Some(st),
                            last_read_error: None,
                            ..m
                        },
                        ConfigReloadModel::Invalid(e),
                    ),
                },
            }
        },
    }
}

pub open spec fn stamp_result_view(stamp: Result<Option<FileStamp>, String>) -> Result<
    Option<FileStamp>,
    Seq<char>,
> {
    match stamp {
        Ok(s) => Ok(s),
        Err(e) => Err(e@),
    }
}

fn same_message(a: &Option<String>, b: &String) -> (r: bool)
    ensures
        r == (text_opt(*a) == Some(b@)),
{
    match a {
        Some(x) => str_eq(x.as_str(), b.as_str()),
        None => false,
    }
}

impl<C> ConfigManager<C> {
    /// Settings loaded from an existing or a just-created file whose stamp is `stamp`.
    pub fn loaded(path: String, current: C, stamp: FileStamp, startup: ConfigStartup) -> (m: Self)
        ensures
            m@ == (ConfigManagerModel {
                current,
                path: path@,
                observed: Some(stamp),
                file_present: true,
                current_from_file: true,
                last_read_error: None,
            }),
            m.startup_state() == startup,
    {
        ConfigManager {
            current,
            path,
            observed_stamp: Some(stamp),
            file_present: true,
            current_from_file: true,
            startup,
            last_read_error: None,
        }
    }

    /// The built-in defaults, used because the file could not be created (`reason`).
    pub fn fallback(path: String, defaults: C, reason: String) -> (m: Self)
        ensures
            m@ == (ConfigManagerModel {
                current: defaults,
                path: path@,
                observed: None,
                file_present: false,
                current_from_file: false,
                last_read_error: None,
            }),
            m.startup_state() == ConfigStartup::BuiltInFallback(reason),
    {
        ConfigManager {
            current: defaults,
            path,
            observed_stamp: None,
            file_present: false,
            current_from_file: false,
            startup: ConfigStartup::BuiltInFallback(reason),
            last_read_error: None,
        }
    }

    pub closed spec fn startup_state(&self) -> ConfigStartup {
        self.startup
    }

    /// The settings in force.
    pub fn current(&self) -> (c: &C)
        ensures
            *c == self@.current,
    {
        &self.current
    }

    /// Whether the settings in force came from the file.
    pub fn current_from_file(&self) -> (b: bool)
        ensures
            b == self@.current_from_file,
    {
        self.current_from_file
    }

    /// How the file was found at startup.
    pub fn startup(&self) -> (s: &ConfigStartup)
        ensures
            *s == self.startup_state(),
    {
        &self.startup
    }

    /// The settings file's path.
    pub fn path(&self) -> (p: &String)
        ensures
            p@ == self@.path,
    {
        &self.path
    }

    /// Whether a check with this stamp needs the file read.
    pub fn needs_file(&self, stamp: &Result<Option<FileStamp>, String>) -> (r: bool)
        ensures
            r == config_reads_file(self@, stamp_result_view(*stamp)),
    {
        match stamp {
            Ok(Some(s)) => !same_stamp(Some(*s), self.observed_stamp),
            _ => false,
        }
    }

    /// One reload check: `stamp` is what checking the file gave (the system's message when it
    /// failed), and `file` what reading it gave, present exactly when `needs_file` asks for it.
    pub fn check_for_reload(
        &mut self,
        stamp: Result<Option<FileStamp>, String>,
        file: Option<ConfigRead<C>>,
    ) -> (r: ConfigReload)
        requires
            file is Some <==> config_reads_file(old(self)@, stamp_result_view(stamp)),
        ensures
            (final(self)@, r@) == config_reload_step(
                old(self)@,
                stamp_result_view(stamp),
                match file {
                    Some(f) => Some(read_view(f)),
                    None => None,
                },
            ),
            final(self).startup_state() == old(self).startup_state(),
    {
        let stamp = match stamp {
            Ok(s) => s,
            Err(e) => {
                return self.read_error(e);
            },
        };
        if same_stamp(stamp, self.observed_stamp) {
            return ConfigReload::Unchanged;
        }
        let s = match stamp {
            None => {
                self.observed_stamp = None;
                self.last_read_error = None;
                if self.file_present {
                    self.file_present = false;
                    return ConfigReload::Removed;
                }
                return ConfigReload::Unchanged;
            },
            Some(s) => s,
        };
        match file {
            None => ConfigReload::Unchanged,
            Some(ConfigRead::ReadFailed(e)) => self.read_error(e),
            Some(ConfigRead::Parsed(config)) => {
                self.current = config;
                self.current_from_file = true;
                self.file_present = true;
                self.observed_stamp = Some(s);
                self.last_read_error = None;
                ConfigReload::Reloaded
            },
            Some(ConfigRead::Invalid(e)) => {
                self.file_present = true;
                self.observed_stamp = Some(s);
                self.last_read_error = None;
                ConfigReload::Invalid(e)
            },
        }
    }

    fn read_error(&mut self, message: String) -> (r: ConfigReload)
        ensures
            (final(self)@, r@) == config_read_error(old(self)@, message@),
            final(self).startup_state() == old(self).startup_state(),
    {
        if same_message(&self.last_read_error, &message) {
            ConfigReload::Unchanged
        } else {
            self.last_read_error = Some(message.clone());
            ConfigReload::ReadError(message)
        }
    }
}

/// The text of the error when the settings file vanished right after it was created or found.
pub open spec fn disappeared_text(path: Seq<char>, after_creation: bool) -> Seq<char> {
    if after_creation {
        path + " disappeared after creation"@
    } else {
        path + " disappeared while opening it"@
    }
}

/// Renders `disappeared_text`.
pub fn disappeared_message(path: &str, after_creation: bool) -> (s: String)
    ensures
        s@ == disappeared_text(path@, after_creation),
{
    let mut s = string_from(path);
    if after_creation {
        push_str(&mut s, " disappeared after creation");
    } else {
        push_str(&mut s, " disappeared while opening it");
    }
    s
}


/// A set, non-empty environment value.
pub open spec fn set_value(v: Option<Seq<char>>) -> Option<Seq<char>> {
    match v {
        Some(t) => if t.len() > 0 {
            Some(t)
        } else {
            None
        },
        None => None,
    }
}

/// The per-user config directory the settings folder goes in: `%APPDATA%` on Windows; on Linux
/// `$XDG_CONFIG_HOME` when it is set, else `~/.config`. `None` when the variables it needs are
/// unset or empty.
pub open spec fn config_base(
    windows: bool,
    appdata: Option<Seq<char>>,
    xdg_config_home: Option<Seq<char>>,
    home: Option<Seq<char>>,
) -> Option<Seq<char>> {
    if windows {
        set_value(appdata)
    } else {
        match set_value(xdg_config_home) {
            Some(x) => Some(x),
            None => match set_value(home) {
                Some(h) => Some(h + "/.config"@),
                None => None,
            },
        }
    }
}

fn set_text(v: Option<String>) -> (r: Option<String>)
    ensures
        match r {
            Some(t) => set_value(match v {
                Some(x) => Some(x@),
                None => None,
            }) == Some(t@),
            None => set_value(match v {
                Some(x) => Some(x@),
                None => None,
            }) is None,
        },
{
    match v {
        Some(t) => if crate::text::chars_of(t.as_str()).len() > 0 {
            Some(t)
        } else {
            None
        },
        None => None,
    }
}

/// Chooses the per-user config directory (see `config_base`).
pub fn config_base_dir(
    windows: bool,
    appdata: Option<String>,
    xdg_config_home: Option<String>,
    home: Option<String>,
) -> (r: Option<String>)
    ensures
        match r {
            Some(t) => config_base(
                windows,
                match appdata {
                    Some(x) => Some(x@),
                    None => None,
                },
                match xdg_config_home {
                    Some(x) => Some(x@),
                    None => None,
                },
                match home {
                    Some(x) => Some(x@),
                    None => None,
                },
            ) == Some(t@),
            None => config_base(
                windows,
                match appdata {
                    Some(x) => Some(x@),
                    None => None,
                },
                match xdg_config_home {
                    Some(x) => Some(x@),
                    None => None,
                },
                match home {
                    Some(x) => Some(x@),
                    None => None,
                },
            ) is None,
        },
{
    if windows {
        return set_text(appdata);
    }
    match set_text(xdg_config_home) {
        Some(x) => Some(x),
        None => match set_text(home) {
            Some(mut h) => {
                push_str(&mut h, "/.config");
                Some(h)
            },
            None => None,
        },
    }
}

} // verus!
