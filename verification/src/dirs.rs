//! Well-known directories and the files the application keeps in them.
//!
//! Where the base directories lie is the operating system's convention and
//! comes from the `directories` crate; everything below a base directory
//! is this module's own, verified path arithmetic.  Creating directories
//! and any other filesystem work stays with the embedding shell.

use vstd::prelude::*;

verus! {

/// Relies on directories::ProjectDirs::from / config_dir: the OS
/// conventional per-application configuration directory.  The result
/// depends on the environment, so nothing is promised of it.
#[verifier::external_body]
fn project_config_dir() -> (r: Option<String>) {
    match directories::ProjectDirs::from("dev", "project-gauntlet", "Gauntlet") {
        Some(d) => Some(d.config_dir().to_string_lossy().into_owned()),
        None => None,
    }
}

/// Relies on directories::ProjectDirs::from / data_dir: the OS
/// conventional per-application data directory.  Environment-dependent,
/// so nothing is promised of it.
#[verifier::external_body]
fn project_data_dir() -> (r: Option<String>) {
    match directories::ProjectDirs::from("dev", "project-gauntlet", "Gauntlet") {
        Some(d) => Some(d.data_dir().to_string_lossy().into_owned()),
        None => None,
    }
}

/// Relies on directories::ProjectDirs::from / cache_dir: the OS
/// conventional per-application cache directory.  Environment-dependent,
/// so nothing is promised of it.
#[verifier::external_body]
fn project_cache_dir() -> (r: Option<String>) {
    match directories::ProjectDirs::from("dev", "project-gauntlet", "Gauntlet") {
        Some(d) => Some(d.cache_dir().to_string_lossy().into_owned()),
        None => None,
    }
}

/// Relies on directories::ProjectDirs::from / state_dir: the OS
/// conventional per-application state directory, absent on platforms
/// without one.  Environment-dependent, so nothing is promised of it.
#[verifier::external_body]
fn project_state_dir() -> (r: Option<String>) {
    match directories::ProjectDirs::from("dev", "project-gauntlet", "Gauntlet") {
        Some(d) => match d.state_dir() {
            Some(p) => Some(p.to_string_lossy().into_owned()),
            None => None,
        },
        None => None,
    }
}

/// Relies on directories::ProjectDirs::from / data_local_dir: the OS
/// conventional per-application local-data directory.
/// Environment-dependent, so nothing is promised of it.
#[verifier::external_body]
fn project_data_local_dir() -> (r: Option<String>) {
    match directories::ProjectDirs::from("dev", "project-gauntlet", "Gauntlet") {
        Some(d) => Some(d.data_local_dir().to_string_lossy().into_owned()),
        None => None,
    }
}

/// Relies on directories::BaseDirs::new / home_dir: the user's home
/// directory.  Environment-dependent, so nothing is promised of it.
#[verifier::external_body]
fn base_home_dir() -> (r: Option<String>) {
    match directories::BaseDirs::new() {
        Some(d) => Some(d.home_dir().to_string_lossy().into_owned()),
        None => None,
    }
}

/// `base` with `rest` appended.
fn joined(base: &String, rest: &str) -> (r: String)
    ensures
        r@ == base@ + rest@,
{
    let mut r = base.clone();
    r.append(rest);
    r
}

/// The application's base directories, each as an absolute path string.
pub struct Dirs {
    pub config_base: String,
    pub data_base: String,
    pub cache_base: String,
    pub state_base: String,
}

impl Dirs {
    /// The base directories the operating system assigns this application;
    /// `None` when the environment provides no home directory.  Platforms
    /// without a state directory fall back to the local data directory.
    pub fn new() -> (r: Option<Dirs>) {
        let config_base = match project_config_dir() {
            Some(p) => p,
            None => {
                return None;
            },
        };
        let data_base = match project_data_dir() {
            Some(p) => p,
            None => {
                return None;
            },
        };
        let cache_base = match project_cache_dir() {
            Some(p) => p,
            None => {
                return None;
            },
        };
        let state_base = match project_state_dir() {
            Some(p) => p,
            None => match project_data_local_dir() {
                Some(p) => p,
                None => {
                    return None;
                },
            },
        };
        Some(Dirs { config_base, data_base, cache_base, state_base })
    }

    /// The user's home directory, as the environment reports it now.
    pub fn home_dir(&self) -> (r: Option<String>) {
        base_home_dir()
    }

    pub fn config_dir(&self) -> (r: String)
        ensures
            r@ == self.config_base@,
    {
        self.config_base.clone()
    }

    pub fn data_dir(&self) -> (r: String)
        ensures
            r@ == self.data_base@,
    {
        self.data_base.clone()
    }

    pub fn cache_dir(&self) -> (r: String)
        ensures
            r@ == self.cache_base@,
    {
        self.cache_base.clone()
    }

    pub fn state_dir(&self) -> (r: String)
        ensures
            r@ == self.state_base@,
    {
        self.state_base.clone()
    }

    pub fn config_file(&self) -> (r: String)
        ensures
            r@ == self.config_base@ + "/config.toml"@,
    {
        joined(&self.config_base, "/config.toml")
    }

    pub fn theme_file(&self) -> (r: String)
        ensures
            r@ == self.config_base@ + "/theme.json"@,
    {
        joined(&self.config_base, "/theme.json")
    }

    pub fn theme_color_file(&self) -> (r: String)
        ensures
            r@ == self.config_base@ + "/color_theme.json"@,
    {
        joined(&self.config_base, "/color_theme.json")
    }

    pub fn sample_theme_file(&self) -> (r: String)
        ensures
            r@ == self.config_base@ + "/theme.sample.json"@,
    {
        joined(&self.config_base, "/theme.sample.json")
    }

    pub fn sample_theme_color_file(&self) -> (r: String)
        ensures
            r@ == self.config_base@ + "/color_theme.sample.json"@,
    {
        joined(&self.config_base, "/color_theme.sample.json")
    }

    pub fn data_db_file(&self) -> (r: String)
        ensures
            r@ == self.data_base@ + "/data.db"@,
    {
        joined(&self.data_base, "/data.db")
    }

    pub fn icon_cache_dir(&self) -> (r: String)
        ensures
            r@ == self.cache_base@ + "/icons"@,
    {
        joined(&self.cache_base, "/icons")
    }

    /// The plugin's two log files, standard output first.
    pub fn plugin_log_files(&self, plugin_uuid: &String) -> (r: (String, String))
        ensures
            r.0@ == self.state_base@ + "/logs/"@ + plugin_uuid@ + "/stdout.txt"@,
            r.1@ == self.state_base@ + "/logs/"@ + plugin_uuid@ + "/stderr.txt"@,
    {
        let mut plugin_dir = joined(&self.state_base, "/logs/");
        plugin_dir.append(plugin_uuid.as_str());
        let out_log_file = joined(&plugin_dir, "/stdout.txt");
        let err_log_file = joined(&plugin_dir, "/stderr.txt");
        (out_log_file, err_log_file)
    }

    pub fn plugin_local_storage(&self, plugin_uuid: &String) -> (r: String)
        ensures
            r@ == self.state_base@ + "/local_storage/"@ + plugin_uuid@,
    {
        let mut r = joined(&self.state_base, "/local_storage/");
        r.append(plugin_uuid.as_str());
        r
    }
}

} // verus!
