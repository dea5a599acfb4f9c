//! The application settings stored beside the profiles.

use vstd::prelude::*;
use crate::paths::{join_path, path_join, resolve_path, resolved};

verus! {

/// Application settings. Paths are held as text; relative ones are taken
/// from the application's base directory.
#[derive(Clone, Debug)]
pub struct AppConfig {
    pub repo_path: String,
    pub password_file: Option<String>,
    pub theme: String,
    pub save_password: bool,
}

/// The file name of the settings inside the base directory.
pub open spec fn config_file_name() -> Seq<char> {
    "config.json"@
}

/// Where the password is kept when it is saved: relative to the base
/// directory.
pub open spec fn default_password_file() -> Seq<char> {
    "../.password"@
}

/// The view of an optional text.
pub open spec fn opt_view(o: Option<String>) -> Option<Seq<char>> {
    match o {
        Some(s) => Some(s@),
        None => None,
    }
}

/// What the settings hold, as plain values.
pub struct ConfigView {
    pub repo_path: Seq<char>,
    pub password_file: Option<Seq<char>>,
    pub theme: Seq<char>,
    pub save_password: bool,
}

impl View for AppConfig {
    type V = ConfigView;

    open spec fn view(&self) -> ConfigView {
        ConfigView {
            repo_path: self.repo_path@,
            password_file: opt_view(self.password_file),
            theme: self.theme@,
            save_password: self.save_password,
        }
    }
}

impl AppConfig {
    /// Field by field copy.
    pub fn duplicate(&self) -> (res: AppConfig)
        ensures
            res == *self,
    {
        AppConfig {
            repo_path: self.repo_path.clone(),
            password_file: match &self.password_file {
                Some(p) => Some(p.clone()),
                None => None,
            },
            theme: self.theme.clone(),
            save_password: self.save_password,
        }
    }

    /// The path of the settings file inside `base`.
    pub fn config_path(base: &str) -> (res: String)
        ensures
            res@ == path_join(base@, config_file_name()),
    {
        join_path(base, "config.json")
    }

    /// The repository path, resolved against `base` unless it is absolute.
    pub fn resolve_repo_path(&self, base: &str) -> (res: String)
        ensures
            res@ == resolved(base@, self.repo_path@),
    {
        resolve_path(base, self.repo_path.as_str())
    }

    /// The password file, if one is set, resolved against `base` unless it
    /// is absolute.
    pub fn resolve_password_path(&self, base: &str) -> (res: Option<String>)
        ensures
            opt_view(res) == match self.password_file {
                Some(p) => Some(resolved(base@, p@)),
                None => None,
            },
    {
        match &self.password_file {
            Some(p) => Some(resolve_path(base, p.as_str())),
            None => None,
        }
    }
}

impl Default for AppConfig {
    /// Repository beside the base directory, a saved password file, the
    /// dark theme.
    fn default() -> (res: AppConfig)
        ensures
            res.repo_path@ == "../repo"@,
            opt_view(res.password_file) == Some(default_password_file()),
            res.theme@ == "Dark"@,
            res.save_password,
    {
        AppConfig {
            repo_path: "../repo".to_string(),
            password_file: Some("../.password".to_string()),
            theme: "Dark".to_string(),
            save_password: true,
        }
    }
}

} // verus!
