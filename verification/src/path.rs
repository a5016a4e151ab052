//! Where the configuration file lives.

use vstd::prelude::*;

verus! {

/// The application's own directory below the user's configuration directory.
pub const APP_CONFIG_DIR: &'static str = "wiki-tui";

/// The name of the configuration file inside that directory.
pub const CONFIG_FILE_NAME: &'static str = "config.ini";

/// The location of the configuration file, resolved once from the user's
/// configuration directory. A location is a list of path components, so
/// that it means the same on every platform.
#[derive(Debug, PartialEq, Eq)]
pub struct ConfigPath {
    /// The user's configuration directory, as the platform names it.
    pub config_dir: String,
}

impl ConfigPath {
    /// The components of the application's directory.
    pub open spec fn spec_directory(self) -> Seq<Seq<char>> {
        seq![self.config_dir@, APP_CONFIG_DIR@]
    }

    /// The components of the configuration file.
    pub open spec fn spec_file(self) -> Seq<Seq<char>> {
        seq![self.config_dir@, APP_CONFIG_DIR@, CONFIG_FILE_NAME@]
    }

    /// The location of the configuration file below a configuration directory.
    pub fn new(config_dir: String) -> (path: ConfigPath)
        ensures
            path == (ConfigPath { config_dir }),
    {
        ConfigPath { config_dir }
    }

    /// The components of the application's directory, outermost first.
    pub fn directory(&self) -> (parts: (&str, &str))
        ensures
            seq![parts.0@, parts.1@] == self.spec_directory(),
    {
        (self.config_dir.as_str(), APP_CONFIG_DIR)
    }

    /// The components of the configuration file, outermost first.
    pub fn file(&self) -> (parts: (&str, &str, &str))
        ensures
            seq![parts.0@, parts.1@, parts.2@] == self.spec_file(),
    {
        (self.config_dir.as_str(), APP_CONFIG_DIR, CONFIG_FILE_NAME)
    }

    /// A second handle on the same location.
    pub fn duplicate(&self) -> (copy: ConfigPath)
        ensures
            copy == *self,
    {
        ConfigPath { config_dir: self.config_dir.clone() }
    }
}

impl View for ConfigPath {
    type V = Seq<Seq<char>>;

    open spec fn view(&self) -> Seq<Seq<char>> {
        self.spec_file()
    }
}

} // verus!
