//! The configuration object and the loader that fills it from INI text.

use crate::error::SyntaxError;
use crate::ini_file::{ini_parse, ini_sections, parse, section, value};
use crate::path::ConfigPath;
use crate::settings::{
    api_from, is_level_name, lemma_level_names_round_trip, logging_from, ApiConfig, ApiSettings,
    LogLevel, LoggingConfig, LoggingSettings,
};
use crate::text::{spec_without_bom, without_bom};
use vstd::prelude::*;

verus! {

/// The section that holds the logging settings.
pub const LOGGING_SECTION: &'static str = "Logging";

/// The key of the log's destination.
pub const LOG_OUTPUT_KEY: &'static str = "LOG_OUTPUT";

/// The key of the log level.
pub const LOG_LEVEL_KEY: &'static str = "LOG_LEVEL";

/// The section that holds the API settings.
pub const API_SECTION: &'static str = "Api";

/// The key of the API endpoint.
pub const BASE_URL_KEY: &'static str = "BASE_URL";

/// The value stored under a key of a named section, where the document has
/// that section and the section has that key.
pub open spec fn entry(
    sections: Map<Seq<char>, Map<Seq<char>, Seq<char>>>,
    section: Seq<char>,
    key: Seq<char>,
) -> Option<Seq<char>> {
    if sections.contains_key(section) && sections[section].contains_key(key) {
        Some(sections[section][key])
    } else {
        None
    }
}

/// The logging settings that a document asks for.
pub open spec fn logging_settings(
    sections: Map<Seq<char>, Map<Seq<char>, Seq<char>>>,
) -> LoggingSettings {
    logging_from(
        entry(sections, LOGGING_SECTION@, LOG_OUTPUT_KEY@),
        entry(sections, LOGGING_SECTION@, LOG_LEVEL_KEY@),
    )
}

/// The API settings that a document asks for.
pub open spec fn api_settings(sections: Map<Seq<char>, Map<Seq<char>, Seq<char>>>) -> ApiSettings {
    api_from(entry(sections, API_SECTION@, BASE_URL_KEY@))
}

/// The configuration of the application. The settings groups are absent
/// until the configuration is loaded; a loaded configuration has both, until
/// the API settings are taken out of it.
#[derive(Debug, PartialEq, Eq)]
pub struct Config {
    pub api_config: Option<ApiConfig>,
    pub logging_config: Option<LoggingConfig>,
    pub config_path: Option<ConfigPath>,
}

/// What a `Config` holds, as plain text.
pub struct ConfigView {
    pub api: Option<ApiSettings>,
    pub logging: Option<LoggingSettings>,
    pub path: Option<Seq<Seq<char>>>,
}

impl View for Config {
    type V = ConfigView;

    open spec fn view(&self) -> ConfigView {
        ConfigView {
            api: match self.api_config {
                Some(api) => Some(api@),
                None => None,
            },
            logging: match self.logging_config {
                Some(logging) => Some(logging@),
                None => None,
            },
            path: match self.config_path {
                Some(path) => Some(path@),
                None => None,
            },
        }
    }
}

impl Config {
    /// Fills in the logging settings from a parsed document: what the
    /// `Logging` section says, and the default for every key it leaves out
    /// and for the section as a whole where the document has none.
    pub fn load_logging(&mut self, document: &ini::Ini)
        ensures
            final(self)@.logging == Some(logging_settings(ini_sections(*document))),
            final(self).api_config == old(self).api_config,
            final(self).config_path == old(self).config_path,
    {
        let logging = match section(document, LOGGING_SECTION) {
            Some(entries) => LoggingConfig::from_entries(
                value(entries, LOG_OUTPUT_KEY),
                value(entries, LOG_LEVEL_KEY),
            ),
            None => LoggingConfig::from_entries(None, None),
        };
        self.logging_config = Some(logging);
    }

    /// Fills in the API settings from a parsed document: what the `Api`
    /// section says, and the default where the key or the section is absent.
    pub fn load_api(&mut self, document: &ini::Ini)
        ensures
            final(self)@.api == Some(api_settings(ini_sections(*document))),
            final(self).logging_config == old(self).logging_config,
            final(self).config_path == old(self).config_path,
    {
        let api = match section(document, API_SECTION) {
            Some(entries) => ApiConfig::from_entry(value(entries, BASE_URL_KEY)),
            None => ApiConfig::from_entry(None),
        };
        self.api_config = Some(api);
    }

    /// Loads both settings groups from the text of the configuration file.
    /// A byte-order mark in front of the text is skipped, as the parser's
    /// own file reader does. Once the text parses, loading cannot fail:
    /// every key has a default. Text that does not parse leaves the
    /// configuration as it was.
    pub fn load(&mut self, text: &str) -> (outcome: Result<(), SyntaxError>)
        ensures
            (match ini_parse(spec_without_bom(text@)) {
                Ok(sections) => {
                    &&& outcome is Ok
                    &&& final(self)@.logging == Some(logging_settings(sections))
                    &&& final(self)@.api == Some(api_settings(sections))
                    &&& final(self).config_path == old(self).config_path
                },
                Err(reported) => {
                    &&& outcome matches Err(error)
                    &&& error@ == reported
                    &&& *final(self) == *old(self)
                },
            }),
    {
        match parse(without_bom(text)) {
            Ok(document) => {
                self.load_logging(&document);
                self.load_api(&document);
                Ok(())
            },
            Err(error) => Err(error),
        }
    }

    /// The configuration found at a location, given the text of the file
    /// there: its settings are those that `load` reads from the text.
    pub fn new(config_path: ConfigPath, text: &str) -> (loaded: Result<Config, SyntaxError>)
        ensures
            (match ini_parse(spec_without_bom(text@)) {
                Ok(sections) => {
                    &&& loaded matches Ok(config)
                    &&& config@.logging == Some(logging_settings(sections))
                    &&& config@.api == Some(api_settings(sections))
                    &&& config.config_path == Some(config_path)
                },
                Err(reported) => {
                    &&& loaded matches Err(error)
                    &&& error@ == reported
                },
            }),
    {
        let mut config = Config::default();
        config.config_path = Some(config_path);
        match config.load(text) {
            Ok(()) => Ok(config),
            Err(error) => Err(error),
        }
    }

    /// The logging settings. They can be looked at as often as needed, but
    /// only in a configuration that has been loaded.
    pub fn get_logging_config(&self) -> (logging: &LoggingConfig)
        requires
            self.logging_config is Some,
        ensures
            self.logging_config == Some(*logging),
    {
        self.logging_config.as_ref().unwrap()
    }

    /// Hands the API settings over to the caller. This can be done once:
    /// afterwards the configuration no longer has them.
    pub fn get_api_config(&mut self) -> (api: ApiConfig)
        requires
            old(self).api_config is Some,
        ensures
            old(self).api_config == Some(api),
            final(self).api_config is None,
            final(self).logging_config == old(self).logging_config,
            final(self).config_path == old(self).config_path,
    {
        let api = self.api_config.take();
        api.unwrap()
    }
}

impl Default for Config {
    /// A configuration with no location and no settings yet.
    fn default() -> (config: Config)
        ensures
            config.api_config is None,
            config.logging_config is None,
            config.config_path is None,
    {
        Config { api_config: None, logging_config: None, config_path: None }
    }
}

/// A document without a `Logging` section gets the default log output and
/// logging switched off.
pub proof fn lemma_logging_defaults(sections: Map<Seq<char>, Map<Seq<char>, Seq<char>>>)
    requires
        !sections.contains_key("Logging"@),
    ensures
        logging_settings(sections) == (LoggingSettings {
            log_output: "wiki_tui.log"@,
            log_level: LogLevel::Off,
        }),
{
}

/// A document without an `Api` section gets the default endpoint.
pub proof fn lemma_api_defaults(sections: Map<Seq<char>, Map<Seq<char>, Seq<char>>>)
    requires
        !sections.contains_key("Api"@),
    ensures
        api_settings(sections) == (ApiSettings { base_url: "https://en.wikipedia.org/w/api.php"@ }),
{
}

/// Logging is switched off whenever the document gives no `LOG_LEVEL`, or
/// gives one that is not among the six level names.
pub proof fn lemma_level_defaults(sections: Map<Seq<char>, Map<Seq<char>, Seq<char>>>)
    requires
        (match entry(sections, "Logging"@, "LOG_LEVEL"@) {
            Some(name) => !is_level_name(name),
            None => true,
        }),
    ensures
        logging_settings(sections).log_level == LogLevel::Off,
{
}

/// A document that names a level in its `Logging` section gets that level.
pub proof fn lemma_level_as_named(
    sections: Map<Seq<char>, Map<Seq<char>, Seq<char>>>,
    level: LogLevel,
)
    requires
        entry(sections, "Logging"@, "LOG_LEVEL"@) == Some(level.spec_name()),
    ensures
        logging_settings(sections).log_level == level,
{
    lemma_level_names_round_trip(level);
}

} // verus!
