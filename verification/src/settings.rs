//! The typed settings groups, their defaults, and how the raw strings of the
//! configuration file turn into them.

use crate::text::same_text;
use vstd::prelude::*;

verus! {

/// Where log output goes when the file does not say.
pub const DEFAULT_LOG_OUTPUT: &'static str = "wiki_tui.log";

/// Where API requests go when the file does not say.
pub const DEFAULT_BASE_URL: &'static str = "https://en.wikipedia.org/w/api.php";

/// How much diagnostic output is let through, from none at all to everything.
#[derive(Clone, Copy, Debug, PartialEq, Eq, Structural, PartialOrd, Ord, Hash)]
pub enum LogLevel {
    Off,
    Error,
    Warn,
    Info,
    Debug,
    Trace,
}

/// The level that a `LOG_LEVEL` value stands for. The six names are matched
/// exactly and in upper case; every other text means `Off`.
pub open spec fn level_named(name: Seq<char>) -> LogLevel {
    if name == "TRACE"@ {
        LogLevel::Trace
    } else if name == "DEBUG"@ {
        LogLevel::Debug
    } else if name == "INFO"@ {
        LogLevel::Info
    } else if name == "WARN"@ {
        LogLevel::Warn
    } else if name == "ERROR"@ {
        LogLevel::Error
    } else {
        LogLevel::Off
    }
}

/// Whether a text is one of the six level names.
pub open spec fn is_level_name(name: Seq<char>) -> bool {
    ||| name == "OFF"@
    ||| name == "TRACE"@
    ||| name == "DEBUG"@
    ||| name == "INFO"@
    ||| name == "WARN"@
    ||| name == "ERROR"@
}

impl LogLevel {
    /// The name under which the configuration file knows a level.
    pub open spec fn spec_name(self) -> Seq<char> {
        match self {
            LogLevel::Off => "OFF"@,
            LogLevel::Error => "ERROR"@,
            LogLevel::Warn => "WARN"@,
            LogLevel::Info => "INFO"@,
            LogLevel::Debug => "DEBUG"@,
            LogLevel::Trace => "TRACE"@,
        }
    }

    /// Reads a `LOG_LEVEL` value. Unknown values are not an error: they
    /// switch logging off.
    pub fn from_name(name: &str) -> (level: LogLevel)
        ensures
            level == level_named(name@),
    {
        if same_text(name, "TRACE") {
            LogLevel::Trace
        } else if same_text(name, "DEBUG") {
            LogLevel::Debug
        } else if same_text(name, "INFO") {
            LogLevel::Info
        } else if same_text(name, "WARN") {
            LogLevel::Warn
        } else if same_text(name, "ERROR") {
            LogLevel::Error
        } else {
            LogLevel::Off
        }
    }
}

/// No two of the six level names are the same text.
proof fn lemma_level_names_differ()
    ensures
        "OFF"@.len() == 3,
        "INFO"@.len() == 4,
        "WARN"@.len() == 4,
        "TRACE"@.len() == 5,
        "DEBUG"@.len() == 5,
        "ERROR"@.len() == 5,
        "INFO"@[0] == 'I',
        "WARN"@[0] == 'W',
        "TRACE"@[0] == 'T',
        "DEBUG"@[0] == 'D',
        "ERROR"@[0] == 'E',
{
    reveal_strlit("OFF");
    reveal_strlit("INFO");
    reveal_strlit("WARN");
    reveal_strlit("TRACE");
    reveal_strlit("DEBUG");
    reveal_strlit("ERROR");
}

/// Each of the six level names is read as its own level, so reading a
/// level's name gives the level back and different names give different
/// levels.
pub proof fn lemma_level_names_round_trip(level: LogLevel)
    ensures
        is_level_name(level.spec_name()),
        level_named(level.spec_name()) == level,
{
    lemma_level_names_differ();
}

/// Reading is one-to-one on the six level names.
pub proof fn lemma_level_names_one_to_one(a: Seq<char>, b: Seq<char>)
    requires
        is_level_name(a),
        is_level_name(b),
        level_named(a) == level_named(b),
    ensures
        a == b,
{
    lemma_level_names_differ();
}

/// Whatever is not one of the six level names, the empty text and the names
/// in lower case among it, is read as `Off`.
pub proof fn lemma_unknown_level_is_off(name: Seq<char>)
    requires
        !is_level_name(name),
    ensures
        level_named(name) == LogLevel::Off,
{
}

/// The settings for talking to the wiki's API.
#[derive(Clone, Debug, PartialEq, Eq)]
pub struct ApiConfig {
    /// The endpoint that API requests are sent to. It is taken as written:
    /// nothing checks that it is a well-formed URL.
    pub base_url: String,
}

/// What an `ApiConfig` holds, as plain text.
pub struct ApiSettings {
    pub base_url: Seq<char>,
}

impl View for ApiConfig {
    type V = ApiSettings;

    open spec fn view(&self) -> ApiSettings {
        ApiSettings { base_url: self.base_url@ }
    }
}

/// The settings for diagnostic output.
#[derive(Clone, Debug, PartialEq, Eq)]
pub struct LoggingConfig {
    /// The file or sink that log output is written to.
    pub log_output: String,
    /// How much of it is let through.
    pub log_level: LogLevel,
}

/// What a `LoggingConfig` holds, as plain text.
pub struct LoggingSettings {
    pub log_output: Seq<char>,
    pub log_level: LogLevel,
}

impl View for LoggingConfig {
    type V = LoggingSettings;

    open spec fn view(&self) -> LoggingSettings {
        LoggingSettings { log_output: self.log_output@, log_level: self.log_level }
    }
}

/// The text of a value that may be absent.
pub open spec fn text_of(value: Option<&str>) -> Option<Seq<char>> {
    match value {
        Some(text) => Some(text@),
        None => None,
    }
}

/// The API settings that follow from the `BASE_URL` value, if there is one.
pub open spec fn api_from(base_url: Option<Seq<char>>) -> ApiSettings {
    ApiSettings {
        base_url: match base_url {
            Some(url) => url,
            None => DEFAULT_BASE_URL@,
        },
    }
}

/// The logging settings that follow from the `LOG_OUTPUT` and `LOG_LEVEL`
/// values, as far as they are there.
pub open spec fn logging_from(
    log_output: Option<Seq<char>>,
    log_level: Option<Seq<char>>,
) -> LoggingSettings {
    LoggingSettings {
        log_output: match log_output {
            Some(output) => output,
            None => DEFAULT_LOG_OUTPUT@,
        },
        log_level: match log_level {
            Some(name) => level_named(name),
            None => LogLevel::Off,
        },
    }
}

impl ApiConfig {
    /// Builds the API settings from the `BASE_URL` value, or from the
    /// default where the value is absent.
    pub fn from_entry(base_url: Option<&str>) -> (config: ApiConfig)
        ensures
            config@ == api_from(text_of(base_url)),
    {
        let base_url = match base_url {
            Some(url) => url.to_owned(),
            None => DEFAULT_BASE_URL.to_owned(),
        };
        ApiConfig { base_url }
    }
}

impl LoggingConfig {
    /// Builds the logging settings from the `LOG_OUTPUT` and `LOG_LEVEL`
    /// values, with the default for each one that is absent.
    pub fn from_entries(log_output: Option<&str>, log_level: Option<&str>) -> (config:
        LoggingConfig)
        ensures
            config@ == logging_from(text_of(log_output), text_of(log_level)),
    {
        let log_output = match log_output {
            Some(output) => output.to_owned(),
            None => DEFAULT_LOG_OUTPUT.to_owned(),
        };
        let log_level = match log_level {
            Some(name) => LogLevel::from_name(name),
            None => LogLevel::Off,
        };
        LoggingConfig { log_output, log_level }
    }
}

} // verus!
