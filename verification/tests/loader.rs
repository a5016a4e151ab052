use ini::Ini;
use wiki_tui_config::config::Config;
use wiki_tui_config::path::ConfigPath;
use wiki_tui_config::settings::LogLevel;

fn somewhere() -> ConfigPath {
    ConfigPath::new(String::from("/home/user/.config"))
}

fn loaded(text: &str) -> Config {
    match Config::new(somewhere(), text) {
        Ok(config) => config,
        Err(error) => panic!("{:?}", error),
    }
}

#[test]
fn empty_file_gives_all_defaults() {
    let mut config = loaded("");
    assert_eq!(config.get_logging_config().log_output, "wiki_tui.log");
    assert_eq!(config.get_logging_config().log_level, LogLevel::Off);
    assert_eq!(config.get_api_config().base_url, "https://en.wikipedia.org/w/api.php");
}

#[test]
fn api_section_alone_leaves_logging_at_its_defaults() {
    let mut config = loaded("[Api]\nBASE_URL = http://localhost:9999");
    assert_eq!(config.get_api_config().base_url, "http://localhost:9999");
    assert_eq!(config.get_logging_config().log_output, "wiki_tui.log");
    assert_eq!(config.get_logging_config().log_level, LogLevel::Off);
}

#[test]
fn log_level_alone_leaves_log_output_at_its_default() {
    let mut config = loaded("[Logging]\nLOG_LEVEL = DEBUG");
    assert_eq!(config.get_logging_config().log_output, "wiki_tui.log");
    assert_eq!(config.get_logging_config().log_level, LogLevel::Debug);
    assert_eq!(config.get_api_config().base_url, "https://en.wikipedia.org/w/api.php");
}

#[test]
fn full_file_is_read_as_written() {
    let text = "[Api]\nBASE_URL = https://de.wikipedia.org/w/api.php\n\n\
                [Logging]\nLOG_OUTPUT = /tmp/wiki.log\nLOG_LEVEL = TRACE\n";
    let mut config = loaded(text);
    assert_eq!(config.get_logging_config().log_output, "/tmp/wiki.log");
    assert_eq!(config.get_logging_config().log_level, LogLevel::Trace);
    assert_eq!(config.get_api_config().base_url, "https://de.wikipedia.org/w/api.php");
}

#[test]
fn missing_logging_section_gives_logging_defaults() {
    let texts = [
        "",
        "[Api]\nBASE_URL = x",
        "[Other]\nLOG_LEVEL = DEBUG\nLOG_OUTPUT = other.log",
        "LOG_LEVEL = DEBUG\nLOG_OUTPUT = general.log",
        "[logging]\nLOG_LEVEL = DEBUG",
        "[LOGGING]\nLOG_OUTPUT = upper.log",
    ];
    for text in texts {
        let config = loaded(text);
        assert_eq!(config.get_logging_config().log_output, "wiki_tui.log");
        assert_eq!(config.get_logging_config().log_level, LogLevel::Off);
    }
}

#[test]
fn missing_api_section_gives_the_default_endpoint() {
    let texts = [
        "",
        "[Logging]\nLOG_LEVEL = INFO",
        "[Other]\nBASE_URL = http://other",
        "BASE_URL = http://general",
        "[api]\nBASE_URL = http://lower",
        "[API]\nBASE_URL = http://upper",
    ];
    for text in texts {
        let mut config = loaded(text);
        assert_eq!(config.get_api_config().base_url, "https://en.wikipedia.org/w/api.php");
    }
}

#[test]
fn missing_keys_in_present_sections_get_defaults() {
    let mut config = loaded("[Logging]\nOTHER = 1\n[Api]\nOTHER = 2\n");
    assert_eq!(config.get_logging_config().log_output, "wiki_tui.log");
    assert_eq!(config.get_logging_config().log_level, LogLevel::Off);
    assert_eq!(config.get_api_config().base_url, "https://en.wikipedia.org/w/api.php");

    let mut empty_sections = loaded("[Logging]\n[Api]\n");
    assert_eq!(empty_sections.get_logging_config().log_output, "wiki_tui.log");
    assert_eq!(empty_sections.get_logging_config().log_level, LogLevel::Off);
    assert_eq!(empty_sections.get_api_config().base_url, "https://en.wikipedia.org/w/api.php");
}

#[test]
fn keys_are_matched_exactly() {
    let config = loaded("[Logging]\nlog_level = DEBUG\nLog_Output = x.log\n");
    assert_eq!(config.get_logging_config().log_output, "wiki_tui.log");
    assert_eq!(config.get_logging_config().log_level, LogLevel::Off);
}

#[test]
fn each_level_name_in_a_file_is_read_as_its_level() {
    let cases = [
        ("OFF", LogLevel::Off),
        ("TRACE", LogLevel::Trace),
        ("DEBUG", LogLevel::Debug),
        ("INFO", LogLevel::Info),
        ("WARN", LogLevel::Warn),
        ("ERROR", LogLevel::Error),
    ];
    for (name, level) in cases {
        let config = loaded(&format!("[Logging]\nLOG_LEVEL = {}\n", name));
        assert_eq!(config.get_logging_config().log_level, level);
    }
}

#[test]
fn unknown_level_in_a_file_switches_logging_off() {
    for name in ["", "debug", "Info", "warning", "VERBOSE", "1", "TRACE!"] {
        let config = loaded(&format!("[Logging]\nLOG_OUTPUT = kept.log\nLOG_LEVEL = {}\n", name));
        assert_eq!(config.get_logging_config().log_level, LogLevel::Off);
        assert_eq!(config.get_logging_config().log_output, "kept.log");
    }
}

#[test]
fn absent_level_key_switches_logging_off() {
    let config = loaded("[Logging]\nLOG_OUTPUT = kept.log\n");
    assert_eq!(config.get_logging_config().log_level, LogLevel::Off);
    assert_eq!(config.get_logging_config().log_output, "kept.log");
}

#[test]
fn base_url_is_not_validated() {
    let mut odd = loaded("[Api]\nBASE_URL = not a url at all\n");
    assert_eq!(odd.get_api_config().base_url, "not a url at all");

    let mut empty = loaded("[Api]\nBASE_URL =\n");
    assert_eq!(empty.get_api_config().base_url, "");
}

#[test]
fn first_of_repeated_sections_and_keys_counts() {
    let mut keys = loaded("[Api]\nBASE_URL = http://first\nBASE_URL = http://second\n");
    assert_eq!(keys.get_api_config().base_url, "http://first");

    let sections = loaded("[Logging]\nLOG_LEVEL = WARN\n[Api]\n[Logging]\nLOG_LEVEL = TRACE\n");
    assert_eq!(sections.get_logging_config().log_level, LogLevel::Warn);
}

#[test]
fn loading_valid_files_never_fails() {
    let texts = [
        "",
        "\n\n",
        "; only a comment\n",
        "# only a comment\n",
        "stray = value\n",
        "[Logging]\n",
        "[Api]\n",
        "[Logging]\nLOG_LEVEL = nonsense\n",
        "[Unknown]\nKEY = value\n",
        "[Api]\nBASE_URL = http://a\n[Logging]\nLOG_OUTPUT = b\nLOG_LEVEL = ERROR\n",
        "[Api]\r\nBASE_URL = http://a\r\n",
    ];
    for text in texts {
        assert!(Ini::load_from_str(text).is_ok());
        let mut config = Config::default();
        assert_eq!(config.load(text), Ok(()));
        assert!(config.logging_config.is_some());
        assert!(config.api_config.is_some());
    }
}

#[test]
fn malformed_file_is_rejected_with_its_position() {
    let text = "[Logging\nLOG_LEVEL = DEBUG";
    let expected = match Ini::load_from_str(text) {
        Ok(_) => panic!("the parser accepts the text"),
        Err(error) => error,
    };
    let mut config = Config::default();
    match config.load(text) {
        Ok(()) => panic!("the text was loaded"),
        Err(error) => {
            assert_eq!(error.line, expected.line);
            assert_eq!(error.col, expected.col);
            assert_eq!(error.message, expected.msg);
            assert!(error.line >= 1);
        }
    }
    assert!(config.logging_config.is_none());
    assert!(config.api_config.is_none());
    assert!(config.config_path.is_none());
    assert!(Config::new(somewhere(), text).is_err());
}

#[test]
fn failed_load_keeps_earlier_settings() {
    let mut config = loaded("[Logging]\nLOG_LEVEL = INFO\n");
    assert!(config.load("[Api\n").is_err());
    assert_eq!(config.get_logging_config().log_level, LogLevel::Info);
    assert_eq!(config.config_path, Some(somewhere()));
    assert_eq!(config.get_api_config().base_url, "https://en.wikipedia.org/w/api.php");
}

#[test]
fn byte_order_mark_in_front_of_a_file_is_skipped() {
    let config = loaded("\u{feff}[Logging]\nLOG_LEVEL = ERROR\n");
    assert_eq!(config.get_logging_config().log_level, LogLevel::Error);
}

#[test]
fn new_records_the_location() {
    let config = loaded("");
    assert_eq!(config.config_path, Some(somewhere()));
}

#[test]
fn load_keeps_the_location() {
    let mut config = Config::default();
    config.config_path = Some(somewhere());
    assert_eq!(config.load("[Api]\nBASE_URL = http://x\n"), Ok(()));
    assert_eq!(config.config_path, Some(somewhere()));

    let mut nowhere = Config::default();
    assert_eq!(nowhere.load(""), Ok(()));
    assert_eq!(nowhere.config_path, None);
}

#[test]
fn load_replaces_earlier_settings() {
    let mut config = loaded("[Logging]\nLOG_LEVEL = INFO\n[Api]\nBASE_URL = http://old\n");
    assert_eq!(config.load("[Logging]\nLOG_OUTPUT = new.log\n"), Ok(()));
    assert_eq!(config.get_logging_config().log_output, "new.log");
    assert_eq!(config.get_logging_config().log_level, LogLevel::Off);
    assert_eq!(config.get_api_config().base_url, "https://en.wikipedia.org/w/api.php");
}

#[test]
fn section_loaders_read_a_parsed_document() {
    let mut document = Ini::new();
    document.with_section(Some("Logging")).set("LOG_OUTPUT", "doc.log").set("LOG_LEVEL", "WARN");
    document.with_section(Some("Api")).set("BASE_URL", "http://doc");

    let mut config = Config::default();
    config.load_logging(&document);
    assert!(config.api_config.is_none());
    assert_eq!(config.get_logging_config().log_output, "doc.log");
    assert_eq!(config.get_logging_config().log_level, LogLevel::Warn);

    config.load_api(&document);
    assert_eq!(config.get_logging_config().log_output, "doc.log");
    assert_eq!(config.get_api_config().base_url, "http://doc");
}

#[test]
fn section_loaders_fill_in_defaults_for_an_empty_document() {
    let document = Ini::new();
    let mut config = Config::default();
    config.load_api(&document);
    assert!(config.logging_config.is_none());
    config.load_logging(&document);
    assert_eq!(config.get_logging_config().log_output, "wiki_tui.log");
    assert_eq!(config.get_logging_config().log_level, LogLevel::Off);
    assert_eq!(config.get_api_config().base_url, "https://en.wikipedia.org/w/api.php");
}

#[test]
fn default_configuration_is_empty() {
    let config = Config::default();
    assert!(config.api_config.is_none());
    assert!(config.logging_config.is_none());
    assert!(config.config_path.is_none());
}

#[test]
fn logging_settings_can_be_read_again_and_again() {
    let config = loaded("[Logging]\nLOG_OUTPUT = again.log\nLOG_LEVEL = INFO\n");
    let first = config.get_logging_config().clone();
    let second = config.get_logging_config().clone();
    assert_eq!(first, second);
    assert_eq!(first.log_output, "again.log");
    assert_eq!(first.log_level, LogLevel::Info);
}

#[test]
fn api_settings_are_handed_over_once() {
    let mut config = loaded("[Api]\nBASE_URL = http://once\n");
    let api = config.get_api_config();
    assert_eq!(api.base_url, "http://once");
    assert!(config.api_config.is_none());
    assert_eq!(config.get_logging_config().log_output, "wiki_tui.log");
    assert_eq!(config.config_path, Some(somewhere()));
}
