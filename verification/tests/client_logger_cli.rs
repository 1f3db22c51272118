use wictk::client_logger::cli::{CliError, OptionName, Opts};
use wictk::log_level::LogLevel;

#[test]
fn opts_has_expected_defaults() {
    let opts = Opts::parse_from(&["client_logger", "--locations", "Trondheim"]);
    assert_eq!(opts.service_url, "http://wictk.frikk.io/");
    assert_eq!(opts.hemrs_url, "http://hemrs.frikk.io/");
    assert!(!opts.store_lightning);
    assert!(matches!(opts.log_level, LogLevel::Info));
}

#[test]
fn locations_are_kept_in_order() {
    let opts = Opts::parse_from(&[
        "client_logger",
        "--locations",
        "Trondheim",
        "-l",
        "Oslo",
        "--locations=Bergen",
    ]);
    assert_eq!(opts.locations, vec!["Trondheim", "Oslo", "Bergen"]);
}

#[test]
fn custom_urls_and_switch_are_read() {
    let opts = Opts::parse_from(&[
        "client_logger",
        "--locations",
        "TestCity",
        "--service-url",
        "http://service/",
        "-r",
        "http://hemrs/",
        "--store-lightning",
        "--log-level",
        "debug",
    ]);
    assert_eq!(opts.service_url, "http://service/");
    assert_eq!(opts.hemrs_url, "http://hemrs/");
    assert!(opts.store_lightning);
    assert!(matches!(opts.log_level, LogLevel::Debug));
}

#[test]
fn missing_locations_is_refused() {
    let result = Opts::try_parse_from(&["client_logger"]);
    assert!(matches!(result, Err(CliError::MissingLocations)));
}

#[test]
fn unknown_argument_is_refused() {
    let result = Opts::try_parse_from(&["client_logger", "--locations", "Oslo", "--bogus"]);
    match result {
        Err(CliError::UnknownArgument(arg)) => assert_eq!(arg, "--bogus"),
        other => panic!("unexpected result: {:?}", other.is_ok()),
    }
}

#[test]
fn option_without_value_is_refused() {
    let result = Opts::try_parse_from(&["client_logger", "--locations"]);
    assert!(matches!(result, Err(CliError::MissingValue(OptionName::Locations))));
    let result = Opts::try_parse_from(&["client_logger", "--locations", "--store-lightning"]);
    assert!(matches!(result, Err(CliError::MissingValue(OptionName::Locations))));
}

#[test]
fn repeated_single_option_is_refused() {
    let result = Opts::try_parse_from(&[
        "client_logger",
        "--locations",
        "Oslo",
        "--service-url",
        "a",
        "-s",
        "b",
    ]);
    assert!(matches!(result, Err(CliError::RepeatedOption(OptionName::ServiceUrl))));
    let result = Opts::try_parse_from(&[
        "client_logger",
        "--locations",
        "Oslo",
        "--store-lightning",
        "--store-lightning",
    ]);
    assert!(matches!(result, Err(CliError::RepeatedOption(OptionName::StoreLightning))));
}

#[test]
fn switch_with_value_is_refused() {
    let result = Opts::try_parse_from(&["client_logger", "-l", "Oslo", "--store-lightning=yes"]);
    assert!(matches!(result, Err(CliError::UnexpectedValue(OptionName::StoreLightning))));
}

#[test]
fn invalid_log_level_is_refused() {
    let result = Opts::try_parse_from(&["client_logger", "-l", "Oslo", "--log-level", "loud"]);
    match result {
        Err(CliError::InvalidLogLevel(value)) => assert_eq!(value, "loud"),
        _ => panic!("expected an invalid log level"),
    }
}

#[test]
fn short_options_take_attached_values() {
    let opts = Opts::parse_from(&["client_logger", "-lOslo", "-l=Bergen", "-shttp://service/"]);
    assert_eq!(opts.locations, vec!["Oslo", "Bergen"]);
    assert_eq!(opts.service_url, "http://service/");
}

#[test]
fn help_is_requested() {
    assert!(matches!(
        Opts::try_parse_from(&["client_logger", "--help"]),
        Err(CliError::HelpRequested)
    ));
    assert!(matches!(
        Opts::try_parse_from(&["client_logger", "--locations", "Oslo", "-h"]),
        Err(CliError::HelpRequested)
    ));
}

#[test]
fn double_dash_ends_the_options() {
    let opts = Opts::parse_from(&["client_logger", "--locations", "Oslo", "--"]);
    assert_eq!(opts.locations, vec!["Oslo"]);
    match Opts::try_parse_from(&["client_logger", "--locations", "Oslo", "--", "extra"]) {
        Err(CliError::UnknownArgument(arg)) => assert_eq!(arg, "extra"),
        other => panic!("unexpected result: {:?}", other.is_ok()),
    }
}
