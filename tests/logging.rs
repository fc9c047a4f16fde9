use clap::{App, Arg};
use log::LevelFilter;
use std::path::Path;

use ss_logging::install::plan_config;
use ss_logging::plan::{log_pattern, logger_bindings, named_threshold, root_threshold};
use ss_logging::settings::{resolve_verbosity, resolve_without_time};
use ss_logging::{init_with_config, init_with_file, init_with_settings, InitError, LoggingPlan};

const NAMED: [&str; 4] = ["ssserver", "shadowsocks_rust", "shadowsocks", "shadowsocks_service"];

fn assert_named(plan: &LoggingPlan, level: LevelFilter) {
    assert_eq!(plan.loggers.len(), 4);
    for (binding, name) in plan.loggers.iter().zip(NAMED.iter()) {
        assert_eq!(binding.name, *name);
        assert_eq!(binding.level, level);
    }
}

fn plan_for(occurrences: u64, verbose_env: Option<&str>, flag: bool, time_env: Option<&str>) -> LoggingPlan {
    let verbosity = resolve_verbosity(occurrences, verbose_env);
    let without_time = resolve_without_time(flag, time_env);
    LoggingPlan::new("ssserver", verbosity, without_time)
}

#[test]
fn defaults_without_flags_or_environment() {
    assert_eq!(resolve_verbosity(0, None), 0);
    assert!(!resolve_without_time(false, None));
    let plan = plan_for(0, None, false, None);
    assert_eq!(plan.pattern, "{d} {h({l}):<5} {m}{n}");
    assert_named(&plan, LevelFilter::Info);
    assert_eq!(plan.root, LevelFilter::Off);
}

#[test]
fn two_occurrences_trace_named_root_off() {
    let plan = plan_for(2, None, false, None);
    assert_named(&plan, LevelFilter::Trace);
    assert_eq!(plan.root, LevelFilter::Off);
    assert!(plan.pattern.contains("[{P}:{I}] [{M}] "));
    assert_eq!(plan.pattern, "{d} {h({l}):<5} [{P}:{I}] [{M}] {m}{n}");
}

#[test]
fn environment_verbosity_three() {
    assert_eq!(resolve_verbosity(0, Some("3")), 3);
    let plan = plan_for(0, Some("3"), false, None);
    assert_named(&plan, LevelFilter::Trace);
    assert_eq!(plan.root, LevelFilter::Debug);
}

#[test]
fn five_occurrences_root_trace_only() {
    let plan = plan_for(5, None, false, None);
    assert!(plan.loggers.is_empty());
    assert_eq!(plan.root, LevelFilter::Trace);
}

#[test]
fn missing_configuration_file_is_a_load_error() {
    let r = init_with_file(Path::new("/nonexistent/logging/config.yaml"));
    assert!(matches!(r, Err(InitError::Load(_))));
}

#[test]
fn named_thresholds_by_verbosity() {
    assert_eq!(named_threshold(0), Some(LevelFilter::Info));
    assert_eq!(named_threshold(1), Some(LevelFilter::Debug));
    assert_eq!(named_threshold(2), Some(LevelFilter::Trace));
    assert_eq!(named_threshold(3), Some(LevelFilter::Trace));
    assert_eq!(named_threshold(4), None);
    assert_eq!(named_threshold(u64::MAX), None);
    for v in 0..4u64 {
        let plan = LoggingPlan::new("ssserver", v, false);
        let first = plan.loggers[0].level;
        assert!(plan.loggers.iter().all(|b| b.level == first));
    }
    assert!(LevelFilter::Info < LevelFilter::Debug && LevelFilter::Debug < LevelFilter::Trace);
}

#[test]
fn root_thresholds_by_verbosity() {
    assert_eq!(root_threshold(0), LevelFilter::Off);
    assert_eq!(root_threshold(1), LevelFilter::Off);
    assert_eq!(root_threshold(2), LevelFilter::Off);
    assert_eq!(root_threshold(3), LevelFilter::Debug);
    assert_eq!(root_threshold(4), LevelFilter::Trace);
    assert_eq!(root_threshold(99), LevelFilter::Trace);
    assert!(logger_bindings("ssserver", 4).is_empty());
    assert_eq!(logger_bindings("sslocal", 1)[0].name, "sslocal");
}

#[test]
fn pattern_shapes() {
    assert_eq!(log_pattern(0, false), "{d} {h({l}):<5} {m}{n}");
    assert_eq!(log_pattern(0, true), "{h({l}):<5} {m}{n}");
    assert_eq!(log_pattern(1, false), "{d} {h({l}):<5} [{P}:{I}] [{M}] {m}{n}");
    assert_eq!(log_pattern(7, true), "{h({l}):<5} [{P}:{I}] [{M}] {m}{n}");
}

#[test]
fn verbosity_override_rules() {
    assert_eq!(resolve_verbosity(2, Some("4")), 2);
    assert_eq!(resolve_verbosity(0, Some("+4")), 4);
    assert_eq!(resolve_verbosity(0, Some("0")), 0);
    assert_eq!(resolve_verbosity(0, Some("-1")), 0);
    assert_eq!(resolve_verbosity(0, Some(" 3")), 0);
    assert_eq!(resolve_verbosity(0, Some("")), 0);
    assert_eq!(resolve_verbosity(0, Some("abc")), 0);
    assert_eq!(resolve_verbosity(0, Some("18446744073709551615")), u64::MAX);
    assert_eq!(resolve_verbosity(0, Some("18446744073709551616")), 0);
}

#[test]
fn time_override_rules() {
    assert!(resolve_without_time(true, None));
    assert!(resolve_without_time(true, Some("0")));
    assert!(resolve_without_time(false, Some("1")));
    assert!(resolve_without_time(false, Some("17")));
    assert!(!resolve_without_time(false, Some("0")));
    assert!(!resolve_without_time(false, Some("yes")));
    assert!(resolve_without_time(false, Some("4294967296")));
    assert!(resolve_without_time(false, Some("-1")));
    assert!(resolve_without_time(false, Some("+00010")));
    assert!(resolve_without_time(false, Some("99999999999999999999999")));
    assert!(!resolve_without_time(false, Some("-0")));
    assert!(!resolve_without_time(false, Some("000")));
    assert!(!resolve_without_time(false, Some("-")));
    assert!(!resolve_without_time(false, Some("")));
    assert!(!resolve_without_time(false, Some("1x")));
    assert!(!resolve_without_time(false, Some(" 1")));
    let plan = plan_for(0, None, false, Some("1"));
    assert_eq!(plan.pattern, "{h({l}):<5} {m}{n}");
}

#[test]
fn install_once_per_process() {
    let matches = App::new("ssserver")
        .arg(Arg::with_name("VERBOSE").short("v").multiple(true))
        .arg(Arg::with_name("LOG_WITHOUT_TIME").long("log-without-time"))
        .get_matches_from(vec!["ssserver", "-vvv", "--log-without-time"]);
    let plan = init_with_settings("ssserver", 1, false, None, Some("1")).expect("first install");
    assert_eq!(plan.pattern, "{h({l}):<5} [{P}:{I}] [{M}] {m}{n}");
    assert_named(&plan, LevelFilter::Debug);
    assert_eq!(plan.root, LevelFilter::Off);
    assert_eq!(log::max_level(), LevelFilter::Debug);
    let again = init_with_settings("ssserver", 0, false, None, None);
    assert!(matches!(again, Err(InitError::Install(_))));
    assert!(matches!(
        init_with_config("ssserver", &matches, None, None),
        Err(InitError::Install(_))
    ));
    assert!(matches!(
        init_with_config("shadowsocks", &matches, None, None),
        Err(InitError::Config(_))
    ));
}

#[test]
fn refused_binary_names() {
    for name in ["shadowsocks", "shadowsocks_rust", "shadowsocks_service", "", "a:b", "a:::b", "a::"] {
        let r = init_with_settings(name, 0, false, None, None);
        assert!(matches!(r, Err(InitError::Config(_))), "{}", name);
        assert!(plan_config(&LoggingPlan::new(name, 3, false)).is_err());
        assert!(plan_config(&LoggingPlan::new(name, 4, false)).is_ok());
    }
    assert!(plan_config(&LoggingPlan::new("a::b", 2, false)).is_ok());
    assert!(plan_config(&LoggingPlan::new("::b", 2, false)).is_ok());
}

#[test]
fn configuration_of_a_plan() {
    let plan = LoggingPlan::new("ssserver", 3, true);
    let config = plan_config(&plan).expect("valid wiring");
    assert_eq!(config.appenders().len(), 1);
    assert_eq!(config.appenders()[0].name(), "console");
    assert_eq!(config.root().level(), LevelFilter::Debug);
    assert_eq!(config.root().appenders(), &["console".to_string()][..]);
    assert_eq!(config.loggers().len(), 4);
    for (logger, name) in config.loggers().iter().zip(NAMED.iter()) {
        assert_eq!(logger.name(), *name);
        assert_eq!(logger.level(), LevelFilter::Trace);
        assert!(logger.appenders().is_empty());
        assert!(logger.additive());
    }
    let config = plan_config(&LoggingPlan::new("ssserver", 5, false)).expect("valid wiring");
    assert!(config.loggers().is_empty());
    assert_eq!(config.root().level(), LevelFilter::Trace);
    assert_eq!(config.root().appenders(), &["console".to_string()][..]);
}
