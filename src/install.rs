//! Installing a configuration as the process-wide logger through `log4rs`.
use vstd::prelude::*;
use clap::ArgMatches;
use std::path::Path;
use log::{LevelFilter, SetLoggerError};
use log4rs::append::console::{ConsoleAppender, Target};
use log4rs::config::runtime::{ConfigBuilder, ConfigErrors};
use log4rs::config::{Appender, Config, Logger, Root};
use log4rs::encode::pattern::PatternEncoder;
use crate::plan::{named_loggers, planned_bindings, LoggingPlan};
use crate::settings::{
    resolve_verbosity, resolve_without_time, resolved_verbosity, resolved_without_time, text_of,
};

verus! {

/// `log4rs`'s configuration builder, carried through unopened.
#[verifier::external_type_specification]
#[verifier::external_body]
pub struct ExConfigBuilder(ConfigBuilder);

/// `log4rs`'s validated configuration, carried through unopened.
#[verifier::external_type_specification]
#[verifier::external_body]
pub struct ExConfig(Config);

/// The wiring errors that `log4rs` reports when it validates a configuration.
#[verifier::external_type_specification]
#[verifier::external_body]
pub struct ExConfigErrors(ConfigErrors);

/// The error `log` gives when a global logger is already installed.
#[verifier::external_type_specification]
#[verifier::external_body]
pub struct ExSetLoggerError(SetLoggerError);

/// The error `log4rs` gives when it cannot load a configuration file.
#[verifier::external_type_specification]
#[verifier::external_body]
pub struct ExAnyhowError(anyhow::Error);

/// A file-system path, carried through unopened.
#[verifier::external_type_specification]
#[verifier::external_body]
pub struct ExPath(Path);

/// `clap`'s parsed command line.
#[verifier::external_type_specification]
#[verifier::external_body]
pub struct ExArgMatches<'a>(ArgMatches<'a>);

/// `log4rs`'s choice of console stream; its variants are read as they are declared.
#[verifier::external_type_specification]
pub struct ExTarget(Target);

/// The console sinks a configuration builder holds, in order: (name, stream, pattern).
pub uninterp spec fn builder_sinks(b: ConfigBuilder) -> Seq<(Seq<char>, Target, Seq<char>)>;

/// The loggers a configuration builder holds, in order: (name, threshold). Each has no sink
/// of its own and passes its records on to the root's sinks.
pub uninterp spec fn builder_loggers(b: ConfigBuilder) -> Seq<(Seq<char>, LevelFilter)>;

/// The console sinks of a configuration, in order: (name, stream, pattern).
pub uninterp spec fn config_sinks(c: Config) -> Seq<(Seq<char>, Target, Seq<char>)>;

/// The loggers of a configuration, in order: (name, threshold), each without a sink of its
/// own and passing its records on to the root's sinks.
pub uninterp spec fn config_loggers(c: Config) -> Seq<(Seq<char>, LevelFilter)>;

/// The root logger of a configuration: its threshold and the names of its sinks.
pub uninterp spec fn config_root(c: Config) -> (LevelFilter, Seq<Seq<char>>);

/// How many times each argument that was given occurred on the command line.
pub uninterp spec fn arg_occurrences(m: ArgMatches) -> Map<Seq<char>, u64>;

/// The arguments (and the subcommand) that were given on the command line.
pub uninterp spec fn present_args(m: ArgMatches) -> Set<Seq<char>>;

/// How many times the argument `name` occurred; zero when it was not given.
pub open spec fn occurrences_in(m: ArgMatches, name: Seq<char>) -> u64 {
    if arg_occurrences(m).contains_key(name) {
        arg_occurrences(m)[name]
    } else {
        0
    }
}

/// A logger name that `log4rs` accepts: not empty, not ending in `:`, and every `:` one of a
/// pair `::` that stands alone.
pub open spec fn valid_logger_name(s: Seq<char>) -> bool {
    &&& s.len() > 0
    &&& s.last() != ':'
    &&& forall|i: int| 0 <= i < s.len() && #[trigger] s[i] == ':' ==> colon_in_pair(s, i)
}

/// The `:` at `i` is one of exactly two in a row.
pub open spec fn colon_in_pair(s: Seq<char>, i: int) -> bool {
    ||| (i + 1 < s.len() && s[i + 1] == ':' && (i == 0 || s[i - 1] != ':') && (i + 2 >= s.len()
        || s[i + 2] != ':'))
    ||| (i >= 1 && s[i - 1] == ':' && (i == 1 || s[i - 2] != ':') && (i + 1 >= s.len() || s[i
        + 1] != ':'))
}

/// Loggers that `log4rs` accepts together: valid names, no name twice.
pub open spec fn loggers_accepted(loggers: Seq<(Seq<char>, LevelFilter)>) -> bool {
    &&& forall|i: int| 0 <= i < loggers.len() ==> valid_logger_name(#[trigger] loggers[i].0)
    &&& forall|i: int, j: int|
        0 <= i < j < loggers.len() ==> (#[trigger] loggers[i]).0 != (#[trigger] loggers[j]).0
}

/// A configuration whose wiring `log4rs` accepts: no sink name twice, every sink of the root
/// defined, and the loggers accepted.
pub open spec fn wiring_accepted(
    sinks: Seq<(Seq<char>, Target, Seq<char>)>,
    loggers: Seq<(Seq<char>, LevelFilter)>,
    root_sinks: Seq<Seq<char>>,
) -> bool {
    &&& forall|i: int, j: int|
        0 <= i < j < sinks.len() ==> (#[trigger] sinks[i]).0 != (#[trigger] sinks[j]).0
    &&& forall|k: int|
        0 <= k < root_sinks.len() ==> exists|i: int|
            0 <= i < sinks.len() && (#[trigger] sinks[i]).0 == #[trigger] root_sinks[k]
    &&& loggers_accepted(loggers)
}

/// A binary name under which the default configuration is accepted: a valid logger name,
/// other than the three service loggers.
pub open spec fn bin_name_accepted(bin_name: Seq<char>) -> bool {
    &&& valid_logger_name(bin_name)
    &&& bin_name != "shadowsocks_rust"@
    &&& bin_name != "shadowsocks"@
    &&& bin_name != "shadowsocks_service"@
}

/// Name under which the console sink is registered, and by which loggers refer to it.
pub const CONSOLE_APPENDER: &'static str = "console";

/// Command-line argument whose occurrences give the verbosity.
pub const VERBOSE_ARG: &'static str = "VERBOSE";

/// Command-line flag that drops timestamps.
pub const WITHOUT_TIME_ARG: &'static str = "LOG_WITHOUT_TIME";

/// Why logging could not be set up.
#[derive(Debug)]
pub enum InitError {
    /// The configuration file is missing, unreadable or malformed.
    Load(anyhow::Error),
    /// The configuration was rejected as inconsistent.
    Config(ConfigErrors),
    /// The configuration could not be installed as the global logger.
    Install(SetLoggerError),
}

/// Relies on `log4rs::init_file` with the default deserializers: it reads the configuration
/// file at `path` and installs it, or returns the load error.
#[verifier::external_body]
fn load_config_file(path: &Path) -> Result<(), anyhow::Error> {
    log4rs::init_file(path, Default::default())
}

/// Relies on `Config::builder`, `Appender::builder`, `ConsoleAppender::builder` and
/// `PatternEncoder::new`: a configuration builder with no logger and one console sink named
/// `name` that writes lines rendered with `pattern` to `target`.
#[verifier::external_body]
fn console_config_builder(name: &str, target: Target, pattern: &str) -> (r: ConfigBuilder)
    ensures
        builder_sinks(r) == seq![(name@, target, pattern@)],
        builder_loggers(r) == Seq::<(Seq<char>, LevelFilter)>::empty(),
{
    let console = ConsoleAppender::builder()
        .encoder(Box::new(PatternEncoder::new(pattern)))
        .target(target)
        .build();
    Config::builder().appender(Appender::builder().build(name, Box::new(console)))
}

/// Relies on `Logger::builder` (no sink, additive) and `ConfigBuilder::logger`: appends the
/// logger `name` with threshold `level`.
#[verifier::external_body]
fn with_logger(builder: ConfigBuilder, name: &str, level: LevelFilter) -> (r: ConfigBuilder)
    ensures
        builder_sinks(r) == builder_sinks(builder),
        builder_loggers(r) == builder_loggers(builder).push((name@, level)),
{
    builder.logger(Logger::builder().build(name, level))
}

/// Relies on `Root::builder` and `ConfigBuilder::build`: closes the configuration with a root
/// logger at `level` writing to the sink `appender`. The wiring is validated: it fails exactly
/// on a sink name given twice, a root sink not defined, a logger name given twice or not
/// valid; otherwise everything is kept as given.
#[verifier::external_body]
fn build_config(builder: ConfigBuilder, appender: &str, level: LevelFilter) -> (r: Result<
    Config,
    ConfigErrors,
>)
    ensures
        r is Ok <==> wiring_accepted(
            builder_sinks(builder),
            builder_loggers(builder),
            seq![appender@],
        ),
        r matches Ok(c) ==> config_sinks(c) == builder_sinks(builder) && config_loggers(c)
            == builder_loggers(builder) && config_root(c) == (level, seq![appender@]),
{
    builder.build(Root::builder().appender(appender).build(level))
}

/// Relies on `log4rs::init_config`: installs `config` as the global logger, or fails when
/// one is installed already. The reload handle is not kept.
#[verifier::external_body]
fn install_config(config: Config) -> Result<(), SetLoggerError> {
    match log4rs::init_config(config) {
        Ok(_) => Ok(()),
        Err(e) => Err(e),
    }
}

/// Relies on `ArgMatches::occurrences_of`: how many times the argument `name` was given,
/// zero when it was not.
#[verifier::external_body]
fn occurrences_of(matches: &ArgMatches, name: &str) -> (r: u64)
    ensures
        arg_occurrences(*matches).contains_key(name@) ==> r == arg_occurrences(*matches)[name@],
        !arg_occurrences(*matches).contains_key(name@) ==> r == 0,
{
    matches.occurrences_of(name)
}

/// Relies on `ArgMatches::is_present`: whether the argument (or subcommand) `name` was given.
#[verifier::external_body]
fn is_present(matches: &ArgMatches, name: &str) -> (r: bool)
    ensures
        r == present_args(*matches).contains(name@),
{
    matches.is_present(name)
}

/// Installs the logging configuration described in the file at `path`.
pub fn init_with_file(path: &Path) -> (r: Result<(), InitError>)
    ensures
        r matches Err(e) ==> e is Load,
{
    match load_config_file(path) {
        Ok(()) => Ok(()),
        Err(e) => Err(InitError::Load(e)),
    }
}

/// The `log4rs` configuration of `plan`: one console sink named `console` on standard error
/// with the plan's pattern, the root at the plan's root threshold writing to it, and each
/// named logger at its threshold. It is refused exactly when the loggers are not accepted.
pub fn plan_config(plan: &LoggingPlan) -> (r: Result<Config, ConfigErrors>)
    ensures
        r is Ok <==> loggers_accepted(plan.bindings()),
        r matches Ok(c) ==> {
            &&& config_sinks(c) == seq![("console"@, Target::Stderr, plan.pattern@)]
            &&& config_loggers(c) == plan.bindings()
            &&& config_root(c) == (plan.root, seq!["console"@])
        },
{
    let mut builder = console_config_builder(CONSOLE_APPENDER, Target::Stderr, plan.pattern.as_str());
    let mut i: usize = 0;
    while i < plan.loggers.len()
        invariant
            i <= plan.loggers@.len(),
            builder_sinks(builder) == seq![(CONSOLE_APPENDER@, Target::Stderr, plan.pattern@)],
            builder_loggers(builder) == plan.bindings().take(i as int),
        decreases plan.loggers@.len() - i,
    {
        let binding = &plan.loggers[i];
        builder = with_logger(builder, binding.name.as_str(), binding.level);
        assert(plan.bindings().take(i + 1) =~= plan.bindings().take(i as int).push(
            (binding.name@, binding.level),
        ));
        i = i + 1;
    }
    assert(plan.bindings().take(i as int) =~= plan.bindings());
    proof {
        reveal_strlit("console");
        let sinks = builder_sinks(builder);
        assert(sinks[0].0 == seq!["console"@][0]);
    }
    build_config(builder, CONSOLE_APPENDER, plan.root)
}

/// Installs `plan` as the global logger, through the configuration of `plan_config`. It is
/// refused as inconsistent exactly when the plan's loggers are not accepted.
pub fn install_plan(plan: &LoggingPlan) -> (r: Result<(), InitError>)
    ensures
        r matches Err(e) ==> e is Config || e is Install,
        r matches Err(InitError::Config(_)) <==> !loggers_accepted(plan.bindings()),
{
    match plan_config(plan) {
        Ok(config) => match install_config(config) {
            Ok(()) => Ok(()),
            Err(e) => Err(InitError::Install(e)),
        },
        Err(e) => Err(InitError::Config(e)),
    }
}

/// The default loggers are accepted from verbosity four on, where none is bound, and below
/// exactly when the binary's name is accepted.
proof fn lemma_planned_loggers_accepted(bin_name: Seq<char>, verbosity: u64)
    ensures
        loggers_accepted(planned_bindings(bin_name, verbosity)) <==> verbosity >= 4
            || bin_name_accepted(bin_name),
{
    let b = planned_bindings(bin_name, verbosity);
    if verbosity <= 3 {
        reveal_strlit("shadowsocks_rust");
        reveal_strlit("shadowsocks");
        reveal_strlit("shadowsocks_service");
        let names = named_loggers(bin_name);
        assert(b.len() == 4);
        assert forall|i: int| 0 <= i < 4 implies #[trigger] b[i].0 == names[i] by {}
        assert forall|k: int| 1 <= k < 4 implies valid_logger_name(#[trigger] names[k]) by {
            assert forall|i: int| 0 <= i < names[k].len() implies #[trigger] names[k][i] != ':' by {}
        }
        assert("shadowsocks_rust"@.len() == 16);
        assert("shadowsocks"@.len() == 11);
        assert("shadowsocks_service"@.len() == 19);
        if bin_name_accepted(bin_name) {
            assert(loggers_accepted(b));
        } else {
            if !valid_logger_name(bin_name) {
                assert(!valid_logger_name(b[0].0));
            } else if bin_name == "shadowsocks_rust"@ {
                assert(b[0].0 == b[1].0);
            } else if bin_name == "shadowsocks"@ {
                assert(b[0].0 == b[2].0);
            } else {
                assert(b[0].0 == b[3].0);
            }
        }
    }
}

/// Resolves the verbosity and the time display from the explicit values and the
/// environment values (each `None` when its variable is unset), builds the configuration
/// for the binary `bin_name` and installs it through `install_plan`. It is refused as
/// inconsistent exactly when named loggers are bound and the binary's name is not accepted.
/// On success the plan from which the installed configuration was built is returned.
pub fn init_with_settings(
    bin_name: &str,
    occurrences: u64,
    without_time_flag: bool,
    verbose_env: Option<&str>,
    without_time_env: Option<&str>,
) -> (r: Result<LoggingPlan, InitError>)
    ensures
        match r {
            Ok(plan) => plan.describes(
                bin_name@,
                resolved_verbosity(occurrences, text_of(verbose_env)),
                resolved_without_time(without_time_flag, text_of(without_time_env)),
            ),
            Err(e) => e is Config || e is Install,
        },
        r matches Err(InitError::Config(_)) <==> resolved_verbosity(
            occurrences,
            text_of(verbose_env),
        ) <= 3 && !bin_name_accepted(bin_name@),
{
    let verbosity = resolve_verbosity(occurrences, verbose_env);
    let without_time = resolve_without_time(without_time_flag, without_time_env);
    let plan = LoggingPlan::new(bin_name, verbosity, without_time);
    proof {
        lemma_planned_loggers_accepted(bin_name@, verbosity);
    }
    match install_plan(&plan) {
        Ok(()) => Ok(plan),
        Err(e) => Err(e),
    }
}

/// Installs the default configuration for the binary `bin_name`, with the verbosity and
/// time display taken from the command line `matches` and the environment values (each
/// `None` when its variable is unset). It is refused as inconsistent exactly when named
/// loggers are bound and the binary's name is not accepted.
pub fn init_with_config(
    bin_name: &str,
    matches: &ArgMatches,
    verbose_env: Option<&str>,
    without_time_env: Option<&str>,
) -> (r: Result<(), InitError>)
    ensures
        r matches Err(e) ==> e is Config || e is Install,
        r matches Err(InitError::Config(_)) <==> resolved_verbosity(
            occurrences_in(*matches, "VERBOSE"@),
            text_of(verbose_env),
        ) <= 3 && !bin_name_accepted(bin_name@),
{
    let occurrences = occurrences_of(matches, VERBOSE_ARG);
    let without_time_flag = is_present(matches, WITHOUT_TIME_ARG);
    match init_with_settings(bin_name, occurrences, without_time_flag, verbose_env, without_time_env) {
        Ok(_) => Ok(()),
        Err(e) => Err(e),
    }
}

} // verus!
