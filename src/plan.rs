//! The logging configuration as plain values: the console pattern, the named logger
//! bindings and the root threshold, chosen from the verbosity and the time display.
use vstd::prelude::*;
use log::LevelFilter;

verus! {

/// `log`'s level filter; its variants are read as they are declared.
#[verifier::external_type_specification]
pub struct ExLevelFilter(LevelFilter);

/// How much a threshold lets through: `Off` lets nothing through, `Trace` everything.
pub open spec fn openness(l: LevelFilter) -> int {
    match l {
        LevelFilter::Off => 0,
        LevelFilter::Error => 1,
        LevelFilter::Warn => 2,
        LevelFilter::Info => 3,
        LevelFilter::Debug => 4,
        LevelFilter::Trace => 5,
    }
}

/// Pattern fragment of the timestamp.
pub open spec fn time_fragment() -> Seq<char> {
    "{d} "@
}

/// Pattern fragment of the level, fixed width and coloured.
pub open spec fn level_fragment() -> Seq<char> {
    "{h({l}):<5} "@
}

/// Pattern fragment of the process, thread and module location.
pub open spec fn location_fragment() -> Seq<char> {
    "[{P}:{I}] [{M}] "@
}

/// Pattern fragment of the message body.
pub open spec fn message_fragment() -> Seq<char> {
    "{m}"@
}

/// Pattern fragment of the line terminator.
pub open spec fn newline_fragment() -> Seq<char> {
    "{n}"@
}

/// The fragments of the console pattern, in order: the timestamp unless it is dropped,
/// the level, the location from verbosity one on, the message and the line terminator.
pub open spec fn pattern_fragments(verbosity: u64, without_time: bool) -> Seq<Seq<char>> {
    let head: Seq<Seq<char>> = if without_time {
        seq![]
    } else {
        seq![time_fragment()]
    };
    let location: Seq<Seq<char>> = if verbosity >= 1 {
        seq![location_fragment()]
    } else {
        seq![]
    };
    head + seq![level_fragment()] + location + seq![message_fragment(), newline_fragment()]
}

/// The fragments written one after the other.
pub open spec fn joined(parts: Seq<Seq<char>>) -> Seq<char>
    decreases parts.len(),
{
    if parts.len() == 0 {
        Seq::empty()
    } else {
        joined(parts.drop_last()) + parts.last()
    }
}

/// The console pattern text.
pub open spec fn pattern_text(verbosity: u64, without_time: bool) -> Seq<char> {
    joined(pattern_fragments(verbosity, without_time))
}

/// The loggers that are bound by name: the binary's own and the three service crates.
pub open spec fn named_loggers(bin_name: Seq<char>) -> Seq<Seq<char>> {
    seq![bin_name, "shadowsocks_rust"@, "shadowsocks"@, "shadowsocks_service"@]
}

/// Threshold of the named loggers: Info, Debug, then Trace at verbosity two and three;
/// from four on no logger is bound by name.
pub open spec fn named_level(verbosity: u64) -> Option<LevelFilter> {
    if verbosity == 0 {
        Some(LevelFilter::Info)
    } else if verbosity == 1 {
        Some(LevelFilter::Debug)
    } else if verbosity <= 3 {
        Some(LevelFilter::Trace)
    } else {
        None
    }
}

/// Threshold of the root logger: off up to verbosity two, Debug at three, Trace from four on.
pub open spec fn root_level(verbosity: u64) -> LevelFilter {
    if verbosity <= 2 {
        LevelFilter::Off
    } else if verbosity == 3 {
        LevelFilter::Debug
    } else {
        LevelFilter::Trace
    }
}

/// The (name, threshold) bindings of the named loggers at a verbosity.
pub open spec fn planned_bindings(bin_name: Seq<char>, verbosity: u64) -> Seq<
    (Seq<char>, LevelFilter),
> {
    match named_level(verbosity) {
        Some(l) => named_loggers(bin_name).map_values(|n: Seq<char>| (n, l)),
        None => seq![],
    }
}

/// A logger bound by name to a threshold.
pub struct LoggerBinding {
    pub name: String,
    pub level: LevelFilter,
}

/// A complete logging configuration: one console sink on standard error that renders with
/// `pattern`, the named `loggers`, and the `root` threshold for every other logger.
pub struct LoggingPlan {
    pub pattern: String,
    pub loggers: Vec<LoggerBinding>,
    pub root: LevelFilter,
}

impl LoggingPlan {
    /// The bindings as (name, threshold) pairs.
    pub open spec fn bindings(&self) -> Seq<(Seq<char>, LevelFilter)> {
        self.loggers@.map_values(|b: LoggerBinding| (b.name@, b.level))
    }

    /// This is the configuration for the binary `bin_name` at `verbosity`, with timestamps
    /// dropped or not.
    pub open spec fn describes(&self, bin_name: Seq<char>, verbosity: u64, without_time: bool) -> bool {
        &&& self.pattern@ == pattern_text(verbosity, without_time)
        &&& self.bindings() == planned_bindings(bin_name, verbosity)
        &&& self.root == root_level(verbosity)
    }

    /// The configuration for the binary `bin_name` at `verbosity`, with timestamps dropped
    /// or not.
    pub fn new(bin_name: &str, verbosity: u64, without_time: bool) -> (r: Self)
        ensures
            r.describes(bin_name@, verbosity, without_time),
    {
        LoggingPlan {
            pattern: log_pattern(verbosity, without_time),
            loggers: logger_bindings(bin_name, verbosity),
            root: root_threshold(verbosity),
        }
    }
}

/// The console pattern for `verbosity`, with timestamps dropped or not.
pub fn log_pattern(verbosity: u64, without_time: bool) -> (r: String)
    ensures
        r@ == pattern_text(verbosity, without_time),
{
    let mut pattern = String::new();
    if !without_time {
        pattern.append("{d} ");
    }
    pattern.append("{h({l}):<5} ");
    if verbosity >= 1 {
        pattern.append("[{P}:{I}] [{M}] ");
    }
    pattern.append("{m}");
    pattern.append("{n}");
    proof {
        let parts = pattern_fragments(verbosity, without_time);
        reveal_with_fuel(joined, 6);
        assert(joined(parts) =~= pattern@);
    }
    pattern
}

/// Threshold of the named loggers at `verbosity`, if any are bound.
pub fn named_threshold(verbosity: u64) -> (r: Option<LevelFilter>)
    ensures
        r == named_level(verbosity),
{
    match verbosity {
        0 => Some(LevelFilter::Info),
        1 => Some(LevelFilter::Debug),
        2 | 3 => Some(LevelFilter::Trace),
        _ => None,
    }
}

/// Threshold of the root logger at `verbosity`.
pub fn root_threshold(verbosity: u64) -> (r: LevelFilter)
    ensures
        r == root_level(verbosity),
{
    match verbosity {
        0 | 1 | 2 => LevelFilter::Off,
        3 => LevelFilter::Debug,
        _ => LevelFilter::Trace,
    }
}

/// The named logger bindings for the binary `bin_name` at `verbosity`.
pub fn logger_bindings(bin_name: &str, verbosity: u64) -> (r: Vec<LoggerBinding>)
    ensures
        r@.map_values(|b: LoggerBinding| (b.name@, b.level)) == planned_bindings(
            bin_name@,
            verbosity,
        ),
{
    let mut loggers: Vec<LoggerBinding> = Vec::new();
    match named_threshold(verbosity) {
        Some(level) => {
            loggers.push(LoggerBinding { name: String::from_str(bin_name), level });
            loggers.push(LoggerBinding { name: String::from_str("shadowsocks_rust"), level });
            loggers.push(LoggerBinding { name: String::from_str("shadowsocks"), level });
            loggers.push(LoggerBinding { name: String::from_str("shadowsocks_service"), level });
        },
        None => {},
    }
    assert(loggers@.map_values(|b: LoggerBinding| (b.name@, b.level)) =~= planned_bindings(
        bin_name@,
        verbosity,
    ));
    loggers
}

} // verus!
