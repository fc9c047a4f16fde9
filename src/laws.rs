//! Properties that hold of every configuration that `LoggingPlan::new` produces.
use vstd::prelude::*;
use log::LevelFilter;
use crate::plan::{
    level_fragment, location_fragment, message_fragment, named_level, named_loggers,
    newline_fragment, openness, pattern_fragments, pattern_text, time_fragment, LoggingPlan,
};

verus! {

/// At verbosity zero to three the four named loggers are all bound, each to one and the
/// same threshold.
pub proof fn lemma_named_loggers_share_threshold(
    plan: LoggingPlan,
    bin_name: Seq<char>,
    verbosity: u64,
    without_time: bool,
)
    requires
        plan.describes(bin_name, verbosity, without_time),
        verbosity <= 3,
    ensures
        plan.loggers@.len() == 4,
        forall|i: int|
            0 <= i < 4 ==> (#[trigger] plan.loggers@[i]).name@ == named_loggers(bin_name)[i],
        forall|i: int, j: int|
            0 <= i < 4 && 0 <= j < 4 ==> (#[trigger] plan.loggers@[i]).level == (
            #[trigger] plan.loggers@[j]).level,
{
    assert(plan.bindings().len() == plan.loggers@.len());
    assert forall|i: int| 0 <= i < 4 implies (#[trigger] plan.loggers@[i]).name@ == named_loggers(
        bin_name,
    )[i] && plan.loggers@[i].level == named_level(verbosity)->Some_0 by {
        assert(plan.bindings()[i] == (plan.loggers@[i].name@, plan.loggers@[i].level));
    }
}

/// Within verbosity zero to three, a higher verbosity never narrows the threshold of the
/// named loggers: Info, then Debug, then Trace.
pub proof fn lemma_named_threshold_monotone(
    low: LoggingPlan,
    high: LoggingPlan,
    bin_name: Seq<char>,
    low_verbosity: u64,
    high_verbosity: u64,
    without_time: bool,
)
    requires
        low.describes(bin_name, low_verbosity, without_time),
        high.describes(bin_name, high_verbosity, without_time),
        low_verbosity <= high_verbosity <= 3,
    ensures
        low.loggers@.len() == 4 && high.loggers@.len() == 4,
        openness(low.loggers@[0].level) <= openness(high.loggers@[0].level),
        openness(LevelFilter::Info) < openness(LevelFilter::Debug) < openness(LevelFilter::Trace),
{
    lemma_named_loggers_share_threshold(low, bin_name, low_verbosity, without_time);
    lemma_named_loggers_share_threshold(high, bin_name, high_verbosity, without_time);
    assert(low.bindings()[0] == (low.loggers@[0].name@, low.loggers@[0].level));
    assert(high.bindings()[0] == (high.loggers@[0].name@, high.loggers@[0].level));
}

/// The root threshold is off up to verbosity two, Debug at three, and Trace from four on,
/// where no logger is bound by name.
pub proof fn lemma_root_threshold_by_verbosity(
    plan: LoggingPlan,
    bin_name: Seq<char>,
    verbosity: u64,
    without_time: bool,
)
    requires
        plan.describes(bin_name, verbosity, without_time),
    ensures
        verbosity <= 2 ==> plan.root == LevelFilter::Off,
        verbosity == 3 ==> plan.root == LevelFilter::Debug,
        verbosity >= 4 ==> plan.root == LevelFilter::Trace && plan.loggers@.len() == 0,
{
    assert(plan.bindings().len() == plan.loggers@.len());
}

/// The pattern holds the location fragment exactly from verbosity one on, the timestamp
/// fragment exactly when timestamps are kept, one level fragment and one message fragment,
/// the level before the message, and ends with the line terminator.
pub proof fn lemma_pattern_shape(verbosity: u64, without_time: bool)
    ensures
        pattern_text(verbosity, without_time) == crate::plan::joined(
            pattern_fragments(verbosity, without_time),
        ),
        pattern_fragments(verbosity, without_time).contains(location_fragment()) <==> verbosity
            >= 1,
        pattern_fragments(verbosity, without_time).contains(time_fragment()) <==> !without_time,
        ({
            let f = pattern_fragments(verbosity, without_time);
            let at_level: int = if without_time { 0 } else { 1 };
            let at_message: int = f.len() - 2;
            &&& f.len() >= 3
            &&& 0 <= at_level < at_message
            &&& f[at_level] == level_fragment()
            &&& f[at_message] == message_fragment()
            &&& f[f.len() - 1] == newline_fragment()
            &&& forall|j: int| 0 <= j < f.len() && #[trigger] f[j] == level_fragment() ==> j == at_level
            &&& forall|j: int|
                0 <= j < f.len() && #[trigger] f[j] == message_fragment() ==> j == at_message
        }),
{
    reveal_strlit("{d} ");
    reveal_strlit("{h({l}):<5} ");
    reveal_strlit("[{P}:{I}] [{M}] ");
    reveal_strlit("{m}");
    reveal_strlit("{n}");
    let f = pattern_fragments(verbosity, without_time);
    assert(time_fragment().len() == 4);
    assert(level_fragment().len() == 12);
    assert(location_fragment().len() == 16);
    assert(message_fragment().len() == 3);
    assert(newline_fragment().len() == 3);
    assert(message_fragment()[1] != newline_fragment()[1]);
    assert(message_fragment() != newline_fragment());
    let at_level: int = if without_time { 0 } else { 1 };
    if verbosity >= 1 {
        assert(f[at_level + 1] == location_fragment());
    }
    if !without_time {
        assert(f[0] == time_fragment());
    }
    assert(f[at_level] == level_fragment());
    assert(f.contains(location_fragment()) ==> verbosity >= 1);
    assert(f.contains(time_fragment()) ==> !without_time);
}

} // verus!
