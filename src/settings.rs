//! Verbosity and time display, resolved from an explicit value and an
//! environment-variable fallback.
use vstd::prelude::*;
use crate::number::{
    is_nonzero_integer, lemma_parse_unsigned_in_range, nonzero_integer, parse_u64, parse_unsigned,
};

verus! {

/// Environment variable that sets the verbosity when no verbosity flag was given.
pub const VERBOSE_LEVEL_VAR: &'static str = "SS_LOG_VERBOSE_LEVEL";

/// Environment variable that, when it holds a nonzero integer, drops timestamps.
pub const WITHOUT_TIME_VAR: &'static str = "SS_LOG_WITHOUT_TIME";

/// The text of an optional environment value.
pub open spec fn text_of(v: Option<&str>) -> Option<Seq<char>> {
    match v {
        Some(s) => Some(s@),
        None => None,
    }
}

/// The value that an environment override for the verbosity carries: present and read as
/// an unsigned 64-bit number.
pub open spec fn verbosity_override(env: Option<Seq<char>>) -> Option<int> {
    match env {
        Some(s) => parse_unsigned(s, u64::MAX as int),
        None => None,
    }
}

/// The verbosity in effect: the occurrence count, unless it is zero and the environment
/// value reads as an unsigned number, which then takes its place.
pub open spec fn resolved_verbosity(occurrences: u64, env: Option<Seq<char>>) -> u64 {
    if occurrences == 0 && verbosity_override(env) is Some {
        verbosity_override(env)->Some_0 as u64
    } else {
        occurrences
    }
}

/// Whether an environment value asks to drop timestamps: it reads as an integer other
/// than zero.
pub open spec fn without_time_override(env: Option<Seq<char>>) -> bool {
    match env {
        Some(s) => nonzero_integer(s),
        None => false,
    }
}

/// Whether timestamps are dropped: the explicit flag, or else the environment override.
pub open spec fn resolved_without_time(flag: bool, env: Option<Seq<char>>) -> bool {
    flag || without_time_override(env)
}

/// Resolves the verbosity from the number of verbosity flags and the value of
/// the verbosity environment variable, if it is set.
pub fn resolve_verbosity(occurrences: u64, env_value: Option<&str>) -> (r: u64)
    ensures
        r == resolved_verbosity(occurrences, text_of(env_value)),
        occurrences != 0 ==> r == occurrences,
        r != occurrences ==> occurrences == 0 && verbosity_override(text_of(env_value)) == Some(
            r as int,
        ),
{
    if let Some(s) = env_value {
        proof {
            lemma_parse_unsigned_in_range(s@, u64::MAX as int);
        }
    }
    if occurrences != 0 {
        return occurrences;
    }
    match env_value {
        Some(s) => match parse_u64(s) {
            Some(v) => v,
            None => occurrences,
        },
        None => occurrences,
    }
}

/// Resolves whether timestamps are dropped from the explicit flag and the value of the
/// time environment variable, if it is set. The variable is read only when the flag is off.
pub fn resolve_without_time(flag: bool, env_value: Option<&str>) -> (r: bool)
    ensures
        r == resolved_without_time(flag, text_of(env_value)),
        r != flag <==> !flag && without_time_override(text_of(env_value)),
{
    if flag {
        return true;
    }
    match env_value {
        Some(s) => is_nonzero_integer(s),
        None => false,
    }
}

} // verus!
