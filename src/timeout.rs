//! The effective timeout of an operation, from three layered sources.
use vstd::prelude::*;

verus! {

/// The built-in timeout: ten seconds, in nanoseconds.
pub const DEFAULT_TIMEOUT_NANOS: i64 = 10_000_000_000;

/// The effective timeout: the per-call value if given, else the configured
/// one if given, else the built-in default.
pub open spec fn effective_timeout(call_flag: Option<i64>, configured: Option<i64>) -> i64 {
    match call_flag {
        Some(t) => t,
        None => match configured {
            Some(t) => t,
            None => DEFAULT_TIMEOUT_NANOS,
        },
    }
}

/// Merges the per-call flag, the configured value and the built-in default
/// into one timeout, in nanoseconds.
pub fn resolve_timeout(call_flag: Option<i64>, configured: Option<i64>) -> (r: i64)
    ensures
        r == effective_timeout(call_flag, configured),
{
    match call_flag {
        Some(t) => t,
        None => match configured {
            Some(t) => t,
            None => DEFAULT_TIMEOUT_NANOS,
        },
    }
}

/// A per-call flag wins over every other source; without it the configured
/// value wins over the default; without either the default applies.
pub proof fn lemma_timeout_precedence(call_flag: Option<i64>, configured: Option<i64>)
    ensures
        call_flag is Some ==> effective_timeout(call_flag, configured) == call_flag->Some_0,
        call_flag is None && configured is Some ==> effective_timeout(call_flag, configured)
            == configured->Some_0,
        call_flag is None && configured is None ==> effective_timeout(call_flag, configured)
            == DEFAULT_TIMEOUT_NANOS,
{
}

/// A signed count of nanoseconds as an unsigned one, wrapping a negative
/// count around as an `as` conversion does.
pub open spec fn wrapped_nanos(nanos: i64) -> int {
    if nanos >= 0 {
        nanos as int
    } else {
        nanos as int + 0x1_0000_0000_0000_0000
    }
}

/// A duration in nanoseconds as the unsigned count that a timer takes; a
/// negative duration wraps around, as an `as` conversion does.
pub fn timeout_as_unsigned(nanos: i64) -> (r: u64)
    ensures
        r as int == wrapped_nanos(nanos),
{
    if nanos >= 0 {
        nanos as u64
    } else {
        let below: i64 = -(nanos + 1);
        u64::MAX - below as u64
    }
}

} // verus!
