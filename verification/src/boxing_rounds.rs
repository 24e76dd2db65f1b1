use vstd::prelude::*;

use crate::parse::{
    param_view, parse_u64, parse_u64_spec, u16_param_or, u16_param_or_spec, u64_param_or,
    u64_param_or_spec,
};

verus! {

/// Configuration of a training session: the phase durations and the
/// tick granularity, in milliseconds, and the number of rounds.
///
/// The value is immutable for the life of a session; the clock consults
/// it on every tick and never validates it, so a degenerate value
/// (zero rounds, zero durations) is accepted as given.
#[derive(Clone, Copy, PartialEq, Eq, Structural, Debug)]
pub struct BoxingRounds {
    /// Duration of the preparation phase before round 1, in milliseconds.
    pub wait: u64,
    /// Duration of an active round, in milliseconds.
    pub fight: u64,
    /// Duration of the rest between rounds, in milliseconds.
    pub rest: u64,
    /// Interval between ticks, in milliseconds; each tick lowers the
    /// countdown by this amount.
    pub interval: u64,
    /// Number of active rounds in the session.
    pub rounds: u16,
}

/// Seconds to milliseconds, saturating at the largest representable
/// duration.
pub open spec fn secs_to_ms_spec(s: u64) -> u64 {
    if s * 1000 <= u64::MAX {
        (s * 1000) as u64
    } else {
        u64::MAX
    }
}

pub fn secs_to_ms(s: u64) -> (r: u64)
    ensures
        r == secs_to_ms_spec(s),
{
    if s <= u64::MAX / 1000 {
        s * 1000
    } else {
        u64::MAX
    }
}

/// An optional parameter read as a duration in seconds and converted to
/// milliseconds, falling back to `dflt` (already in milliseconds) when
/// it is missing or malformed.
pub open spec fn secs_param_or_spec(p: Option<Seq<char>>, dflt: u64) -> u64 {
    match p {
        Some(s) => match parse_u64_spec(s) {
            Some(n) => secs_to_ms_spec(n),
            None => dflt,
        },
        None => dflt,
    }
}

pub fn secs_param_or(p: Option<&str>, dflt: u64) -> (r: u64)
    ensures
        r == secs_param_or_spec(param_view(p), dflt),
{
    match p {
        Some(s) => match parse_u64(s) {
            Some(n) => secs_to_ms(n),
            None => dflt,
        },
        None => dflt,
    }
}

impl BoxingRounds {
    /// The documented fallback configuration: 5 s of preparation, 3 min
    /// rounds, 1 min of rest, one tick per second, 12 rounds.
    pub open spec fn default_spec() -> BoxingRounds {
        BoxingRounds { wait: 5000, fight: 180000, rest: 60000, interval: 1000, rounds: 12 }
    }

    /// The configuration a set of query parameters selects: `waiting`,
    /// `fight` and `rest` are durations in seconds, `interval` is in
    /// milliseconds, `rounds` is a count; each falls back to the default
    /// when missing or malformed.
    pub open spec fn from_query_spec(
        waiting: Option<Seq<char>>,
        fight: Option<Seq<char>>,
        rest: Option<Seq<char>>,
        interval: Option<Seq<char>>,
        rounds: Option<Seq<char>>,
    ) -> BoxingRounds {
        BoxingRounds {
            wait: secs_param_or_spec(waiting, 5000),
            fight: secs_param_or_spec(fight, 180000),
            rest: secs_param_or_spec(rest, 60000),
            interval: u64_param_or_spec(interval, 1000),
            rounds: u16_param_or_spec(rounds, 12),
        }
    }

    /// Build a configuration from the textual query parameters
    /// `waiting`, `fight`, `rest` (seconds), `interval` (milliseconds)
    /// and `rounds`, already extracted from the query string by the
    /// surrounding application.
    pub fn from_query(
        waiting: Option<&str>,
        fight: Option<&str>,
        rest: Option<&str>,
        interval: Option<&str>,
        rounds: Option<&str>,
    ) -> (r: Self)
        ensures
            r == Self::from_query_spec(
                param_view(waiting),
                param_view(fight),
                param_view(rest),
                param_view(interval),
                param_view(rounds),
            ),
    {
        BoxingRounds {
            wait: secs_param_or(waiting, 5000),
            fight: secs_param_or(fight, 180000),
            rest: secs_param_or(rest, 60000),
            interval: u64_param_or(interval, 1000),
            rounds: u16_param_or(rounds, 12),
        }
    }
}

impl Default for BoxingRounds {
    fn default() -> (r: Self)
        ensures
            r == BoxingRounds::default_spec(),
    {
        BoxingRounds { wait: 5000, fight: 180000, rest: 60000, interval: 1000, rounds: 12 }
    }
}

} // verus!
