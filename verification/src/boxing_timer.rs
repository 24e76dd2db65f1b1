use vstd::prelude::*;

use crate::boxing_rounds::{secs_param_or, secs_param_or_spec, BoxingRounds};
use crate::display::{clock_str, format_ms};
use crate::parse::{
    param_view, paused_from_param, paused_param_spec, u16_param_or, u16_param_or_spec,
    u64_param_or, u64_param_or_spec,
};
use crate::state::State;

verus! {

/// Messages a driver can deliver to the clock: a periodic tick, a
/// pause/resume toggle, or a session restart.
#[derive(Clone, Copy, PartialEq, Eq, Structural, Debug)]
pub enum Msg {
    Tick,
    Toggle,
    Reset,
}

/// The round clock: the mutable session state of the interval timer.
///
/// It is mutated only by [`BoxingTimer::tick`],
/// [`BoxingTimer::toggle_pause`] and [`BoxingTimer::reset`]; a renderer
/// reads it through the accessors. All durations are in milliseconds.
#[derive(Clone, Copy, PartialEq, Eq, Structural, Debug)]
pub struct BoxingTimer {
    /// Current round, starting at 0 (or an external seed).
    pub round: u64,
    /// Current phase of the session.
    pub state: State,
    /// Time left in the current phase, in milliseconds.
    pub timeout: u64,
    /// When set, ticks are accepted but change nothing.
    pub paused: bool,
}

/// `a - b`, floored at zero.
pub open spec fn sat_sub(a: u64, b: u64) -> u64 {
    if a >= b {
        (a - b) as u64
    } else {
        0
    }
}

impl BoxingTimer {
    /// A reachable clock never holds time on a finished session: once the
    /// phase is `Finished`, the countdown sits at zero.
    pub open spec fn wf(self) -> bool {
        self.state == State::Finished ==> self.timeout == 0
    }

    /// The clock after a pause toggle: only `paused` flips.
    pub open spec fn toggled_spec(self) -> BoxingTimer {
        BoxingTimer { paused: !self.paused, ..self }
    }

    /// Resolution of a phase boundary (`timeout == 0`, not paused): the
    /// next clock value before the round-counter wrap, and whether a cue
    /// is raised.
    ///
    /// The one transition that raises no cue is `Resting` into
    /// `Finished`; every other transition out of a boundary does.
    pub open spec fn boundary_spec(self, config: BoxingRounds) -> (BoxingTimer, bool) {
        match self.state {
            State::Waiting => (
                BoxingTimer {
                    round: (self.round + 1) as u64,
                    state: State::Fighting,
                    timeout: config.fight,
                    ..self
                },
                true,
            ),
            State::Resting => {
                if self.round + 1 > config.rounds as u64 {
                    (
                        BoxingTimer { round: (self.round + 1) as u64, state: State::Finished, ..self },
                        false,
                    )
                } else {
                    (
                        BoxingTimer {
                            round: (self.round + 1) as u64,
                            state: State::Fighting,
                            timeout: config.fight,
                            ..self
                        },
                        true,
                    )
                }
            },
            State::Fighting => {
                if self.round == config.rounds as u64 {
                    (BoxingTimer { state: State::Finished, ..self }, true)
                } else {
                    (BoxingTimer { state: State::Resting, timeout: config.rest, ..self }, true)
                }
            },
            State::Finished => (BoxingTimer { timeout: 0, ..self }, false),
        }
    }

    /// One full tick: no-op when paused, a saturating countdown step
    /// while time remains, otherwise a boundary resolution followed by
    /// the round-counter wrap back to zero once it exceeds the
    /// configured round count.
    pub open spec fn tick_spec(self, config: BoxingRounds) -> (BoxingTimer, bool) {
        if self.paused {
            (self, false)
        } else if self.timeout > 0 {
            (BoxingTimer { timeout: sat_sub(self.timeout, config.interval), ..self }, false)
        } else {
            let (resolved, notify) = self.boundary_spec(config);
            let wrapped = if resolved.round > config.rounds as u64 {
                BoxingTimer { round: 0, ..resolved }
            } else {
                resolved
            };
            (wrapped, notify)
        }
    }

    /// A fresh clock: waiting for round 1, the preparation time on the
    /// countdown, not paused.
    pub fn new(config: &BoxingRounds) -> (t: Self)
        ensures
            t == (BoxingTimer {
                round: 0,
                state: State::Waiting,
                timeout: config.wait,
                paused: false,
            }),
            t.wf(),
    {
        BoxingTimer { round: 0, state: State::Waiting, timeout: config.wait, paused: false }
    }

    /// A fresh clock with an externally seeded round counter and pause
    /// flag (both may come from the surrounding application's
    /// configuration source).
    pub fn with_seed(config: &BoxingRounds, round: u64, paused: bool) -> (t: Self)
        ensures
            t == (BoxingTimer { round, state: State::Waiting, timeout: config.wait, paused }),
            t.wf(),
    {
        BoxingTimer { round, state: State::Waiting, timeout: config.wait, paused }
    }

    fn prepare_to_fight(&mut self, config: &BoxingRounds)
        ensures
            *final(self) == (BoxingTimer {
                timeout: config.fight,
                state: State::Fighting,
                ..*old(self)
            }),
    {
        self.timeout = config.fight;
        self.state = State::Fighting;
    }

    fn rest_to_fight(&mut self, config: &BoxingRounds)
        ensures
            *final(self) == (BoxingTimer {
                timeout: config.fight,
                state: State::Fighting,
                ..*old(self)
            }),
    {
        self.timeout = config.fight;
        self.state = State::Fighting;
    }

    fn fight_to_rest(&mut self, config: &BoxingRounds)
        ensures
            *final(self) == (BoxingTimer {
                timeout: config.rest,
                state: State::Resting,
                ..*old(self)
            }),
    {
        self.timeout = config.rest;
        self.state = State::Resting;
    }

    fn fight_to_finished(&mut self)
        ensures
            *final(self) == (BoxingTimer { state: State::Finished, ..*old(self) }),
    {
        self.state = State::Finished;
    }

    /// Advance the clock by one tick under `config` and report whether a
    /// cue should sound.
    ///
    /// The clauses after the first restate what a reader checks most:
    /// a paused tick changes nothing; a countdown tick only lowers the
    /// countdown, by exactly one interval and never below zero; a
    /// finished clock stays finished at zero.
    pub fn tick(&mut self, config: &BoxingRounds) -> (notify: bool)
        requires
            old(self).round < u64::MAX,
        ensures
            (*final(self), notify) == old(self).tick_spec(*config),
            old(self).paused ==> *final(self) == *old(self) && !notify,
            !old(self).paused && old(self).timeout > 0 ==> {
                &&& final(self).timeout == sat_sub(old(self).timeout, config.interval)
                &&& final(self).state == old(self).state
                &&& final(self).round == old(self).round
                &&& final(self).paused == old(self).paused
                &&& !notify
            },
            old(self).state == State::Finished && old(self).timeout == 0 ==> {
                &&& final(self).state == State::Finished
                &&& final(self).timeout == 0
                &&& !notify
            },
            old(self).wf() ==> final(self).wf(),
    {
        if self.paused {
            return false;
        }
        if self.timeout > 0 {
            self.timeout = if self.timeout >= config.interval {
                self.timeout - config.interval
            } else {
                0
            };
            return false;
        }
        let notify: bool;
        match self.state {
            State::Waiting => {
                self.round = self.round + 1;
                self.prepare_to_fight(config);
                notify = true;
            },
            State::Resting => {
                self.round = self.round + 1;
                if self.round > config.rounds as u64 {
                    self.state = State::Finished;
                    notify = false;
                } else {
                    self.rest_to_fight(config);
                    notify = true;
                }
            },
            State::Fighting => {
                if self.round == config.rounds as u64 {
                    self.fight_to_finished();
                    notify = true;
                } else {
                    self.fight_to_rest(config);
                    notify = true;
                }
            },
            State::Finished => {
                self.timeout = 0;
                notify = false;
            },
        }
        if self.round > config.rounds as u64 {
            self.round = 0;
        }
        notify
    }

    /// Flip the pause flag; nothing else changes. Takes effect on the
    /// next tick.
    pub fn toggle_pause(&mut self)
        ensures
            *final(self) == old(self).toggled_spec(),
    {
        self.paused = !self.paused;
    }

    /// Restart the session: round 0, waiting, the given preparation time
    /// on the countdown. The pause flag survives the reset.
    pub fn reset(&mut self, wait: u64)
        ensures
            *final(self) == (BoxingTimer {
                round: 0,
                state: State::Waiting,
                timeout: wait,
                paused: old(self).paused,
            }),
            final(self).wf(),
    {
        self.round = 0;
        self.timeout = wait;
        self.state = State::Waiting;
    }

    /// Dispatch one driver message: `Tick` advances the clock (and says
    /// whether a cue should sound), `Toggle` flips the pause flag,
    /// `Reset` restarts the session with `config.wait` on the countdown.
    pub fn handle(&mut self, config: &BoxingRounds, msg: Msg) -> (notify: bool)
        requires
            old(self).round < u64::MAX,
        ensures
            msg == Msg::Tick ==> (*final(self), notify) == old(self).tick_spec(*config),
            msg == Msg::Toggle ==> *final(self) == old(self).toggled_spec() && !notify,
            msg == Msg::Reset ==> *final(self) == (BoxingTimer {
                round: 0,
                state: State::Waiting,
                timeout: config.wait,
                paused: old(self).paused,
            }) && !notify,
    {
        match msg {
            Msg::Tick => self.tick(config),
            Msg::Toggle => {
                self.toggle_pause();
                false
            },
            Msg::Reset => {
                self.reset(config.wait);
                false
            },
        }
    }

    /// Label of the pause/resume control: the action a press would take.
    pub fn toggle_text(&self) -> (r: &'static str)
        ensures
            r@ == if self.paused { "Start"@ } else { "Pause"@ },
    {
        if self.paused {
            "Start"
        } else {
            "Pause"
        }
    }

    pub fn round(&self) -> (r: u64)
        ensures
            r == self.round,
    {
        self.round
    }

    pub fn state(&self) -> (r: State)
        ensures
            r == self.state,
    {
        self.state
    }

    pub fn remaining(&self) -> (r: u64)
        ensures
            r == self.timeout,
    {
        self.timeout
    }

    pub fn paused(&self) -> (r: bool)
        ensures
            r == self.paused,
    {
        self.paused
    }

    /// The countdown rendered as `minutes:seconds`, the seconds
    /// zero-padded to two digits.
    pub fn display(&self) -> (r: String)
        ensures
            r@ == clock_str(self.timeout as int),
    {
        format_ms(self.timeout)
    }

    /// Build a configuration and a seeded clock from the textual query
    /// parameters `round`, `rounds`, `wait`, `fight`, `rest` (durations
    /// in seconds), `interval` (milliseconds) and `paused` (a lenient
    /// boolean), already extracted from the query string by the
    /// surrounding application. Each falls back to its default when
    /// missing or malformed.
    pub fn from_params(
        round: Option<&str>,
        rounds: Option<&str>,
        wait: Option<&str>,
        fight: Option<&str>,
        rest: Option<&str>,
        interval: Option<&str>,
        paused: Option<&str>,
    ) -> (r: (BoxingTimer, BoxingRounds))
        ensures
            r.1 == (BoxingRounds {
                wait: secs_param_or_spec(param_view(wait), 5000),
                fight: secs_param_or_spec(param_view(fight), 180000),
                rest: secs_param_or_spec(param_view(rest), 60000),
                interval: u64_param_or_spec(param_view(interval), 1000),
                rounds: u16_param_or_spec(param_view(rounds), 12),
            }),
            r.0 == (BoxingTimer {
                round: u64_param_or_spec(param_view(round), 0),
                state: State::Waiting,
                timeout: r.1.wait,
                paused: paused_param_spec(param_view(paused)),
            }),
    {
        let config = BoxingRounds {
            wait: secs_param_or(wait, 5000),
            fight: secs_param_or(fight, 180000),
            rest: secs_param_or(rest, 60000),
            interval: u64_param_or(interval, 1000),
            rounds: u16_param_or(rounds, 12),
        };
        let timer = BoxingTimer::with_seed(
            &config,
            u64_param_or(round, 0),
            paused_from_param(paused),
        );
        (timer, config)
    }
}

/// The clock after a sequence of ticks, one per configuration in `configs`.
pub open spec fn run_ticks(t: BoxingTimer, configs: Seq<BoxingRounds>) -> BoxingTimer
    decreases configs.len(),
{
    if configs.len() == 0 {
        t
    } else {
        run_ticks(t.tick_spec(configs[0]).0, configs.subrange(1, configs.len() as int))
    }
}

/// The terminal phase is absorbing: once a clock is finished with the
/// countdown at zero, any number of further ticks, under any
/// configurations, leaves it finished with the countdown at zero.
pub proof fn lemma_finished_is_terminal(t: BoxingTimer, configs: Seq<BoxingRounds>)
    requires
        t.state == State::Finished,
        t.timeout == 0,
    ensures
        run_ticks(t, configs).state == State::Finished,
        run_ticks(t, configs).timeout == 0,
    decreases configs.len(),
{
    if configs.len() > 0 {
        let stepped = t.tick_spec(configs[0]).0;
        assert(stepped.state == State::Finished && stepped.timeout == 0);
        lemma_finished_is_terminal(stepped, configs.subrange(1, configs.len() as int));
    }
}

/// Toggling the pause flag twice returns the clock to exactly its
/// original value: no other field is affected.
pub proof fn lemma_toggle_pause_involutive(t: BoxingTimer)
    ensures
        t.toggled_spec().toggled_spec() == t,
{
}

} // verus!
