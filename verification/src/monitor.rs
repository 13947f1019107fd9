//! The presence monitor: one poll cycle as a pure decision from the
//! enumeration outcome to the emitted state and the next sleep interval.
//! A failed enumeration is hardened to an `Absent` cycle instead of ending
//! the monitor.

use vstd::prelude::*;
use crate::enumeration::EnumerationError;
use crate::presence::{any_name_matches, hhkb_prefix, matched, PresenceState};

verus! {

/// Poll interval, in milliseconds, while the device is present: connected
/// devices change state infrequently, so the query load is kept low.
pub const PRESENT_INTERVAL_MS: u64 = 10_000;

/// Poll interval, in milliseconds, while the device is absent: favours fast
/// detection of a newly connected device.
pub const ABSENT_INTERVAL_MS: u64 = 500;

/// Configuration fixed at startup: the name-prefix predicate and the two
/// state-dependent poll intervals, in milliseconds.
pub struct MonitorConfig {
    pub prefix: String,
    pub present_interval_ms: u64,
    pub absent_interval_ms: u64,
}

/// The reference deployment: watch for the HHKB keyboard, poll every ten
/// seconds while it is present and every half second while it is absent.
pub fn default_config() -> (r: MonitorConfig)
    ensures
        r.prefix@ == hhkb_prefix(),
        r.present_interval_ms == PRESENT_INTERVAL_MS,
        r.absent_interval_ms == ABSENT_INTERVAL_MS,
{
    MonitorConfig {
        prefix: String::from_str("HHKB-Hybrid_"),
        present_interval_ms: PRESENT_INTERVAL_MS,
        absent_interval_ms: ABSENT_INTERVAL_MS,
    }
}

/// The device names an enumeration outcome carries, at the level contracts
/// speak of.
pub open spec fn outcome_view(outcome: Result<Vec<String>, EnumerationError>) -> Result<
    Seq<String>,
    EnumerationError,
> {
    match outcome {
        Ok(devices) => Ok(devices@),
        Err(e) => Err(e),
    }
}

/// What a poll cycle emits, as a function of the enumeration outcome alone:
/// `Present` exactly when the enumeration succeeded and some returned name
/// starts with the prefix; a failed enumeration counts as `Absent` for that
/// cycle.
pub open spec fn observed_state(
    outcome: Result<Seq<String>, EnumerationError>,
    prefix: Seq<char>,
) -> PresenceState {
    match outcome {
        Ok(devices) => if matched(devices, prefix) {
            PresenceState::Present
        } else {
            PresenceState::Absent
        },
        Err(_) => PresenceState::Absent,
    }
}

/// The state a poll cycle emits, given the state before it: the previous
/// state is provably ignored (no hysteresis).
pub open spec fn step_state(
    previous: PresenceState,
    outcome: Result<Seq<String>, EnumerationError>,
    prefix: Seq<char>,
) -> PresenceState {
    observed_state(outcome, prefix)
}

/// The sleep interval the emitted state selects.
pub open spec fn interval_of(state: PresenceState, config: MonitorConfig) -> u64 {
    match state {
        PresenceState::Present => config.present_interval_ms,
        PresenceState::Absent => config.absent_interval_ms,
    }
}

/// Emitted state and next sleep interval of one poll cycle, as a pure
/// function of the configuration and the enumeration outcome.
pub open spec fn cycle_decision(
    config: MonitorConfig,
    outcome: Result<Seq<String>, EnumerationError>,
) -> (PresenceState, u64) {
    let state = observed_state(outcome, config.prefix@);
    (state, interval_of(state, config))
}

/// Decides the emitted state from one enumeration outcome.
pub fn next_state(outcome: &Result<Vec<String>, EnumerationError>, prefix: &str) -> (state:
    PresenceState)
    ensures
        state == observed_state(outcome_view(*outcome), prefix@),
{
    match outcome {
        Ok(devices) => {
            if any_name_matches(devices, prefix) {
                PresenceState::Present
            } else {
                PresenceState::Absent
            }
        },
        Err(_) => PresenceState::Absent,
    }
}

/// Selects the next sleep interval from the emitted state.
pub fn interval_for(state: PresenceState, config: &MonitorConfig) -> (interval: u64)
    ensures
        interval == interval_of(state, *config),
{
    match state {
        PresenceState::Present => config.present_interval_ms,
        PresenceState::Absent => config.absent_interval_ms,
    }
}

/// The monitor: its configuration, fixed for its lifetime, and the last
/// emitted state, `Absent` until a first poll proves otherwise.
pub struct Monitor {
    pub config: MonitorConfig,
    pub state: PresenceState,
}

impl Monitor {
    /// A monitor that has not yet polled reports the neutral state.
    pub fn new(config: MonitorConfig) -> (r: Monitor)
        ensures
            r.config == config,
            r.state == PresenceState::Absent,
    {
        Monitor { config, state: PresenceState::Absent }
    }

    /// One poll cycle: recompute the state from the enumeration outcome
    /// alone, and report how long to sleep before the next cycle.
    pub fn poll(&mut self, outcome: &Result<Vec<String>, EnumerationError>) -> (interval: u64)
        ensures
            final(self).config == old(self).config,
            final(self).state == step_state(
                old(self).state,
                outcome_view(*outcome),
                old(self).config.prefix@,
            ),
            (final(self).state, interval) == cycle_decision(
                old(self).config,
                outcome_view(*outcome),
            ),
    {
        let state = next_state(outcome, self.config.prefix.as_str());
        self.state = state;
        interval_for(state, &self.config)
    }
}

/// No hysteresis: the emitted state is a pure function of the latest
/// enumeration outcome, so any two prior states lead to the same emission,
/// and two consecutive cycles that see the same outcome emit the same state.
pub proof fn lemma_no_hysteresis(
    s1: PresenceState,
    s2: PresenceState,
    outcome: Result<Seq<String>, EnumerationError>,
    prefix: Seq<char>,
)
    ensures
        step_state(s1, outcome, prefix) == step_state(s2, outcome, prefix),
        step_state(step_state(s1, outcome, prefix), outcome, prefix) == step_state(
            s1,
            outcome,
            prefix,
        ),
{
}

/// Interval selection: an emitted `Present` selects the configured long
/// interval, an emitted `Absent` the configured short one.
pub proof fn lemma_interval_selection(
    config: MonitorConfig,
    outcome: Result<Seq<String>, EnumerationError>,
)
    ensures
        cycle_decision(config, outcome).0 == PresenceState::Present ==> cycle_decision(
            config,
            outcome,
        ).1 == config.present_interval_ms,
        cycle_decision(config, outcome).0 == PresenceState::Absent ==> cycle_decision(
            config,
            outcome,
        ).1 == config.absent_interval_ms,
{
}

/// A failed enumeration is absorbed: that cycle emits `Absent` and selects
/// the short interval, and the monitor goes on polling.
pub proof fn lemma_failure_is_absent(config: MonitorConfig, e: EnumerationError)
    ensures
        cycle_decision(config, Result::<Seq<String>, EnumerationError>::Err(e)) == (
            PresenceState::Absent,
            config.absent_interval_ms,
        ),
{
}

} // verus!
