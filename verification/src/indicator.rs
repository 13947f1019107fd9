//! The indicator: the icon each state selects, and a model of the host's
//! visual state that emissions drive, under which repeating an emission is
//! provably harmless.

use vstd::prelude::*;
use crate::presence::PresenceState;

verus! {

/// The indicator host rejected an update: an icon resource could not be read,
/// or the toolkit refused the icon assignment.
#[derive(Clone, Copy, Debug, PartialEq, Eq, Structural)]
pub enum HostError {
    IconLoad,
    IndicatorUpdate,
}

/// The icon resource shown for each state, relative to the install directory.
pub fn icon_path(state: PresenceState) -> (r: &'static str)
    ensures
        state == PresenceState::Present ==> r@ == "icons/connected.ico"@,
        state == PresenceState::Absent ==> r@ == "icons/disconnected.ico"@,
{
    match state {
        PresenceState::Present => "icons/connected.ico",
        PresenceState::Absent => "icons/disconnected.ico",
    }
}

/// The host's visual state, as the monitor may assume it: the state whose
/// icon the tray currently shows.
#[derive(Clone, Copy, Debug, PartialEq, Eq, Structural)]
pub struct Indicator {
    pub shown: PresenceState,
}

/// What emitting a state does to the host: it shows that state and succeeds,
/// whatever it showed before.
pub open spec fn emission(indicator: Indicator, state: PresenceState) -> (Indicator, Result<
    (),
    HostError,
>) {
    (Indicator { shown: state }, Result::<(), HostError>::Ok(()))
}

impl Indicator {
    /// A fresh indicator starts in the neutral, non-present representation.
    pub fn new() -> (r: Indicator)
        ensures
            r.shown == PresenceState::Absent,
    {
        Indicator { shown: PresenceState::Absent }
    }

    /// Emits a state to the host.
    pub fn set_indicator(&mut self, state: PresenceState) -> (r: Result<(), HostError>)
        ensures
            (*final(self), r) == emission(*old(self), state),
    {
        self.shown = state;
        Ok(())
    }
}

/// Idempotent emission: emitting `Present` twice in a row produces no error
/// either time, leaves the host showing `Present`, and the second emission
/// changes nothing.
pub proof fn lemma_idempotent_emission(indicator: Indicator)
    ensures
        ({
            let (once, r1) = emission(indicator, PresenceState::Present);
            let (twice, r2) = emission(once, PresenceState::Present);
            r1 is Ok && r2 is Ok && twice == once && once.shown == PresenceState::Present
        }),
{
}

} // verus!
