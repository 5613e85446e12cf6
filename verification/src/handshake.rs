//! The interrupt handshake as a state machine.
//!
//! Clearing an interrupt walks these states in order: an edge on the
//! line takes the driver from `Idle` to `Pending`; the acknowledge
//! write, once it succeeds, to `Acknowledging`; the rearm write to
//! `Rearming`; and the final line-state check back to `Idle` — or to
//! `Failed` at whichever step went wrong.  `Failed` is terminal, and an
//! event that a state does not expect changes nothing.
//!
//! [`crate::driver::SPD2010Touch::clear_interrupt`] carries this
//! machine through its body as ghost state, checking its branch
//! structure against these transitions.

use vstd::prelude::*;

verus! {

/// Phase of the interrupt acknowledge-and-rearm handshake.
#[derive(Clone, Copy, Debug, PartialEq, Eq, Structural)]
pub enum HandshakeState {
    /// No unacknowledged interrupt.
    Idle,
    /// The interrupt line adapter reported an edge.
    Pending,
    /// The acknowledge command was accepted by the bus.
    Acknowledging,
    /// The rearm command was accepted by the bus.
    Rearming,
    /// A transport fault or the post-rearm line check ended the
    /// handshake without rearming the controller.
    Failed,
}

/// Observable outcome of one handshake step.
#[derive(Clone, Copy, Debug, PartialEq, Eq, Structural)]
pub enum HandshakeEvent {
    /// The interrupt line reported an edge.
    Edge,
    /// The acknowledge write went through.
    AckOk,
    /// The acknowledge write hit a bus fault.
    AckFault,
    /// The rearm write went through.
    RearmOk,
    /// The rearm write hit a bus fault.
    RearmFault,
    /// The post-rearm check saw the armed line state.
    LineArmed,
    /// The post-rearm check saw the wrong line state.
    LineDead,
}

/// The state after `ev` happens in state `s`.
pub open spec fn spec_handshake_step(s: HandshakeState, ev: HandshakeEvent) -> HandshakeState {
    match (s, ev) {
        (HandshakeState::Idle, HandshakeEvent::Edge) => HandshakeState::Pending,
        (HandshakeState::Pending, HandshakeEvent::AckOk) => HandshakeState::Acknowledging,
        (HandshakeState::Pending, HandshakeEvent::AckFault) => HandshakeState::Failed,
        (HandshakeState::Acknowledging, HandshakeEvent::RearmOk) => HandshakeState::Rearming,
        (HandshakeState::Acknowledging, HandshakeEvent::RearmFault) => HandshakeState::Failed,
        (HandshakeState::Rearming, HandshakeEvent::LineArmed) => HandshakeState::Idle,
        (HandshakeState::Rearming, HandshakeEvent::LineDead) => HandshakeState::Failed,
        (_, _) => s,
    }
}

/// Advances the handshake machine by one event.
pub fn handshake_step(s: HandshakeState, ev: HandshakeEvent) -> (r: HandshakeState)
    ensures
        r == spec_handshake_step(s, ev),
{
    match (s, ev) {
        (HandshakeState::Idle, HandshakeEvent::Edge) => HandshakeState::Pending,
        (HandshakeState::Pending, HandshakeEvent::AckOk) => HandshakeState::Acknowledging,
        (HandshakeState::Pending, HandshakeEvent::AckFault) => HandshakeState::Failed,
        (HandshakeState::Acknowledging, HandshakeEvent::RearmOk) => HandshakeState::Rearming,
        (HandshakeState::Acknowledging, HandshakeEvent::RearmFault) => HandshakeState::Failed,
        (HandshakeState::Rearming, HandshakeEvent::LineArmed) => HandshakeState::Idle,
        (HandshakeState::Rearming, HandshakeEvent::LineDead) => HandshakeState::Failed,
        (_, _) => s,
    }
}

/// A failed handshake stays failed: no later event leaves `Failed`.
pub proof fn lemma_failed_is_terminal(ev: HandshakeEvent)
    ensures
        spec_handshake_step(HandshakeState::Failed, ev) == HandshakeState::Failed,
{
}

} // verus!
