//! The transition table: which handler answers an event in a state.

use crate::fsm::event::EventKind;
use crate::fsm::{ClosedStateStatus, FsmState};
use vstd::prelude::*;

verus! {

/// What the machine does with an event. Where a handler leads to one of
/// several states, it names the state it leads to when it succeeds.
#[derive(Clone, Copy, Debug, PartialEq, Eq, Structural)]
pub enum Handler {
    /// The machine is locked: the event is turned away, for ever.
    Locked,
    /// A command before the handshake was started: turned away.
    NotStarted,
    /// No transition for this event: turned away, the state stays.
    Unknown,
    /// Accepted, with nothing to do.
    Ignore,
    /// Data of the upper layer before the session is established.
    NotConnected,
    /// Data of the upper layer while an earlier message waits for its
    /// acknowledgement.
    WouldBlock,
    StartHandshake,
    /// The upper layer closes the session.
    Stop,
    /// The channel failed or the peer closed the session.
    Close,
    HandshakeTimeout,
    Hello,
    DatTimeout(FsmState),
    /// This endpoint asks for a new attestation.
    ReRat(FsmState),
    /// The peer asks for a new attestation.
    RecvReRat(FsmState),
    DatExpired(FsmState),
    Dat(FsmState),
    /// The prover is done while the verifier is still at work.
    ProverOk(FsmState),
    /// The prover is done and so is the verifier: back to the data phase.
    ProverDone,
    VerifierOk(FsmState),
    VerifierDone,
    ProverFailed,
    VerifierFailed,
    /// Bytes of the local prover, for the peer.
    ProverData,
    VerifierData,
    /// Bytes of the peer's prover, for the local verifier.
    DelegateProver,
    /// Bytes of the peer's verifier, for the local prover.
    DelegateVerifier,
    SendData,
    AckTimeout,
    RecvData,
    RecvAck,
}

/// The state in which no event is accepted any more.
pub open spec fn locked() -> FsmState {
    FsmState::Closed(ClosedStateStatus::Locked)
}

/// Whether the local prover is at work in a state.
pub open spec fn prover_at_work(state: FsmState) -> bool {
    state == FsmState::WaitForRat || state == FsmState::WaitForRatProver || state
        == FsmState::WaitForDatAndRat
}

/// Whether the local verifier is at work in a state.
pub open spec fn verifier_at_work(state: FsmState) -> bool {
    state == FsmState::WaitForRat || state == FsmState::WaitForRatVerifier
}

/// Whether application data flows in a state.
pub open spec fn in_data_phase(state: FsmState) -> bool {
    state == FsmState::Established || state == FsmState::WaitForAck
}

/// The table, event by event. The two closed states come first; what follows
/// holds for the eight states of a started session.
#[verifier::opaque]
pub open spec fn table(state: FsmState, kind: EventKind) -> Handler {
    match state {
        FsmState::Closed(ClosedStateStatus::Locked) => Handler::Locked,
        FsmState::Closed(ClosedStateStatus::Unlocked) => match kind {
            EventKind::StartHandshake => Handler::StartHandshake,
            EventKind::Stop | EventKind::RepeatRat | EventKind::UpperData => Handler::NotStarted,
            _ => Handler::Unknown,
        },
        _ => match kind {
            EventKind::StartHandshake => Handler::Unknown,
            EventKind::Stop => Handler::Stop,
            EventKind::ChannelError | EventKind::PeerClose => Handler::Close,
            EventKind::UpperData => if state == FsmState::Established {
                Handler::SendData
            } else if state == FsmState::WaitForAck {
                Handler::WouldBlock
            } else {
                Handler::NotConnected
            },
            EventKind::RepeatRat => if state == FsmState::WaitForRatProver {
                Handler::ReRat(FsmState::WaitForRat)
            } else if in_data_phase(state) {
                Handler::ReRat(FsmState::WaitForRatVerifier)
            } else {
                Handler::Ignore
            },
            EventKind::RatTimeout => if state == FsmState::WaitForRatProver {
                Handler::ReRat(FsmState::WaitForRat)
            } else if in_data_phase(state) {
                Handler::ReRat(FsmState::WaitForRatVerifier)
            } else {
                Handler::Unknown
            },
            EventKind::HandshakeTimeout => if in_data_phase(state) {
                Handler::Unknown
            } else {
                Handler::HandshakeTimeout
            },
            EventKind::DatTimeout => if state == FsmState::WaitForRat || state == FsmState::WaitForRatProver {
                Handler::DatTimeout(FsmState::WaitForDatAndRat)
            } else if state == FsmState::WaitForRatVerifier || in_data_phase(state) {
                Handler::DatTimeout(FsmState::WaitForDatAndRatVerifier)
            } else {
                Handler::Unknown
            },
            EventKind::AckTimeout => if state == FsmState::WaitForAck {
                Handler::AckTimeout
            } else {
                Handler::Unknown
            },
            EventKind::ProverOk => if state == FsmState::WaitForRat {
                Handler::ProverOk(FsmState::WaitForRatVerifier)
            } else if state == FsmState::WaitForDatAndRat {
                Handler::ProverOk(FsmState::WaitForDatAndRatVerifier)
            } else if state == FsmState::WaitForRatProver {
                Handler::ProverDone
            } else {
                Handler::Unknown
            },
            EventKind::ProverFailed => if prover_at_work(state) {
                Handler::ProverFailed
            } else {
                Handler::Unknown
            },
            EventKind::ProverData => if prover_at_work(state) {
                Handler::ProverData
            } else {
                Handler::Unknown
            },
            EventKind::VerifierOk => if state == FsmState::WaitForRat {
                Handler::VerifierOk(FsmState::WaitForRatProver)
            } else if state == FsmState::WaitForRatVerifier {
                Handler::VerifierDone
            } else {
                Handler::Unknown
            },
            EventKind::VerifierFailed => if verifier_at_work(state) {
                Handler::VerifierFailed
            } else {
                Handler::Unknown
            },
            EventKind::VerifierData => if verifier_at_work(state) {
                Handler::VerifierData
            } else {
                Handler::Unknown
            },
            EventKind::PeerHello => if state == FsmState::WaitForHello {
                Handler::Hello
            } else {
                Handler::Unknown
            },
            EventKind::PeerDat => if state == FsmState::WaitForDatAndRat {
                Handler::Dat(FsmState::WaitForRat)
            } else if state == FsmState::WaitForDatAndRatVerifier {
                Handler::Dat(FsmState::WaitForRatVerifier)
            } else {
                Handler::Unknown
            },
            EventKind::PeerDatExpired => if state == FsmState::WaitForHello {
                Handler::Unknown
            } else if state == FsmState::WaitForRat || state == FsmState::WaitForRatVerifier {
                Handler::DatExpired(FsmState::WaitForRat)
            } else if state == FsmState::WaitForDatAndRat || state == FsmState::WaitForDatAndRatVerifier {
                Handler::DatExpired(FsmState::WaitForDatAndRat)
            } else {
                Handler::DatExpired(FsmState::WaitForRatProver)
            },
            EventKind::PeerReRat => if state == FsmState::WaitForHello || state == FsmState::WaitForRat {
                Handler::Unknown
            } else if state == FsmState::WaitForRatVerifier {
                Handler::RecvReRat(FsmState::WaitForRat)
            } else if state == FsmState::WaitForDatAndRat || state == FsmState::WaitForDatAndRatVerifier {
                Handler::RecvReRat(FsmState::WaitForDatAndRat)
            } else {
                Handler::RecvReRat(FsmState::WaitForRatProver)
            },
            EventKind::PeerRatProver => if verifier_at_work(state) {
                Handler::DelegateProver
            } else {
                Handler::Unknown
            },
            EventKind::PeerRatVerifier => if prover_at_work(state) {
                Handler::DelegateVerifier
            } else {
                Handler::Unknown
            },
            EventKind::PeerData => if in_data_phase(state) {
                Handler::RecvData
            } else {
                Handler::Unknown
            },
            EventKind::PeerAck => if state == FsmState::WaitForHello || state == FsmState::Established {
                Handler::Unknown
            } else {
                Handler::RecvAck
            },
        },
    }
}

/// Looks an event up in the table, state by state.
pub fn lookup(state: FsmState, kind: EventKind) -> (handler: Handler)
    ensures
        handler == table(state, kind),
{
    proof {
        reveal(table);
    }
    match state {
        FsmState::Closed(ClosedStateStatus::Locked) => Handler::Locked,
        FsmState::Closed(ClosedStateStatus::Unlocked) => match kind {
            EventKind::StartHandshake => Handler::StartHandshake,
            EventKind::RepeatRat | EventKind::UpperData | EventKind::Stop => Handler::NotStarted,
            _ => Handler::Unknown,
        },
        FsmState::WaitForHello => match kind {
            EventKind::Stop => Handler::Stop,
            EventKind::UpperData => Handler::NotConnected,
            EventKind::RepeatRat => Handler::Ignore,
            EventKind::HandshakeTimeout => Handler::HandshakeTimeout,
            EventKind::ChannelError | EventKind::PeerClose => Handler::Close,
            EventKind::PeerHello => Handler::Hello,
            _ => Handler::Unknown,
        },
        FsmState::WaitForRat => match kind {
            EventKind::Stop => Handler::Stop,
            EventKind::UpperData => Handler::NotConnected,
            EventKind::RepeatRat => Handler::Ignore,
            EventKind::HandshakeTimeout => Handler::HandshakeTimeout,
            EventKind::DatTimeout => Handler::DatTimeout(FsmState::WaitForDatAndRat),
            EventKind::ProverOk => Handler::ProverOk(FsmState::WaitForRatVerifier),
            EventKind::ProverFailed => Handler::ProverFailed,
            EventKind::ProverData => Handler::ProverData,
            EventKind::VerifierOk => Handler::VerifierOk(FsmState::WaitForRatProver),
            EventKind::VerifierFailed => Handler::VerifierFailed,
            EventKind::VerifierData => Handler::VerifierData,
            EventKind::ChannelError | EventKind::PeerClose => Handler::Close,
            EventKind::PeerDatExpired => Handler::DatExpired(FsmState::WaitForRat),
            EventKind::PeerRatProver => Handler::DelegateProver,
            EventKind::PeerRatVerifier => Handler::DelegateVerifier,
            EventKind::PeerAck => Handler::RecvAck,
            _ => Handler::Unknown,
        },
        FsmState::WaitForRatProver => match kind {
            EventKind::Stop => Handler::Stop,
            EventKind::RepeatRat | EventKind::RatTimeout => Handler::ReRat(FsmState::WaitForRat),
            EventKind::UpperData => Handler::NotConnected,
            EventKind::HandshakeTimeout => Handler::HandshakeTimeout,
            EventKind::DatTimeout => Handler::DatTimeout(FsmState::WaitForDatAndRat),
            EventKind::ProverOk => Handler::ProverDone,
            EventKind::ProverFailed => Handler::ProverFailed,
            EventKind::ProverData => Handler::ProverData,
            EventKind::ChannelError | EventKind::PeerClose => Handler::Close,
            EventKind::PeerDatExpired => Handler::DatExpired(FsmState::WaitForRatProver),
            EventKind::PeerReRat => Handler::RecvReRat(FsmState::WaitForRatProver),
            EventKind::PeerRatVerifier => Handler::DelegateVerifier,
            EventKind::PeerAck => Handler::RecvAck,
            _ => Handler::Unknown,
        },
        FsmState::WaitForRatVerifier => match kind {
            EventKind::Stop => Handler::Stop,
            EventKind::UpperData => Handler::NotConnected,
            EventKind::RepeatRat => Handler::Ignore,
            EventKind::HandshakeTimeout => Handler::HandshakeTimeout,
            EventKind::DatTimeout => Handler::DatTimeout(FsmState::WaitForDatAndRatVerifier),
            EventKind::VerifierOk => Handler::VerifierDone,
            EventKind::VerifierFailed => Handler::VerifierFailed,
            EventKind::VerifierData => Handler::VerifierData,
            EventKind::ChannelError | EventKind::PeerClose => Handler::Close,
            EventKind::PeerDatExpired => Handler::DatExpired(FsmState::WaitForRat),
            EventKind::PeerRatProver => Handler::DelegateProver,
            EventKind::PeerReRat => Handler::RecvReRat(FsmState::WaitForRat),
            EventKind::PeerAck => Handler::RecvAck,
            _ => Handler::Unknown,
        },
        FsmState::WaitForDatAndRat => match kind {
            EventKind::Stop => Handler::Stop,
            EventKind::UpperData => Handler::NotConnected,
            EventKind::RepeatRat => Handler::Ignore,
            EventKind::HandshakeTimeout => Handler::HandshakeTimeout,
            EventKind::ProverOk => Handler::ProverOk(FsmState::WaitForDatAndRatVerifier),
            EventKind::ProverFailed => Handler::ProverFailed,
            EventKind::ProverData => Handler::ProverData,
            EventKind::ChannelError | EventKind::PeerClose => Handler::Close,
            EventKind::PeerDatExpired => Handler::DatExpired(FsmState::WaitForDatAndRat),
            EventKind::PeerDat => Handler::Dat(FsmState::WaitForRat),
            EventKind::PeerRatVerifier => Handler::DelegateVerifier,
            EventKind::PeerReRat => Handler::RecvReRat(FsmState::WaitForDatAndRat),
            EventKind::PeerAck => Handler::RecvAck,
            _ => Handler::Unknown,
        },
        FsmState::WaitForDatAndRatVerifier => match kind {
            EventKind::Stop => Handler::Stop,
            EventKind::UpperData => Handler::NotConnected,
            EventKind::RepeatRat => Handler::Ignore,
            EventKind::HandshakeTimeout => Handler::HandshakeTimeout,
            EventKind::ChannelError | EventKind::PeerClose => Handler::Close,
            EventKind::PeerDatExpired => Handler::DatExpired(FsmState::WaitForDatAndRat),
            EventKind::PeerDat => Handler::Dat(FsmState::WaitForRatVerifier),
            EventKind::PeerReRat => Handler::RecvReRat(FsmState::WaitForDatAndRat),
            EventKind::PeerAck => Handler::RecvAck,
            _ => Handler::Unknown,
        },
        FsmState::WaitForAck => match kind {
            EventKind::Stop => Handler::Stop,
            EventKind::RepeatRat | EventKind::RatTimeout => Handler::ReRat(FsmState::WaitForRatVerifier),
            EventKind::UpperData => Handler::WouldBlock,
            EventKind::DatTimeout => Handler::DatTimeout(FsmState::WaitForDatAndRatVerifier),
            EventKind::AckTimeout => Handler::AckTimeout,
            EventKind::ChannelError | EventKind::PeerClose => Handler::Close,
            EventKind::PeerDatExpired => Handler::DatExpired(FsmState::WaitForRatProver),
            EventKind::PeerReRat => Handler::RecvReRat(FsmState::WaitForRatProver),
            EventKind::PeerData => Handler::RecvData,
            EventKind::PeerAck => Handler::RecvAck,
            _ => Handler::Unknown,
        },
        FsmState::Established => match kind {
            EventKind::Stop => Handler::Stop,
            EventKind::RepeatRat | EventKind::RatTimeout => Handler::ReRat(FsmState::WaitForRatVerifier),
            EventKind::UpperData => Handler::SendData,
            EventKind::DatTimeout => Handler::DatTimeout(FsmState::WaitForDatAndRatVerifier),
            EventKind::ChannelError | EventKind::PeerClose => Handler::Close,
            EventKind::PeerDatExpired => Handler::DatExpired(FsmState::WaitForRatProver),
            EventKind::PeerReRat => Handler::RecvReRat(FsmState::WaitForRatProver),
            EventKind::PeerData => Handler::RecvData,
            _ => Handler::Unknown,
        },
    }
}

} // verus!
