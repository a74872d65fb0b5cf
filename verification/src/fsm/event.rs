//! The events that drive the machine.

use crate::drivers::rat_driver::{RatIcm, RatMessage, RatMessageView, RatRole};
use crate::fsm::UserEvent;
use crate::messages::{clone_bytes, IdscpMessage, MessageView};
use vstd::prelude::*;

verus! {

pub enum UserEventView {
    StartHandshake,
    Stop,
    RepeatRat,
    Data(Seq<u8>),
}

impl View for UserEvent {
    type V = UserEventView;

    open spec fn view(&self) -> UserEventView {
        match *self {
            UserEvent::StartHandshake => UserEventView::StartHandshake,
            UserEvent::Stop => UserEventView::Stop,
            UserEvent::RepeatRat => UserEventView::RepeatRat,
            UserEvent::Data(payload) => UserEventView::Data(payload@),
        }
    }
}

/// What the reader of the secure channel reports: a decoded message of the
/// peer, or that receiving or decoding failed.
#[derive(Clone, Debug, PartialEq, Eq)]
pub enum SecureChannelEvent {
    Message(IdscpMessage),
    Error,
}

pub enum SecureChannelEventView {
    Message(MessageView),
    Error,
}

impl View for SecureChannelEvent {
    type V = SecureChannelEventView;

    open spec fn view(&self) -> SecureChannelEventView {
        match *self {
            SecureChannelEvent::Message(msg) => SecureChannelEventView::Message(msg@),
            SecureChannelEvent::Error => SecureChannelEventView::Error,
        }
    }
}

/// An event for the machine.
#[derive(Clone, Debug, PartialEq, Eq)]
pub enum FsmEvent {
    FromRatProver(RatMessage),
    FromRatVerifier(RatMessage),
    FromUpper(UserEvent),
    FromSecureChannel(SecureChannelEvent),
    RatTimeout,
    DatTimeout,
    HandshakeTimeout,
    AckTimeout,
}

pub enum EventView {
    FromRatProver(RatMessageView),
    FromRatVerifier(RatMessageView),
    FromUpper(UserEventView),
    FromSecureChannel(SecureChannelEventView),
    RatTimeout,
    DatTimeout,
    HandshakeTimeout,
    AckTimeout,
}

impl View for FsmEvent {
    type V = EventView;

    open spec fn view(&self) -> EventView {
        match *self {
            FsmEvent::FromRatProver(msg) => EventView::FromRatProver(msg@),
            FsmEvent::FromRatVerifier(msg) => EventView::FromRatVerifier(msg@),
            FsmEvent::FromUpper(event) => EventView::FromUpper(event@),
            FsmEvent::FromSecureChannel(event) => EventView::FromSecureChannel(event@),
            FsmEvent::RatTimeout => EventView::RatTimeout,
            FsmEvent::DatTimeout => EventView::DatTimeout,
            FsmEvent::HandshakeTimeout => EventView::HandshakeTimeout,
            FsmEvent::AckTimeout => EventView::AckTimeout,
        }
    }
}

/// An event without what it carries: the column of the transition table.
#[derive(Clone, Copy, Debug, PartialEq, Eq, Structural)]
pub enum EventKind {
    StartHandshake,
    Stop,
    RepeatRat,
    UpperData,
    HandshakeTimeout,
    DatTimeout,
    RatTimeout,
    AckTimeout,
    ProverOk,
    ProverFailed,
    ProverData,
    VerifierOk,
    VerifierFailed,
    VerifierData,
    ChannelError,
    PeerClose,
    PeerHello,
    PeerDat,
    PeerDatExpired,
    PeerRatProver,
    PeerRatVerifier,
    PeerReRat,
    PeerData,
    PeerAck,
}

/// The kind of a message when it comes from the peer.
pub open spec fn message_kind(msg: MessageView) -> EventKind {
    match msg {
        MessageView::Hello { .. } => EventKind::PeerHello,
        MessageView::Close { .. } => EventKind::PeerClose,
        MessageView::Dat { .. } => EventKind::PeerDat,
        MessageView::DatExpired => EventKind::PeerDatExpired,
        MessageView::RatProver { .. } => EventKind::PeerRatProver,
        MessageView::RatVerifier { .. } => EventKind::PeerRatVerifier,
        MessageView::ReRat { .. } => EventKind::PeerReRat,
        MessageView::Data { .. } => EventKind::PeerData,
        MessageView::Ack { .. } => EventKind::PeerAck,
    }
}

impl EventView {
    pub open spec fn kind(self) -> EventKind {
        match self {
            EventView::FromRatProver(RatMessageView::ControlMessage(RatIcm::OK)) => EventKind::ProverOk,
            EventView::FromRatProver(RatMessageView::ControlMessage(RatIcm::Failed)) => EventKind::ProverFailed,
            EventView::FromRatProver(RatMessageView::RawData(_)) => EventKind::ProverData,
            EventView::FromRatVerifier(RatMessageView::ControlMessage(RatIcm::OK)) => EventKind::VerifierOk,
            EventView::FromRatVerifier(RatMessageView::ControlMessage(RatIcm::Failed)) => EventKind::VerifierFailed,
            EventView::FromRatVerifier(RatMessageView::RawData(_)) => EventKind::VerifierData,
            EventView::FromUpper(UserEventView::StartHandshake) => EventKind::StartHandshake,
            EventView::FromUpper(UserEventView::Stop) => EventKind::Stop,
            EventView::FromUpper(UserEventView::RepeatRat) => EventKind::RepeatRat,
            EventView::FromUpper(UserEventView::Data(_)) => EventKind::UpperData,
            EventView::FromSecureChannel(SecureChannelEventView::Error) => EventKind::ChannelError,
            EventView::FromSecureChannel(SecureChannelEventView::Message(msg)) => message_kind(msg),
            EventView::RatTimeout => EventKind::RatTimeout,
            EventView::DatTimeout => EventKind::DatTimeout,
            EventView::HandshakeTimeout => EventKind::HandshakeTimeout,
            EventView::AckTimeout => EventKind::AckTimeout,
        }
    }

    /// The bytes that the event carries: a payload, attestation data or a
    /// token. Empty where it carries none.
    pub open spec fn bytes(self) -> Seq<u8> {
        match self {
            EventView::FromRatProver(RatMessageView::RawData(data)) => data,
            EventView::FromRatVerifier(RatMessageView::RawData(data)) => data,
            EventView::FromUpper(UserEventView::Data(payload)) => payload,
            EventView::FromSecureChannel(SecureChannelEventView::Message(msg)) => match msg {
                MessageView::Dat { token } => token,
                MessageView::RatProver { data } => data,
                MessageView::RatVerifier { data } => data,
                MessageView::Data { payload, .. } => payload,
                _ => Seq::empty(),
            },
            _ => Seq::empty(),
        }
    }

    /// The alternating bit of a data message or an acknowledgement of the
    /// peer; `false` for any other event.
    pub open spec fn bit(self) -> bool {
        match self {
            EventView::FromSecureChannel(SecureChannelEventView::Message(msg)) => match msg {
                MessageView::Data { alternating_bit, .. } => alternating_bit,
                MessageView::Ack { alternating_bit } => alternating_bit,
                _ => false,
            },
            _ => false,
        }
    }

    /// The token in a hello of the peer, if the event is one and has one.
    pub open spec fn hello_dat(self) -> Option<Seq<u8>> {
        match self {
            EventView::FromSecureChannel(
                SecureChannelEventView::Message(MessageView::Hello { dat, .. }),
            ) => dat,
            _ => None,
        }
    }

    /// The mechanisms that the peer expects of this endpoint, from its hello.
    pub open spec fn peer_expected(self) -> Seq<Seq<char>> {
        match self {
            EventView::FromSecureChannel(
                SecureChannelEventView::Message(MessageView::Hello { expected_rat_suite, .. }),
            ) => expected_rat_suite,
            _ => Seq::empty(),
        }
    }

    /// The mechanisms that the peer supports, from its hello.
    pub open spec fn peer_supported(self) -> Seq<Seq<char>> {
        match self {
            EventView::FromSecureChannel(
                SecureChannelEventView::Message(MessageView::Hello { supported_rat_suite, .. }),
            ) => supported_rat_suite,
            _ => Seq::empty(),
        }
    }
}

/// The event that a worker's message becomes, by the role of the worker.
pub open spec fn driver_event(role: RatRole, msg: RatMessageView) -> EventView {
    match role {
        RatRole::Prover => EventView::FromRatProver(msg),
        RatRole::Verifier => EventView::FromRatVerifier(msg),
    }
}

impl RatRole {
    /// Wraps a worker's message into the event of its role.
    pub fn create_event(self, msg: RatMessage) -> (event: FsmEvent)
        ensures
            event@ == driver_event(self, msg@),
    {
        match self {
            RatRole::Prover => FsmEvent::FromRatProver(msg),
            RatRole::Verifier => FsmEvent::FromRatVerifier(msg),
        }
    }
}

impl SecureChannelEvent {
    /// The event for a message that the reader has decoded.
    pub fn from_message(msg: IdscpMessage) -> (event: SecureChannelEvent)
        ensures
            event@ == SecureChannelEventView::Message(msg@),
    {
        SecureChannelEvent::Message(msg)
    }
}

impl FsmEvent {
    /// A copy of the bytes that the event carries.
    pub fn bytes(&self) -> (bytes: Vec<u8>)
        ensures
            bytes@ == self@.bytes(),
    {
        match self {
            FsmEvent::FromRatProver(RatMessage::RawData(data)) => clone_bytes(data),
            FsmEvent::FromRatVerifier(RatMessage::RawData(data)) => clone_bytes(data),
            FsmEvent::FromUpper(UserEvent::Data(payload)) => clone_bytes(payload),
            FsmEvent::FromSecureChannel(SecureChannelEvent::Message(msg)) => match msg {
                IdscpMessage::Dat { token } => clone_bytes(token),
                IdscpMessage::RatProver { data } => clone_bytes(data),
                IdscpMessage::RatVerifier { data } => clone_bytes(data),
                IdscpMessage::Data { payload, .. } => clone_bytes(payload),
                _ => Vec::new(),
            },
            _ => Vec::new(),
        }
    }

    pub fn bit(&self) -> (bit: bool)
        ensures
            bit == self@.bit(),
    {
        match self {
            FsmEvent::FromSecureChannel(SecureChannelEvent::Message(msg)) => match msg {
                IdscpMessage::Data { alternating_bit, .. } => *alternating_bit,
                IdscpMessage::Ack { alternating_bit } => *alternating_bit,
                _ => false,
            },
            _ => false,
        }
    }

    pub fn kind(&self) -> (kind: EventKind)
        ensures
            kind == self@.kind(),
    {
        match self {
            FsmEvent::FromRatProver(RatMessage::ControlMessage(RatIcm::OK)) => EventKind::ProverOk,
            FsmEvent::FromRatProver(RatMessage::ControlMessage(RatIcm::Failed)) => EventKind::ProverFailed,
            FsmEvent::FromRatProver(RatMessage::RawData(_)) => EventKind::ProverData,
            FsmEvent::FromRatVerifier(RatMessage::ControlMessage(RatIcm::OK)) => EventKind::VerifierOk,
            FsmEvent::FromRatVerifier(RatMessage::ControlMessage(RatIcm::Failed)) => EventKind::VerifierFailed,
            FsmEvent::FromRatVerifier(RatMessage::RawData(_)) => EventKind::VerifierData,
            FsmEvent::FromUpper(UserEvent::StartHandshake) => EventKind::StartHandshake,
            FsmEvent::FromUpper(UserEvent::Stop) => EventKind::Stop,
            FsmEvent::FromUpper(UserEvent::RepeatRat) => EventKind::RepeatRat,
            FsmEvent::FromUpper(UserEvent::Data(_)) => EventKind::UpperData,
            FsmEvent::FromSecureChannel(SecureChannelEvent::Error) => EventKind::ChannelError,
            FsmEvent::FromSecureChannel(SecureChannelEvent::Message(msg)) => match msg {
                IdscpMessage::Hello { .. } => EventKind::PeerHello,
                IdscpMessage::Close { .. } => EventKind::PeerClose,
                IdscpMessage::Dat { .. } => EventKind::PeerDat,
                IdscpMessage::DatExpired => EventKind::PeerDatExpired,
                IdscpMessage::RatProver { .. } => EventKind::PeerRatProver,
                IdscpMessage::RatVerifier { .. } => EventKind::PeerRatVerifier,
                IdscpMessage::ReRat { .. } => EventKind::PeerReRat,
                IdscpMessage::Data { .. } => EventKind::PeerData,
                IdscpMessage::Ack { .. } => EventKind::PeerAck,
            },
            FsmEvent::RatTimeout => EventKind::RatTimeout,
            FsmEvent::DatTimeout => EventKind::DatTimeout,
            FsmEvent::HandshakeTimeout => EventKind::HandshakeTimeout,
            FsmEvent::AckTimeout => EventKind::AckTimeout,
        }
    }
}

} // verus!
