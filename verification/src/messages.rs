//! The messages that two peers exchange over the secure channel, as an
//! abstract union. How a message is laid out in bytes is not decided here.

use crate::fsm::alternating_bit::AlternatingBit;
use vstd::prelude::*;

verus! {

/// Why a peer closes the session.
#[derive(Clone, Copy, Debug, PartialEq, Eq, Structural)]
pub enum CloseCause {
    UserShutdown,
    Timeout,
    Error,
    NoValidDat,
    RatProverFailed,
    RatVerifierFailed,
}

/// A message of the protocol.
#[derive(Clone, Debug, PartialEq, Eq)]
#[allow(inconsistent_fields)]
pub enum IdscpMessage {
    Hello { dat: Option<Vec<u8>>, expected_rat_suite: Vec<String>, supported_rat_suite: Vec<String> },
    Close { cause: CloseCause, message: String },
    Dat { token: Vec<u8> },
    DatExpired,
    RatProver { data: Vec<u8> },
    RatVerifier { data: Vec<u8> },
    ReRat { cause: String },
    Data { payload: Vec<u8>, alternating_bit: bool },
    Ack { alternating_bit: bool },
}

/// What a message holds.
#[allow(inconsistent_fields)]
pub enum MessageView {
    Hello { dat: Option<Seq<u8>>, expected_rat_suite: Seq<Seq<char>>, supported_rat_suite: Seq<Seq<char>> },
    Close { cause: CloseCause, message: Seq<char> },
    Dat { token: Seq<u8> },
    DatExpired,
    RatProver { data: Seq<u8> },
    RatVerifier { data: Seq<u8> },
    ReRat { cause: Seq<char> },
    Data { payload: Seq<u8>, alternating_bit: bool },
    Ack { alternating_bit: bool },
}

/// The identifiers in a list of attestation mechanisms, in order.
pub open spec fn suite_view(suite: Seq<String>) -> Seq<Seq<char>> {
    Seq::new(suite.len(), |i: int| suite[i]@)
}

/// The bytes of an optional token.
pub open spec fn token_view(token: Option<Vec<u8>>) -> Option<Seq<u8>> {
    match token {
        Some(bytes) => Some(bytes@),
        None => None,
    }
}

impl View for IdscpMessage {
    type V = MessageView;

    open spec fn view(&self) -> MessageView {
        match *self {
            IdscpMessage::Hello { dat, expected_rat_suite, supported_rat_suite } => MessageView::Hello {
                dat: token_view(dat),
                expected_rat_suite: suite_view(expected_rat_suite@),
                supported_rat_suite: suite_view(supported_rat_suite@),
            },
            IdscpMessage::Close { cause, message } => MessageView::Close { cause, message: message@ },
            IdscpMessage::Dat { token } => MessageView::Dat { token: token@ },
            IdscpMessage::DatExpired => MessageView::DatExpired,
            IdscpMessage::RatProver { data } => MessageView::RatProver { data: data@ },
            IdscpMessage::RatVerifier { data } => MessageView::RatVerifier { data: data@ },
            IdscpMessage::ReRat { cause } => MessageView::ReRat { cause: cause@ },
            IdscpMessage::Data { payload, alternating_bit } => MessageView::Data {
                payload: payload@,
                alternating_bit,
            },
            IdscpMessage::Ack { alternating_bit } => MessageView::Ack { alternating_bit },
        }
    }
}

/// The text that goes out with each cause of a close.
pub open spec fn close_text(cause: CloseCause) -> Seq<char> {
    match cause {
        CloseCause::UserShutdown => "User shutdown"@,
        CloseCause::Timeout => "Handshake timeout"@,
        CloseCause::Error => "No RAT mechanism match"@,
        CloseCause::NoValidDat => "No valid dat"@,
        CloseCause::RatProverFailed => "RatProver failed"@,
        CloseCause::RatVerifierFailed => "RatVerifier failed"@,
    }
}

/// The close message that this endpoint sends for a cause.
pub open spec fn close_message(cause: CloseCause) -> MessageView {
    MessageView::Close { cause, message: close_text(cause) }
}

/// A copy of a byte string.
pub fn clone_bytes(bytes: &Vec<u8>) -> (copy: Vec<u8>)
    ensures
        copy@ == bytes@,
{
    let mut copy: Vec<u8> = Vec::new();
    let mut i: usize = 0;
    while i < bytes.len()
        invariant
            i <= bytes.len(),
            copy@ == bytes@.subrange(0, i as int),
        decreases bytes.len() - i,
    {
        copy.push(bytes[i]);
        i += 1;
        proof {
            assert(copy@ =~= bytes@.subrange(0, i as int));
        }
    }
    proof {
        assert(bytes@.subrange(0, bytes.len() as int) =~= bytes@);
    }
    copy
}

/// A copy of a list of mechanism identifiers.
pub fn clone_suite(suite: &Vec<String>) -> (copy: Vec<String>)
    ensures
        suite_view(copy@) == suite_view(suite@),
{
    let mut copy: Vec<String> = Vec::new();
    let mut i: usize = 0;
    while i < suite.len()
        invariant
            i <= suite.len(),
            copy@.len() == i,
            forall|j: int| 0 <= j < i ==> copy@[j]@ == suite@[j]@,
        decreases suite.len() - i,
    {
        copy.push(suite[i].clone());
        i += 1;
    }
    proof {
        assert(suite_view(copy@) =~= suite_view(suite@));
    }
    copy
}

/// The hello that opens a handshake: the sender's token and the mechanisms it
/// expects of the peer and supports itself.
pub fn create_idscp_hello(
    dat: Vec<u8>,
    expected_rat_suite: &Vec<String>,
    supported_rat_suite: &Vec<String>,
) -> (msg: IdscpMessage)
    ensures
        msg@ == (MessageView::Hello {
            dat: Some(dat@),
            expected_rat_suite: suite_view(expected_rat_suite@),
            supported_rat_suite: suite_view(supported_rat_suite@),
        }),
{
    IdscpMessage::Hello {
        dat: Some(dat),
        expected_rat_suite: clone_suite(expected_rat_suite),
        supported_rat_suite: clone_suite(supported_rat_suite),
    }
}

pub fn create_idscp_close(cause: CloseCause, message: &str) -> (msg: IdscpMessage)
    ensures
        msg@ == (MessageView::Close { cause, message: message@ }),
{
    IdscpMessage::Close { cause, message: message.to_owned() }
}

pub fn create_idscp_dat(token: Vec<u8>) -> (msg: IdscpMessage)
    ensures
        msg@ == (MessageView::Dat { token: token@ }),
{
    IdscpMessage::Dat { token }
}

pub fn create_idscp_dat_exp() -> (msg: IdscpMessage)
    ensures
        msg@ == MessageView::DatExpired,
{
    IdscpMessage::DatExpired
}

pub fn create_idscp_rat_prover(data: Vec<u8>) -> (msg: IdscpMessage)
    ensures
        msg@ == (MessageView::RatProver { data: data@ }),
{
    IdscpMessage::RatProver { data }
}

pub fn create_idscp_rat_verifier(data: Vec<u8>) -> (msg: IdscpMessage)
    ensures
        msg@ == (MessageView::RatVerifier { data: data@ }),
{
    IdscpMessage::RatVerifier { data }
}

pub fn create_idscp_re_rat(cause: &str) -> (msg: IdscpMessage)
    ensures
        msg@ == (MessageView::ReRat { cause: cause@ }),
{
    IdscpMessage::ReRat { cause: cause.to_owned() }
}

/// A data message with the bit it goes out under.
pub fn create_idscp_data(payload: Vec<u8>, alternating_bit: &AlternatingBit) -> (msg: IdscpMessage)
    ensures
        msg@ == (MessageView::Data { payload: payload@, alternating_bit: alternating_bit.spec_as_bool() }),
{
    IdscpMessage::Data { payload, alternating_bit: alternating_bit.as_bool() }
}

/// The acknowledgement of a data message, with the bit of that message.
pub fn create_idscp_ack(alternating_bit: AlternatingBit) -> (msg: IdscpMessage)
    ensures
        msg@ == (MessageView::Ack { alternating_bit: alternating_bit.spec_as_bool() }),
{
    IdscpMessage::Ack { alternating_bit: alternating_bit.as_bool() }
}

/// The close message for a cause, with the text that belongs to it.
pub fn create_close_for(cause: CloseCause) -> (msg: IdscpMessage)
    ensures
        msg@ == close_message(cause),
{
    match cause {
        CloseCause::UserShutdown => create_idscp_close(cause, "User shutdown"),
        CloseCause::Timeout => create_idscp_close(cause, "Handshake timeout"),
        CloseCause::Error => create_idscp_close(cause, "No RAT mechanism match"),
        CloseCause::NoValidDat => create_idscp_close(cause, "No valid dat"),
        CloseCause::RatProverFailed => create_idscp_close(cause, "RatProver failed"),
        CloseCause::RatVerifierFailed => create_idscp_close(cause, "RatVerifier failed"),
    }
}

} // verus!
