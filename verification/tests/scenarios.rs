use idscp_core::drivers::rat_driver::{RatIcm, RatMessage, RatRegistry, RatRole};
use idscp_core::fsm::action::{Action, Answers, Request, Step};
use idscp_core::fsm::alternating_bit::AlternatingBit;
use idscp_core::fsm::event::{EventKind, FsmEvent, SecureChannelEvent};
use idscp_core::fsm::fsm_timer::{DynamicTimer, StaticTimer, TimerId};
use idscp_core::fsm::rat_interface::RatError;
use idscp_core::fsm::table::{lookup, Handler};
use idscp_core::fsm::{
    AckFlag, AttestationConfig, ClosedStateStatus, FiniteStateMachine, FsmError, FsmState, HandshakeResult,
    RatNegotiationError, UserEvent,
};
use idscp_core::messages::{
    create_close_for, create_idscp_ack, create_idscp_close, create_idscp_dat, create_idscp_dat_exp,
    create_idscp_data, create_idscp_hello, create_idscp_rat_prover, create_idscp_rat_verifier, create_idscp_re_rat,
    CloseCause, IdscpMessage,
};
use openssl::hash::MessageDigest;
use openssl::nid::Nid;
use openssl::pkey::PKey;
use openssl::rsa::Rsa;
use openssl::x509::{X509Name, X509};
use std::time::Duration;

// The world around the machine: a token service that mints `token` and
// accepts "valid" for one second, a channel and workers that take what they
// are given or do not.
struct World {
    token: Vec<u8>,
    channel_up: bool,
    workers_up: bool,
}

fn fair_weather() -> World {
    World { token: Vec::from("valid"), channel_up: true, workers_up: true }
}

struct Outcome {
    result: Result<(), FsmError>,
    actions: Vec<Action>,
    asked: Vec<Request>,
}

fn answer(world: &World, request: &Request, answers: &mut Answers) {
    match request {
        Request::GetToken => answers.token = Some(world.token.clone()),
        Request::VerifyToken(token) => {
            answers.validity = Some(if token.as_slice() == b"valid" { Some(Duration::from_secs(1)) } else { None })
        }
        Request::Send(_) => answers.sent = Some(world.channel_up),
        Request::WriteToDriver { .. } => answers.written = Some(world.workers_up),
    }
}

fn offer(fsm: &mut FiniteStateMachine, world: &World, event: FsmEvent) -> Outcome {
    let mut answers = Answers::none();
    let mut asked = Vec::new();
    loop {
        match fsm.process_event(&event, &answers) {
            Step::Ask(request) => {
                answer(world, &request, &mut answers);
                asked.push(request);
            }
            Step::Done { result, actions } => return Outcome { result, actions, asked },
        }
    }
}

fn expire(fsm: &mut FiniteStateMachine, world: &World, timer: TimerId, ticket: u64) -> Option<Outcome> {
    let mut answers = Answers::none();
    let mut asked = Vec::new();
    loop {
        match fsm.timer_expired(timer, ticket, &answers) {
            None => return None,
            Some(Step::Ask(request)) => {
                answer(world, &request, &mut answers);
                asked.push(request);
            }
            Some(Step::Done { result, actions }) => return Some(Outcome { result, actions, asked }),
        }
    }
}

fn test_cert() -> X509 {
    let rsa = Rsa::generate(2048).unwrap();
    let pkey = PKey::from_rsa(rsa).unwrap();
    let mut name = X509Name::builder().unwrap();
    name.append_entry_by_nid(Nid::COMMONNAME, "foobar.com").unwrap();
    let name = name.build();
    let mut builder = X509::builder().unwrap();
    builder.set_version(2).unwrap();
    builder.set_subject_name(&name).unwrap();
    builder.set_issuer_name(&name).unwrap();
    builder.set_pubkey(&pkey).unwrap();
    builder.sign(&pkey, MessageDigest::sha256()).unwrap();
    builder.build()
}

fn suite(names: &[&str]) -> Vec<String> {
    names.iter().map(|n| n.to_string()).collect()
}

fn registry(names: &[&str]) -> RatRegistry {
    let mut registry = RatRegistry::new();
    for name in names {
        registry.register_driver(name.to_string());
    }
    registry
}

const HANDSHAKE: Duration = Duration::from_millis(5000);
const ACK: Duration = Duration::from_millis(1000);
const RAT: Duration = Duration::from_millis(3000);

fn new_fsm(registered: &[&str]) -> FiniteStateMachine {
    let cert = test_cert();
    FiniteStateMachine::create(
        cert.clone(),
        cert,
        registry(registered),
        registry(registered),
        HANDSHAKE,
        ACK,
        AttestationConfig {
            expected_attestation_suite: suite(&["NullRat"]),
            supported_attestation_suite: suite(&["NullRat"]),
            rat_timeout: RAT,
        },
    )
}

fn locked() -> FsmState {
    FsmState::Closed(ClosedStateStatus::Locked)
}

fn peer(msg: IdscpMessage) -> FsmEvent {
    FsmEvent::FromSecureChannel(SecureChannelEvent::from_message(msg))
}

fn upper(event: UserEvent) -> FsmEvent {
    FsmEvent::FromUpper(event)
}

fn from_prover(icm: RatIcm) -> FsmEvent {
    FsmEvent::FromRatProver(RatMessage::ControlMessage(icm))
}

fn from_verifier(icm: RatIcm) -> FsmEvent {
    FsmEvent::FromRatVerifier(RatMessage::ControlMessage(icm))
}

fn null_rat_hello(dat: &str) -> IdscpMessage {
    create_idscp_hello(Vec::from(dat), &suite(&["NullRat"]), &suite(&["NullRat"]))
}

// A machine that has gone through the whole handshake, with a connection bound.
fn established() -> FiniteStateMachine {
    let world = fair_weather();
    let mut fsm = new_fsm(&["NullRat"]);
    offer(&mut fsm, &world, upper(UserEvent::StartHandshake)).result.unwrap();
    offer(&mut fsm, &world, peer(null_rat_hello("valid"))).result.unwrap();
    offer(&mut fsm, &world, from_verifier(RatIcm::OK)).result.unwrap();
    offer(&mut fsm, &world, from_prover(RatIcm::OK)).result.unwrap();
    assert_eq!(fsm.current_state, FsmState::Established);
    assert!(fsm.set_connection(Some(7)).is_empty());
    fsm
}

fn close_all() -> Vec<Action> {
    vec![Action::UnlockChannel, Action::StopChannel]
}

#[test]
fn a_new_machine_is_closed_and_unlocked() {
    let fsm = new_fsm(&["NullRat"]);
    assert_eq!(fsm.current_state, FsmState::Closed(ClosedStateStatus::Unlocked));
    assert!(fsm.is_closed());
    assert!(!fsm.is_connected());
    assert_eq!(fsm.ack_flag, AckFlag::Inactive);
    assert_eq!(fsm.next_send_alternating_bit, AlternatingBit::Zero);
    assert_eq!(fsm.expected_alternating_bit, AlternatingBit::Zero);
    assert_eq!(fsm.handshake_result, HandshakeResult::NotAvailable);
    assert!(!fsm.handshake_result_available());
    assert!(!fsm.connection_available);
    assert_eq!(fsm.handshake_timer.delay, HANDSHAKE);
    assert_eq!(fsm.prover_timer.delay, HANDSHAKE);
    assert_eq!(fsm.verifier_timer.delay, HANDSHAKE);
    assert_eq!(fsm.ack_timer.delay, ACK);
    assert_eq!(fsm.rat_timer.delay, RAT);
    assert!(!fsm.handshake_timer.armed && !fsm.dat_timer.armed && !fsm.ack_timer.armed);
    assert!(!fsm.rat_prover.is_active() && !fsm.rat_verifier.is_active());
    assert_eq!(fsm.rat_prover.role, RatRole::Prover);
    assert_eq!(fsm.rat_verifier.role, RatRole::Verifier);
}

#[test]
fn happy_handshake() {
    let world = fair_weather();
    let mut fsm = new_fsm(&["NullRat"]);

    let started = offer(&mut fsm, &world, upper(UserEvent::StartHandshake));
    assert_eq!(started.result, Ok(()));
    assert_eq!(started.asked, vec![Request::GetToken, Request::Send(null_rat_hello("valid"))]);
    assert_eq!(
        started.actions,
        vec![Action::UnlockChannel, Action::StartTimer { timer: TimerId::Handshake, ticket: 1, delay: HANDSHAKE }]
    );
    assert_eq!(fsm.current_state, FsmState::WaitForHello);
    assert!(fsm.handshake_timer.armed);

    let greeted = offer(&mut fsm, &world, peer(null_rat_hello("valid")));
    assert_eq!(greeted.result, Ok(()));
    assert_eq!(greeted.asked, vec![Request::VerifyToken(Vec::from("valid"))]);
    assert_eq!(
        greeted.actions,
        vec![
            Action::StartTimer { timer: TimerId::Dat, ticket: 1, delay: Duration::from_secs(1) },
            Action::LaunchDriver { role: RatRole::Verifier, driver: "NullRat".to_string(), session: 0 },
            Action::StartTimer { timer: TimerId::Verifier, ticket: 1, delay: HANDSHAKE },
            Action::LaunchDriver { role: RatRole::Prover, driver: "NullRat".to_string(), session: 0 },
            Action::StartTimer { timer: TimerId::Prover, ticket: 1, delay: HANDSHAKE },
        ]
    );
    assert_eq!(fsm.current_state, FsmState::WaitForRat);
    assert!(!fsm.handshake_timer.armed);
    assert!(fsm.dat_timer.armed && fsm.prover_timer.armed && fsm.verifier_timer.armed);
    assert!(fsm.rat_prover.is_active() && fsm.rat_verifier.is_active());

    let verified = offer(&mut fsm, &world, from_verifier(RatIcm::OK));
    assert_eq!(verified.result, Ok(()));
    assert_eq!(verified.actions, vec![Action::StartTimer { timer: TimerId::Rat, ticket: 1, delay: RAT }]);
    assert_eq!(fsm.current_state, FsmState::WaitForRatProver);
    assert!(!fsm.verifier_timer.armed);
    assert_eq!(fsm.handshake_result, HandshakeResult::NotAvailable);

    let proved = offer(&mut fsm, &world, from_prover(RatIcm::OK));
    assert_eq!(proved.result, Ok(()));
    assert_eq!(proved.actions, vec![Action::Publish(HandshakeResult::Successful)]);
    assert_eq!(fsm.current_state, FsmState::Established);
    assert_eq!(fsm.handshake_result, HandshakeResult::Successful);
    assert!(fsm.is_connected());
    assert!(!fsm.is_closed());
    assert!(!fsm.prover_timer.armed);
}

#[test]
fn handshake_in_the_other_order_of_verdicts() {
    let world = fair_weather();
    let mut fsm = new_fsm(&["NullRat"]);
    offer(&mut fsm, &world, upper(UserEvent::StartHandshake)).result.unwrap();
    offer(&mut fsm, &world, peer(null_rat_hello("valid"))).result.unwrap();
    let proved = offer(&mut fsm, &world, from_prover(RatIcm::OK));
    assert!(proved.actions.is_empty());
    assert_eq!(fsm.current_state, FsmState::WaitForRatVerifier);
    let verified = offer(&mut fsm, &world, from_verifier(RatIcm::OK));
    assert_eq!(
        verified.actions,
        vec![
            Action::StartTimer { timer: TimerId::Rat, ticket: 1, delay: RAT },
            Action::Publish(HandshakeResult::Successful)
        ]
    );
    assert_eq!(fsm.current_state, FsmState::Established);
}

#[test]
fn handshake_timeout() {
    let world = fair_weather();
    let mut fsm = new_fsm(&["NullRat"]);
    let _ = fsm.set_connection(Some(1));
    offer(&mut fsm, &world, upper(UserEvent::StartHandshake)).result.unwrap();
    let ticket = fsm.handshake_timer.generation;

    let expired = expire(&mut fsm, &world, TimerId::Handshake, ticket).unwrap();
    assert_eq!(expired.result, Ok(()));
    assert_eq!(fsm.current_state, locked());
    assert_eq!(fsm.handshake_result, HandshakeResult::Failed);
    assert_eq!(
        expired.actions,
        vec![
            Action::Send(create_idscp_close(CloseCause::Timeout, "Handshake timeout")),
            Action::UnlockChannel,
            Action::StopChannel,
            Action::Publish(HandshakeResult::Failed),
        ]
    );
    assert!(!expired.actions.contains(&Action::OnClose));

    // the same wake-up again goes nowhere
    assert!(expire(&mut fsm, &world, TimerId::Handshake, ticket).is_none());
}

#[test]
fn alternating_bit_retransmit() {
    let world = fair_weather();
    let mut fsm = established();

    let sent = offer(&mut fsm, &world, upper(UserEvent::Data(Vec::from("A"))));
    assert_eq!(sent.result, Ok(()));
    assert_eq!(sent.asked, vec![Request::Send(create_idscp_data(Vec::from("A"), &AlternatingBit::Zero))]);
    assert_eq!(sent.actions, vec![Action::StartTimer { timer: TimerId::Ack, ticket: 1, delay: ACK }]);
    assert_eq!(fsm.current_state, FsmState::WaitForAck);
    assert_eq!(fsm.ack_flag, AckFlag::Active(Vec::from("A")));

    let resent = expire(&mut fsm, &world, TimerId::Ack, 1).unwrap();
    assert_eq!(resent.result, Ok(()));
    assert_eq!(resent.asked, vec![Request::Send(create_idscp_data(Vec::from("A"), &AlternatingBit::Zero))]);
    assert_eq!(resent.actions, vec![Action::StartTimer { timer: TimerId::Ack, ticket: 2, delay: ACK }]);
    assert_eq!(fsm.current_state, FsmState::WaitForAck);
    assert_eq!(fsm.next_send_alternating_bit, AlternatingBit::Zero);

    let acked = offer(&mut fsm, &world, peer(create_idscp_ack(AlternatingBit::Zero)));
    assert_eq!(acked.result, Ok(()));
    assert!(acked.actions.is_empty());
    assert_eq!(fsm.current_state, FsmState::Established);
    assert_eq!(fsm.next_send_alternating_bit, AlternatingBit::One);
    assert_eq!(fsm.ack_flag, AckFlag::Inactive);
    assert!(!fsm.ack_timer.armed);

    // the next message goes out under the flipped bit
    let next = offer(&mut fsm, &world, upper(UserEvent::Data(Vec::from("B"))));
    assert_eq!(next.asked, vec![Request::Send(create_idscp_data(Vec::from("B"), &AlternatingBit::One))]);
}

#[test]
fn invalid_ack_bit_ignored() {
    let world = fair_weather();
    let mut fsm = established();
    offer(&mut fsm, &world, upper(UserEvent::Data(Vec::from("A")))).result.unwrap();

    let ignored = offer(&mut fsm, &world, peer(create_idscp_ack(AlternatingBit::One)));
    assert_eq!(ignored.result, Ok(()));
    assert!(ignored.actions.is_empty());
    assert_eq!(fsm.current_state, FsmState::WaitForAck);
    assert_eq!(fsm.next_send_alternating_bit, AlternatingBit::Zero);
    assert_eq!(fsm.ack_flag, AckFlag::Active(Vec::from("A")));
    assert!(fsm.ack_timer.armed);
}

#[test]
fn dat_refresh_mid_session() {
    let world = fair_weather();
    let mut fsm = established();
    let dat_ticket = fsm.dat_timer.generation;

    let expired = expire(&mut fsm, &world, TimerId::Dat, dat_ticket).unwrap();
    assert_eq!(expired.result, Ok(()));
    assert_eq!(expired.asked, vec![Request::Send(create_idscp_dat_exp())]);
    assert_eq!(
        expired.actions,
        vec![
            Action::StopDriver { role: RatRole::Verifier, session: 0 },
            Action::StartTimer { timer: TimerId::Handshake, ticket: 2, delay: HANDSHAKE },
        ]
    );
    assert_eq!(fsm.current_state, FsmState::WaitForDatAndRatVerifier);
    assert!(fsm.handshake_timer.armed);
    assert!(!fsm.rat_timer.armed);

    let renewed = offer(&mut fsm, &world, peer(create_idscp_dat(Vec::from("valid"))));
    assert_eq!(renewed.result, Ok(()));
    assert_eq!(renewed.asked, vec![Request::VerifyToken(Vec::from("valid"))]);
    assert_eq!(
        renewed.actions,
        vec![
            Action::StartTimer { timer: TimerId::Dat, ticket: 2, delay: Duration::from_secs(1) },
            Action::LaunchDriver { role: RatRole::Verifier, driver: "NullRat".to_string(), session: 1 },
            Action::StartTimer { timer: TimerId::Verifier, ticket: 2, delay: HANDSHAKE },
        ]
    );
    assert_eq!(fsm.current_state, FsmState::WaitForRatVerifier);
    assert!(!fsm.handshake_timer.armed);

    let verified = offer(&mut fsm, &world, from_verifier(RatIcm::OK));
    assert_eq!(verified.result, Ok(()));
    assert_eq!(fsm.current_state, FsmState::Established);
    // the handshake result went out with the first handshake and does not go out again
    assert_eq!(verified.actions, vec![Action::StartTimer { timer: TimerId::Rat, ticket: 2, delay: RAT }]);
}

#[test]
fn mechanism_mismatch() {
    let world = fair_weather();
    let mut fsm = new_fsm(&["NullRat"]);
    offer(&mut fsm, &world, upper(UserEvent::StartHandshake)).result.unwrap();

    let hello = create_idscp_hello(Vec::from("valid"), &suite(&["X"]), &suite(&["X"]));
    let refused = offer(&mut fsm, &world, peer(hello));
    assert_eq!(refused.result, Err(FsmError::RatNegotiationError(RatNegotiationError::NoRatMechanismMatch)));
    assert!(refused.asked.is_empty());
    assert_eq!(fsm.current_state, locked());
    assert_eq!(fsm.handshake_result, HandshakeResult::Failed);
    assert_eq!(
        refused.actions,
        vec![
            Action::Send(create_close_for(CloseCause::Error)),
            Action::UnlockChannel,
            Action::StopChannel,
            Action::Publish(HandshakeResult::Failed),
        ]
    );
    assert_eq!(create_close_for(CloseCause::Error), create_idscp_close(CloseCause::Error, "No RAT mechanism match"));
}

#[test]
fn locked_is_absorbing() {
    let world = fair_weather();
    let mut fsm = established();
    offer(&mut fsm, &world, upper(UserEvent::Stop)).result.unwrap();
    assert_eq!(fsm.current_state, locked());
    let before = format!("{:?}", fsm);
    let events = vec![
        upper(UserEvent::StartHandshake),
        upper(UserEvent::Stop),
        upper(UserEvent::RepeatRat),
        upper(UserEvent::Data(vec![1])),
        peer(null_rat_hello("valid")),
        peer(create_idscp_data(vec![1], &AlternatingBit::Zero)),
        peer(create_idscp_ack(AlternatingBit::Zero)),
        from_prover(RatIcm::OK),
        from_verifier(RatIcm::Failed),
        FsmEvent::FromSecureChannel(SecureChannelEvent::Error),
        FsmEvent::HandshakeTimeout,
        FsmEvent::RatTimeout,
        FsmEvent::AckTimeout,
        FsmEvent::DatTimeout,
    ];
    for event in events {
        let outcome = offer(&mut fsm, &world, event);
        assert_eq!(outcome.result, Err(FsmError::FsmLocked));
        assert!(outcome.actions.is_empty());
        assert!(outcome.asked.is_empty());
        assert_eq!(format!("{:?}", fsm), before);
    }
}

#[test]
fn dat_timeout_in_locked_is_a_no_op() {
    let world = fair_weather();
    let mut fsm = established();
    let dat_ticket = fsm.dat_timer.generation;
    offer(&mut fsm, &world, upper(UserEvent::Stop)).result.unwrap();
    let before = format!("{:?}", fsm);

    // the wake-up was cancelled by the cleanup
    assert!(expire(&mut fsm, &world, TimerId::Dat, dat_ticket).is_none());
    // and the bare event is turned away
    let outcome = offer(&mut fsm, &world, FsmEvent::DatTimeout);
    assert_eq!(outcome.result, Err(FsmError::FsmLocked));
    assert!(outcome.actions.is_empty());
    assert_eq!(format!("{:?}", fsm), before);
}

#[test]
fn ack_timeout_without_pending_message() {
    let world = fair_weather();
    let mut fsm = established();
    fsm.current_state = FsmState::WaitForAck;
    let before = format!("{:?}", fsm);
    let outcome = offer(&mut fsm, &world, FsmEvent::AckTimeout);
    assert_eq!(outcome.result, Err(FsmError::IdscpDataNotCached));
    assert!(outcome.actions.is_empty());
    assert!(outcome.asked.is_empty());
    assert_eq!(format!("{:?}", fsm), before);
}

#[test]
fn data_with_the_wrong_bit_is_dropped() {
    let world = fair_weather();
    let mut fsm = established();
    let before = format!("{:?}", fsm);
    let outcome = offer(&mut fsm, &world, peer(create_idscp_data(Vec::from("DATA"), &AlternatingBit::One)));
    assert_eq!(outcome.result, Ok(()));
    assert!(outcome.actions.is_empty());
    assert_eq!(fsm.expected_alternating_bit, AlternatingBit::Zero);
    assert_eq!(fsm.current_state, FsmState::Established);
    assert_eq!(format!("{:?}", fsm), before);
}

#[test]
fn data_with_the_expected_bit_is_acknowledged_and_delivered() {
    let world = fair_weather();
    let mut fsm = established();
    let outcome = offer(&mut fsm, &world, peer(create_idscp_data(Vec::from("DATA"), &AlternatingBit::Zero)));
    assert_eq!(outcome.result, Ok(()));
    assert_eq!(
        outcome.actions,
        vec![Action::Send(create_idscp_ack(AlternatingBit::Zero)), Action::OnMessage(Vec::from("DATA"))]
    );
    assert_eq!(fsm.expected_alternating_bit, AlternatingBit::One);
    assert_eq!(fsm.current_state, FsmState::Established);

    // the retransmission of the same message is not delivered again
    let again = offer(&mut fsm, &world, peer(create_idscp_data(Vec::from("DATA"), &AlternatingBit::Zero)));
    assert!(again.actions.is_empty());
    assert_eq!(fsm.expected_alternating_bit, AlternatingBit::One);
}

#[test]
fn calls_to_the_connection_wait_until_it_is_bound() {
    let world = fair_weather();
    let mut fsm = new_fsm(&["NullRat"]);
    offer(&mut fsm, &world, upper(UserEvent::StartHandshake)).result.unwrap();
    offer(&mut fsm, &world, peer(null_rat_hello("valid"))).result.unwrap();
    offer(&mut fsm, &world, from_verifier(RatIcm::OK)).result.unwrap();
    offer(&mut fsm, &world, from_prover(RatIcm::OK)).result.unwrap();

    let first = offer(&mut fsm, &world, peer(create_idscp_data(Vec::from("one"), &AlternatingBit::Zero)));
    assert_eq!(first.actions, vec![Action::Send(create_idscp_ack(AlternatingBit::Zero))]);
    let second = offer(&mut fsm, &world, peer(create_idscp_data(Vec::from("two"), &AlternatingBit::One)));
    assert_eq!(second.actions, vec![Action::Send(create_idscp_ack(AlternatingBit::One))]);
    assert_eq!(fsm.parked.len(), 2);

    let released = fsm.set_connection(Some(3));
    assert_eq!(released, vec![Action::OnMessage(Vec::from("one")), Action::OnMessage(Vec::from("two"))]);
    assert!(fsm.connection_available);
    assert_eq!(fsm.idscp_connection, Some(3));
    assert!(fsm.parked.is_empty());

    let third = offer(&mut fsm, &world, peer(create_idscp_data(Vec::from("three"), &AlternatingBit::Zero)));
    assert_eq!(
        third.actions,
        vec![Action::Send(create_idscp_ack(AlternatingBit::Zero)), Action::OnMessage(Vec::from("three"))]
    );
}

#[test]
fn calls_to_a_connection_that_was_declined_are_dropped() {
    let world = fair_weather();
    let mut fsm = new_fsm(&["NullRat"]);
    offer(&mut fsm, &world, upper(UserEvent::StartHandshake)).result.unwrap();
    offer(&mut fsm, &world, peer(null_rat_hello("valid"))).result.unwrap();
    offer(&mut fsm, &world, from_verifier(RatIcm::OK)).result.unwrap();
    offer(&mut fsm, &world, from_prover(RatIcm::OK)).result.unwrap();
    offer(&mut fsm, &world, peer(create_idscp_data(Vec::from("one"), &AlternatingBit::Zero))).result.unwrap();

    assert!(fsm.set_connection(None).is_empty());
    assert!(fsm.connection_available);
    assert_eq!(fsm.idscp_connection, None);
    let next = offer(&mut fsm, &world, peer(create_idscp_data(Vec::from("two"), &AlternatingBit::One)));
    assert_eq!(next.actions, vec![Action::Send(create_idscp_ack(AlternatingBit::One))]);
    let closed = offer(&mut fsm, &world, peer(create_idscp_close(CloseCause::Error, "")));
    assert_eq!(closed.actions[closed.actions.len() - 2..], close_all()[..]);
    assert!(!closed.actions.contains(&Action::OnClose));
}

#[test]
fn a_close_of_the_peer_is_told_to_the_connection_but_a_stop_is_not() {
    let world = fair_weather();
    let mut fsm = established();
    let closed = offer(&mut fsm, &world, peer(create_idscp_close(CloseCause::UserShutdown, "bye")));
    assert_eq!(closed.result, Ok(()));
    assert_eq!(
        closed.actions,
        vec![
            Action::StopDriver { role: RatRole::Prover, session: 0 },
            Action::StopDriver { role: RatRole::Verifier, session: 0 },
            Action::UnlockChannel,
            Action::StopChannel,
            Action::OnClose,
        ]
    );
    assert_eq!(fsm.current_state, locked());
    assert_eq!(fsm.handshake_result, HandshakeResult::Successful);

    let mut fsm = established();
    let stopped = offer(&mut fsm, &world, upper(UserEvent::Stop));
    assert_eq!(stopped.result, Ok(()));
    assert_eq!(
        stopped.actions,
        vec![
            Action::Send(create_idscp_close(CloseCause::UserShutdown, "User shutdown")),
            Action::StopDriver { role: RatRole::Prover, session: 0 },
            Action::StopDriver { role: RatRole::Verifier, session: 0 },
            Action::UnlockChannel,
            Action::StopChannel,
        ]
    );
    assert_eq!(fsm.current_state, locked());
    assert!(!fsm.handshake_timer.armed && !fsm.dat_timer.armed && !fsm.rat_timer.armed);
    assert!(!fsm.prover_timer.armed && !fsm.verifier_timer.armed && !fsm.ack_timer.armed);
}

#[test]
fn stop_locks_every_started_state() {
    let world = fair_weather();
    let states = [
        FsmState::WaitForHello,
        FsmState::WaitForRat,
        FsmState::WaitForRatProver,
        FsmState::WaitForRatVerifier,
        FsmState::WaitForDatAndRat,
        FsmState::WaitForDatAndRatVerifier,
        FsmState::WaitForAck,
        FsmState::Established,
    ];
    for state in states {
        let mut fsm = established();
        fsm.current_state = state;
        let stopped = offer(&mut fsm, &world, upper(UserEvent::Stop));
        assert_eq!(stopped.result, Ok(()));
        assert_eq!(fsm.current_state, locked());
    }
    let mut fsm = new_fsm(&["NullRat"]);
    offer(&mut fsm, &world, upper(UserEvent::StartHandshake)).result.unwrap();
    let stopped = offer(&mut fsm, &world, upper(UserEvent::Stop));
    assert_eq!(stopped.result, Ok(()));
    assert_eq!(fsm.current_state, locked());
    assert_eq!(fsm.handshake_result, HandshakeResult::Failed);
}

#[test]
fn an_unanswered_question_leaves_the_machine_untouched() {
    let mut fsm = new_fsm(&["NullRat"]);
    let before = format!("{:?}", fsm);
    let event = upper(UserEvent::StartHandshake);
    let mut answers = Answers::none();
    assert_eq!(fsm.process_event(&event, &answers), Step::Ask(Request::GetToken));
    assert_eq!(format!("{:?}", fsm), before);
    answers.token = Some(Vec::from("valid"));
    assert_eq!(fsm.process_event(&event, &answers), Step::Ask(Request::Send(null_rat_hello("valid"))));
    assert_eq!(format!("{:?}", fsm), before);
    answers.sent = Some(true);
    assert!(matches!(fsm.process_event(&event, &answers), Step::Done { result: Ok(()), .. }));
    assert_eq!(fsm.current_state, FsmState::WaitForHello);

    // a timer that goes off stays armed while its event waits for an answer
    let mut fsm = established();
    let world = fair_weather();
    offer(&mut fsm, &world, upper(UserEvent::Data(vec![9]))).result.unwrap();
    let before = format!("{:?}", fsm);
    let step = fsm.timer_expired(TimerId::Ack, 1, &Answers::none());
    assert_eq!(step, Some(Step::Ask(Request::Send(create_idscp_data(vec![9], &AlternatingBit::Zero)))));
    assert_eq!(format!("{:?}", fsm), before);
}

#[test]
fn feed_user_event_offers_the_command() {
    let mut fsm = new_fsm(&["NullRat"]);
    let step = fsm.feed_user_event(UserEvent::Stop, &Answers::none());
    assert_eq!(step, Step::Done { result: Err(FsmError::FsmNotStarted), actions: vec![] });
    let step = fsm.feed_user_event(UserEvent::StartHandshake, &Answers::none());
    assert_eq!(step, Step::Ask(Request::GetToken));
}

#[test]
fn every_error_has_its_input() {
    let world = fair_weather();

    let mut fsm = established();
    assert_eq!(offer(&mut fsm, &world, FsmEvent::HandshakeTimeout).result, Err(FsmError::UnknownTransition));
    assert_eq!(fsm.current_state, FsmState::Established);

    let mut fsm = new_fsm(&["NullRat"]);
    for event in [UserEvent::Stop, UserEvent::RepeatRat, UserEvent::Data(vec![])] {
        assert_eq!(offer(&mut fsm, &world, upper(event)).result, Err(FsmError::FsmNotStarted));
    }
    assert_eq!(offer(&mut fsm, &world, FsmEvent::DatTimeout).result, Err(FsmError::UnknownTransition));
    assert_eq!(fsm.current_state, FsmState::Closed(ClosedStateStatus::Unlocked));

    offer(&mut fsm, &world, upper(UserEvent::StartHandshake)).result.unwrap();
    assert_eq!(offer(&mut fsm, &world, upper(UserEvent::Data(vec![]))).result, Err(FsmError::NotConnected));
    assert_eq!(offer(&mut fsm, &world, upper(UserEvent::RepeatRat)).result, Ok(()));
    assert_eq!(fsm.current_state, FsmState::WaitForHello);

    // a hello without a token
    let hello =
        IdscpMessage::Hello { dat: None, expected_rat_suite: suite(&["NullRat"]), supported_rat_suite: suite(&["NullRat"]) };
    let refused = offer(&mut fsm, &world, peer(hello));
    assert_eq!(refused.result, Err(FsmError::MissingDat));
    assert_eq!(refused.actions[0], Action::Send(create_idscp_close(CloseCause::NoValidDat, "No valid dat")));
    assert_eq!(fsm.current_state, locked());
    assert_eq!(offer(&mut fsm, &world, upper(UserEvent::StartHandshake)).result, Err(FsmError::FsmLocked));

    // a hello with a token that the token service turns down
    let mut fsm = new_fsm(&["NullRat"]);
    offer(&mut fsm, &world, upper(UserEvent::StartHandshake)).result.unwrap();
    let refused = offer(&mut fsm, &world, peer(null_rat_hello("invalid")));
    assert_eq!(refused.result, Err(FsmError::InvalidDat));
    assert_eq!(refused.asked, vec![Request::VerifyToken(Vec::from("invalid"))]);
    assert_eq!(refused.actions[0], Action::Send(create_idscp_close(CloseCause::NoValidDat, "No valid dat")));
    assert_eq!(fsm.current_state, locked());

    // a channel that does not take the hello
    let storm = World { token: Vec::from("valid"), channel_up: false, workers_up: true };
    let mut fsm = new_fsm(&["NullRat"]);
    let failed = offer(&mut fsm, &storm, upper(UserEvent::StartHandshake));
    assert_eq!(failed.result, Err(FsmError::IoError));
    assert_eq!(fsm.current_state, locked());
    assert_eq!(
        failed.actions,
        vec![
            Action::UnlockChannel,
            Action::UnlockChannel,
            Action::StopChannel,
            Action::Publish(HandshakeResult::Failed)
        ]
    );

    // the negotiated mechanism is not registered
    let mut fsm = new_fsm(&[]);
    offer(&mut fsm, &world, upper(UserEvent::StartHandshake)).result.unwrap();
    assert_eq!(
        offer(&mut fsm, &world, peer(null_rat_hello("valid"))).result,
        Err(FsmError::RatError(RatError::UnknownRatDriver))
    );
    assert_eq!(fsm.current_state, locked());

    // the peer asks for an attestation that was never made
    let mut fsm = new_fsm(&["NullRat"]);
    fsm.current_state = FsmState::Established;
    assert_eq!(
        offer(&mut fsm, &world, peer(create_idscp_re_rat("again"))).result,
        Err(FsmError::RatError(RatError::RatDriverNotCached))
    );
    assert_eq!(fsm.current_state, locked());

    // bytes for a verifier that does not run
    let mut fsm = new_fsm(&["NullRat"]);
    fsm.current_state = FsmState::WaitForRat;
    let failed = offer(&mut fsm, &world, peer(create_idscp_rat_prover(vec![1, 2])));
    assert_eq!(failed.result, Err(FsmError::RatError(RatError::RatDriverInactive)));
    assert!(failed.asked.is_empty());
    assert_eq!(fsm.current_state, locked());

    // bytes for a prover whose channel is gone
    let deaf = World { token: Vec::from("valid"), channel_up: true, workers_up: false };
    let mut fsm = new_fsm(&["NullRat"]);
    offer(&mut fsm, &world, upper(UserEvent::StartHandshake)).result.unwrap();
    offer(&mut fsm, &world, peer(null_rat_hello("valid"))).result.unwrap();
    let failed = offer(&mut fsm, &deaf, peer(create_idscp_rat_verifier(vec![1, 2])));
    assert_eq!(failed.result, Err(FsmError::RatError(RatError::RatConnectionAborted)));
    assert_eq!(failed.asked, vec![Request::WriteToDriver { role: RatRole::Prover, data: vec![1, 2] }]);
    assert_eq!(fsm.current_state, locked());

    // data while a message waits for its acknowledgement
    let mut fsm = established();
    offer(&mut fsm, &world, upper(UserEvent::Data(vec![1]))).result.unwrap();
    let blocked = offer(&mut fsm, &world, upper(UserEvent::Data(vec![2])));
    assert_eq!(blocked.result, Err(FsmError::WouldBlock));
    assert_eq!(fsm.current_state, FsmState::WaitForAck);
    assert_eq!(fsm.ack_flag, AckFlag::Active(vec![1]));
}

#[test]
fn attestation_bytes_are_bridged_both_ways() {
    let world = fair_weather();
    let mut fsm = new_fsm(&["NullRat"]);
    offer(&mut fsm, &world, upper(UserEvent::StartHandshake)).result.unwrap();
    offer(&mut fsm, &world, peer(null_rat_hello("valid"))).result.unwrap();

    let out = offer(&mut fsm, &world, FsmEvent::FromRatProver(RatMessage::RawData(vec![1])));
    assert_eq!(out.asked, vec![Request::Send(create_idscp_rat_prover(vec![1]))]);
    let out = offer(&mut fsm, &world, FsmEvent::FromRatVerifier(RatMessage::RawData(vec![2])));
    assert_eq!(out.asked, vec![Request::Send(create_idscp_rat_verifier(vec![2]))]);
    let into = offer(&mut fsm, &world, peer(create_idscp_rat_prover(vec![3])));
    assert_eq!(into.asked, vec![Request::WriteToDriver { role: RatRole::Verifier, data: vec![3] }]);
    let into = offer(&mut fsm, &world, peer(create_idscp_rat_verifier(vec![4])));
    assert_eq!(into.asked, vec![Request::WriteToDriver { role: RatRole::Prover, data: vec![4] }]);
    assert_eq!(fsm.current_state, FsmState::WaitForRat);
}

#[test]
fn a_failed_attestation_closes_with_its_cause() {
    let world = fair_weather();
    let mut fsm = new_fsm(&["NullRat"]);
    offer(&mut fsm, &world, upper(UserEvent::StartHandshake)).result.unwrap();
    offer(&mut fsm, &world, peer(null_rat_hello("valid"))).result.unwrap();
    let failed = offer(&mut fsm, &world, from_prover(RatIcm::Failed));
    assert_eq!(failed.result, Ok(()));
    assert_eq!(failed.actions[0], Action::Send(create_idscp_close(CloseCause::RatProverFailed, "RatProver failed")));
    assert_eq!(fsm.current_state, locked());

    let mut fsm = new_fsm(&["NullRat"]);
    offer(&mut fsm, &world, upper(UserEvent::StartHandshake)).result.unwrap();
    offer(&mut fsm, &world, peer(null_rat_hello("valid"))).result.unwrap();
    let failed = offer(&mut fsm, &world, from_verifier(RatIcm::Failed));
    assert_eq!(
        failed.actions[0],
        Action::Send(create_idscp_close(CloseCause::RatVerifierFailed, "RatVerifier failed"))
    );
    assert_eq!(fsm.current_state, locked());
}

#[test]
fn re_attestation_keeps_the_pending_message() {
    let world = fair_weather();
    let mut fsm = established();
    offer(&mut fsm, &world, upper(UserEvent::Data(Vec::from("A")))).result.unwrap();

    let again = offer(&mut fsm, &world, upper(UserEvent::RepeatRat));
    assert_eq!(again.asked, vec![Request::Send(create_idscp_re_rat(""))]);
    assert_eq!(fsm.current_state, FsmState::WaitForRatVerifier);
    assert_eq!(fsm.ack_flag, AckFlag::Active(Vec::from("A")));
    assert!(!fsm.ack_timer.armed);
    assert!(fsm.verifier_timer.armed);

    let verified = offer(&mut fsm, &world, from_verifier(RatIcm::OK));
    assert_eq!(fsm.current_state, FsmState::WaitForAck);
    assert!(fsm.ack_timer.armed);
    assert_eq!(
        verified.actions,
        vec![
            Action::StartTimer { timer: TimerId::Rat, ticket: 2, delay: RAT },
            Action::StartTimer { timer: TimerId::Ack, ticket: 2, delay: ACK },
        ]
    );
}

#[test]
fn the_peer_asks_for_a_new_token_and_a_new_attestation() {
    let world = fair_weather();
    let mut fsm = established();
    let expired = offer(&mut fsm, &world, peer(create_idscp_dat_exp()));
    assert_eq!(expired.asked, vec![Request::GetToken, Request::Send(create_idscp_dat(Vec::from("valid")))]);
    assert_eq!(
        expired.actions,
        vec![
            Action::StopDriver { role: RatRole::Prover, session: 0 },
            Action::LaunchDriver { role: RatRole::Prover, driver: "NullRat".to_string(), session: 1 },
            Action::StartTimer { timer: TimerId::Prover, ticket: 2, delay: HANDSHAKE },
        ]
    );
    assert_eq!(fsm.current_state, FsmState::WaitForRatProver);

    let asked = offer(&mut fsm, &world, peer(create_idscp_re_rat("why not")));
    assert!(asked.asked.is_empty());
    assert_eq!(fsm.current_state, FsmState::WaitForRatProver);
    assert_eq!(fsm.rat_prover.content.unwrap().session, 2);
}

#[test]
fn messages_of_a_stopped_worker_go_nowhere() {
    let world = fair_weather();
    let mut fsm = new_fsm(&["NullRat"]);
    offer(&mut fsm, &world, upper(UserEvent::StartHandshake)).result.unwrap();
    offer(&mut fsm, &world, peer(null_rat_hello("valid"))).result.unwrap();

    // a listener that is not the current one
    let answers = Answers::none();
    assert_eq!(
        fsm.feed_driver_message(RatRole::Prover, 5, RatMessage::ControlMessage(RatIcm::OK), &answers),
        None
    );
    assert_eq!(fsm.current_state, FsmState::WaitForRat);

    // the current listener
    let step = fsm.feed_driver_message(RatRole::Prover, 0, RatMessage::ControlMessage(RatIcm::OK), &answers);
    assert_eq!(step, Some(Step::Done { result: Ok(()), actions: vec![] }));
    assert_eq!(fsm.current_state, FsmState::WaitForRatVerifier);

    // after the stop nothing is accepted for either role
    offer(&mut fsm, &world, upper(UserEvent::Stop)).result.unwrap();
    for role in [RatRole::Prover, RatRole::Verifier] {
        for session in 0..3 {
            assert_eq!(fsm.feed_driver_message(role, session, RatMessage::RawData(vec![]), &answers), None);
        }
    }

    let mut fsm = established();
    fsm.on_driver_stop(RatRole::Verifier, 9);
    assert!(fsm.rat_verifier.is_active());
    fsm.on_driver_stop(RatRole::Verifier, 0);
    assert!(!fsm.rat_verifier.is_active());
    assert!(fsm.rat_prover.is_active());
}

#[test]
fn timer_tickets() {
    let mut timer = StaticTimer::new(Duration::from_millis(10));
    assert!(!timer.armed);
    assert_eq!(timer.generation, 0);
    assert!(!timer.expire(0));

    let first = timer.start();
    assert_eq!(first, 1);
    assert!(timer.armed);
    let second = timer.start();
    assert_eq!(second, 2);
    // the second start supersedes the first
    assert!(!timer.expire(first));
    assert!(timer.armed);
    assert!(timer.expire(second));
    assert!(!timer.armed);
    assert!(!timer.expire(second));

    let third = timer.start();
    timer.cancel();
    assert!(!timer.expire(third));
    timer.cancel();
    assert!(!timer.armed);
    assert_eq!(timer.generation, 3);

    timer.generation = u64::MAX;
    assert_eq!(timer.start(), 0);

    let mut timer = DynamicTimer::new();
    assert!(!timer.expire(0));
    let first = timer.start();
    let second = timer.start();
    assert_eq!((first, second), (1, 2));
    assert!(!timer.expire(first));
    assert!(timer.expire(second));
    assert!(!timer.expire(second));
    timer.start();
    timer.cancel();
    assert!(!timer.expire(3));
    timer.generation = u64::MAX;
    assert_eq!(timer.start(), 0);
}

#[test]
fn the_timers_of_the_workers_report_a_handshake_timeout() {
    let world = fair_weather();
    for timer in [TimerId::Prover, TimerId::Verifier] {
        let mut fsm = new_fsm(&["NullRat"]);
        offer(&mut fsm, &world, upper(UserEvent::StartHandshake)).result.unwrap();
        offer(&mut fsm, &world, peer(null_rat_hello("valid"))).result.unwrap();
        // the handshake timer was cancelled by the hello
        assert!(expire(&mut fsm, &world, TimerId::Handshake, 1).is_none());
        let expired = expire(&mut fsm, &world, timer, 1).unwrap();
        assert_eq!(expired.result, Ok(()));
        assert_eq!(expired.actions[0], Action::Send(create_idscp_close(CloseCause::Timeout, "Handshake timeout")));
        assert_eq!(fsm.current_state, locked());
    }
    let mut fsm = established();
    let ticket = fsm.rat_timer.generation;
    let expired = expire(&mut fsm, &world, TimerId::Rat, ticket).unwrap();
    assert_eq!(expired.asked, vec![Request::Send(create_idscp_re_rat(""))]);
    assert_eq!(fsm.current_state, FsmState::WaitForRatVerifier);
}

#[test]
fn alternating_bit_arithmetic() {
    assert_eq!(AlternatingBit::new(), AlternatingBit::Zero);
    assert_eq!(AlternatingBit::from_bool(false), AlternatingBit::Zero);
    assert_eq!(AlternatingBit::from_bool(true), AlternatingBit::One);
    assert!(!AlternatingBit::Zero.as_bool());
    assert!(AlternatingBit::One.as_bool());
    let mut bit = AlternatingBit::new();
    bit.alternate();
    assert_eq!(bit, AlternatingBit::One);
    bit.alternate();
    assert_eq!(bit, AlternatingBit::Zero);
}

#[test]
fn negotiation_follows_the_primary_list() {
    let primary = suite(&["C", "B", "A"]);
    let secondary = suite(&["A", "B"]);
    assert_eq!(FiniteStateMachine::calculate_rat_algorithms(&primary, &secondary), Ok("B".to_string()));
    assert_eq!(FiniteStateMachine::calculate_rat_algorithms(&secondary, &primary), Ok("A".to_string()));
    assert_eq!(
        FiniteStateMachine::calculate_rat_algorithms(&primary, &[]),
        Err(RatNegotiationError::NoRatMechanismMatch)
    );
    assert_eq!(
        FiniteStateMachine::calculate_rat_algorithms(&[], &secondary),
        Err(RatNegotiationError::NoRatMechanismMatch)
    );
    // the prover follows the peer's expectations, the verifier this endpoint's own
    assert_eq!(FiniteStateMachine::calculate_rat_prover_mechanism(&primary, &secondary), Ok("B".to_string()));
    assert_eq!(FiniteStateMachine::calculate_rat_verifier_mechanism(&primary, &secondary), Ok("A".to_string()));
    assert_eq!(
        FiniteStateMachine::calculate_rat_prover_mechanism(&[], &secondary),
        Err(RatNegotiationError::NoRatMechanismMatch)
    );
    assert_eq!(
        FiniteStateMachine::calculate_rat_verifier_mechanism(&primary, &[]),
        Err(RatNegotiationError::NoRatMechanismMatch)
    );
}

#[test]
fn the_table_by_event_and_by_state() {
    assert_eq!(lookup(locked(), EventKind::StartHandshake), Handler::Locked);
    assert_eq!(
        lookup(FsmState::Closed(ClosedStateStatus::Unlocked), EventKind::StartHandshake),
        Handler::StartHandshake
    );
    assert_eq!(lookup(FsmState::WaitForHello, EventKind::PeerHello), Handler::Hello);
    assert_eq!(lookup(FsmState::WaitForRat, EventKind::PeerHello), Handler::Unknown);
    assert_eq!(lookup(FsmState::Established, EventKind::PeerAck), Handler::Unknown);
    assert_eq!(lookup(FsmState::WaitForAck, EventKind::PeerAck), Handler::RecvAck);
    assert_eq!(
        lookup(FsmState::WaitForAck, EventKind::DatTimeout),
        Handler::DatTimeout(FsmState::WaitForDatAndRatVerifier)
    );
    assert_eq!(
        lookup(FsmState::WaitForDatAndRatVerifier, EventKind::PeerDat),
        Handler::Dat(FsmState::WaitForRatVerifier)
    );
    assert_eq!(peer(create_idscp_dat_exp()).kind(), EventKind::PeerDatExpired);
    assert_eq!(upper(UserEvent::Data(vec![1, 2])).bytes(), vec![1, 2]);
    assert!(peer(create_idscp_ack(AlternatingBit::One)).bit());
    assert_eq!(
        RatRole::Verifier.create_event(RatMessage::RawData(vec![7])),
        FsmEvent::FromRatVerifier(RatMessage::RawData(vec![7]))
    );
    assert_eq!(
        RatRole::Prover.create_event(RatMessage::ControlMessage(RatIcm::Failed)),
        FsmEvent::FromRatProver(RatMessage::ControlMessage(RatIcm::Failed))
    );
}
