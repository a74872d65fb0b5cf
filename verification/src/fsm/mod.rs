//! The finite state machine of a session.

pub mod action;
pub mod alternating_bit;
pub mod event;
pub mod fsm_timer;
pub mod laws;
pub mod model;
pub mod negotiation;
pub mod rat_interface;
pub mod soundness;
pub mod table;

use crate::drivers::rat_driver::{RatMessage, RatRegistry, RatRole};
use crate::fsm::action::{actions_view, Action, ActionView, Answers, Request, Step};
use crate::fsm::alternating_bit::AlternatingBit;
use crate::fsm::event::{FsmEvent, SecureChannelEvent};
use crate::fsm::fsm_timer::{DynamicTimer, StaticTimer, TimerId};
use crate::fsm::model::{lemma_request_ignores_timers, Attempt, FsmView};
use crate::fsm::rat_interface::{RatDriverInterface, RatError};
use crate::fsm::table::{lookup, table, Handler};
use crate::messages::{
    clone_bytes, create_close_for, create_idscp_ack, create_idscp_dat, create_idscp_dat_exp, create_idscp_data,
    create_idscp_hello, create_idscp_rat_prover, create_idscp_rat_verifier, create_idscp_re_rat,
    CloseCause, IdscpMessage,
};
use openssl::x509::X509;
use std::time::Duration;
use vstd::prelude::*;

verus! {

/// A command of the upper layer.
#[derive(Clone, Debug, PartialEq, Eq)]
pub enum UserEvent {
    StartHandshake,
    Stop,
    RepeatRat,
    Data(Vec<u8>),
}

/// Whether a closed machine may still be started.
#[derive(Clone, Copy, Debug, PartialEq, Eq, Structural)]
pub enum ClosedStateStatus {
    Locked,
    Unlocked,
}

/// The states of a session.
#[derive(Clone, Copy, Debug, PartialEq, Eq, Structural)]
pub enum FsmState {
    Closed(ClosedStateStatus),
    WaitForHello,
    WaitForRat,
    WaitForRatProver,
    WaitForRatVerifier,
    WaitForDatAndRat,
    WaitForDatAndRatVerifier,
    WaitForAck,
    Established,
}

/// How the handshake ended, once it has.
#[derive(Clone, Copy, Debug, PartialEq, Eq, Structural)]
pub enum HandshakeResult {
    NotAvailable,
    Failed,
    Successful,
}

/// The application message that still waits for its acknowledgement, if any.
#[derive(Clone, Debug, PartialEq, Eq)]
pub enum AckFlag {
    Active(Vec<u8>),
    Inactive,
}

#[derive(Clone, Copy, Debug, PartialEq, Eq, Structural)]
pub enum RatNegotiationError {
    NoRatMechanismMatch,
}

#[derive(Clone, Copy, Debug, PartialEq, Eq, Structural)]
pub enum FsmError {
    UnknownTransition,
    FsmLocked,
    FsmNotStarted,
    MissingDat,
    InvalidDat,
    IoError,
    RatError(RatError),
    RatNegotiationError(RatNegotiationError),
    WouldBlock,
    NotConnected,
    IdscpDataNotCached,
}

/// Which attestation mechanisms this endpoint expects of its peer and
/// supports itself, and how long an attestation of the peer stays good.
#[derive(Debug, PartialEq, Eq)]
pub struct AttestationConfig {
    pub expected_attestation_suite: Vec<String>,
    pub supported_attestation_suite: Vec<String>,
    pub rat_timeout: Duration,
}

/// The state machine of one session.
///
/// The machine is a plain value: it holds no thread, channel or clock. Its
/// owner serialises the calls, puts every event to it through one of the
/// entry points (`process_event`, `feed_user_event`, `timer_expired`,
/// `feed_driver_message`), answers the questions that come back and carries
/// out the actions of each transition before it offers the next event.
#[derive(Debug)]
pub struct FiniteStateMachine {
    pub rat_prover: RatDriverInterface,
    pub rat_verifier: RatDriverInterface,
    pub current_state: FsmState,
    pub handshake_timer: StaticTimer,
    pub prover_timer: StaticTimer,
    pub verifier_timer: StaticTimer,
    pub rat_timer: StaticTimer,
    pub ack_timer: StaticTimer,
    pub dat_timer: DynamicTimer,
    pub prover_registry: RatRegistry,
    pub verifier_registry: RatRegistry,
    /// The connection that the upper layer has bound, by the handle it chose.
    pub idscp_connection: Option<u64>,
    /// Whether the upper layer has bound a connection or declined to.
    pub connection_available: bool,
    /// Calls to the connection that wait for it to become available.
    pub parked: Vec<Action>,
    /// The result of the handshake as it was published.
    pub handshake_result: HandshakeResult,
    pub rat_config: AttestationConfig,
    pub ack_flag: AckFlag,
    pub expected_alternating_bit: AlternatingBit,
    pub next_send_alternating_bit: AlternatingBit,
    /// The actions of the transition that is being made; empty between two
    /// transitions.
    pub outbox: Vec<Action>,
}

/// The view of a request that may not be there.
pub open spec fn request_view(request: Option<Request>) -> Option<crate::fsm::action::RequestView> {
    match request {
        Some(r) => Some(r@),
        None => None,
    }
}

/// The views of two mechanisms that may not be there.
pub open spec fn mechanisms_view(mechanisms: Option<(String, String)>) -> Option<(Seq<char>, Seq<char>)> {
    match mechanisms {
        Some((prover, verifier)) => Some((prover@, verifier@)),
        None => None,
    }
}

impl FiniteStateMachine {
    /// A machine for a new session: closed, not locked, ready to be started.
    pub fn create(
        prover_cert: X509,
        verifier_cert: X509,
        prover_registry: RatRegistry,
        verifier_registry: RatRegistry,
        handshake_timeout: Duration,
        ack_timeout: Duration,
        rat_config: AttestationConfig,
    ) -> (fsm: FiniteStateMachine)
        ensures
            fsm@ == FsmView::initial(
                prover_cert,
                verifier_cert,
                prover_registry@,
                verifier_registry@,
                handshake_timeout,
                ack_timeout,
                rat_config@,
            ),
    {
        let rat_timeout = rat_config.rat_timeout;
        let fsm = FiniteStateMachine {
            rat_prover: RatDriverInterface::create(RatRole::Prover, prover_cert),
            rat_verifier: RatDriverInterface::create(RatRole::Verifier, verifier_cert),
            current_state: FsmState::Closed(ClosedStateStatus::Unlocked),
            handshake_timer: StaticTimer::new(handshake_timeout),
            prover_timer: StaticTimer::new(handshake_timeout),
            verifier_timer: StaticTimer::new(handshake_timeout),
            rat_timer: StaticTimer::new(rat_timeout),
            ack_timer: StaticTimer::new(ack_timeout),
            dat_timer: DynamicTimer::new(),
            prover_registry,
            verifier_registry,
            idscp_connection: None,
            connection_available: false,
            parked: Vec::new(),
            handshake_result: HandshakeResult::NotAvailable,
            rat_config,
            ack_flag: AckFlag::Inactive,
            expected_alternating_bit: AlternatingBit::new(),
            next_send_alternating_bit: AlternatingBit::new(),
            outbox: Vec::new(),
        };
        proof {
            assert(actions_view(fsm.parked@) =~= Seq::<ActionView>::empty());
            assert(actions_view(fsm.outbox@) =~= Seq::<ActionView>::empty());
        }
        fsm
    }

    /// The upper layer binds a connection, or declines to with `None`. From
    /// now on calls to the connection go out at once; those that waited are
    /// returned, to be made in order.
    pub fn set_connection(&mut self, connection: Option<u64>) -> (released: Vec<Action>)
        ensures
            final(self)@ == old(self)@.set_connection(connection),
            actions_view(released@) == old(self)@.released(connection),
    {
        match connection {
            Some(handle) => {
                self.idscp_connection = Some(handle);
            },
            None => {},
        }
        self.connection_available = true;
        let mut released: Vec<Action> = Vec::new();
        core::mem::swap(&mut released, &mut self.parked);
        proof {
            assert(actions_view(self.parked@) =~= Seq::<ActionView>::empty());
        }
        if self.idscp_connection.is_none() {
            released = Vec::new();
            proof {
                assert(actions_view(released@) =~= Seq::<ActionView>::empty());
            }
        }
        released
    }

    /// Offers a command of the upper layer.
    pub fn feed_user_event(&mut self, e: UserEvent, answers: &Answers) -> (step: Step)
        ensures
            final(self)@ == old(self)@.process_event(crate::fsm::event::EventView::FromUpper(e@), answers@).fsm,
            step@ == old(self)@.process_event(crate::fsm::event::EventView::FromUpper(e@), answers@).step,
    {
        let event = FsmEvent::FromUpper(e);
        self.process_event(&event, answers)
    }

    pub fn is_closed(&self) -> (closed: bool)
        ensures
            closed == self@.is_closed(),
    {
        match self.current_state {
            FsmState::Closed(_) => true,
            _ => false,
        }
    }

    pub fn is_connected(&self) -> (connected: bool)
        ensures
            connected == self@.is_connected(),
    {
        match self.current_state {
            FsmState::Established => true,
            FsmState::WaitForAck => true,
            _ => false,
        }
    }

    /// Whether the result of the handshake has been published.
    pub fn handshake_result_available(&self) -> (available: bool)
        ensures
            available == self@.handshake_result_available(),
    {
        match self.handshake_result {
            HandshakeResult::NotAvailable => false,
            _ => true,
        }
    }

    /// Offers an event with the answers collected for it so far.
    ///
    /// Where the transition needs an answer that is not there, the machine
    /// stays untouched and the step asks for it. Else the transition is made:
    /// a failure of its guarded action ends the session, the handshake result
    /// is published when the machine is first established or locked, and the
    /// step hands over the result and the actions to carry out.
    pub fn process_event(&mut self, event: &FsmEvent, answers: &Answers) -> (step: Step)
        ensures
            final(self)@ == old(self)@.process_event(event@, answers@).fsm,
            step@ == old(self)@.process_event(event@, answers@).step,
    {
        proof {
            reveal(FsmView::process_event);
        }
        let handler = lookup(self.current_state, event.kind());
        match self.pending_request(handler, event, answers) {
            Some(request) => {
                return Step::Ask(request);
            },
            None => {},
        }
        let result = self.transit(handler, event, answers);
        self.set_handshake_result();
        let mut actions: Vec<Action> = Vec::new();
        core::mem::swap(&mut actions, &mut self.outbox);
        proof {
            assert(actions_view(self.outbox@) =~= Seq::<ActionView>::empty());
        }
        Step::Done { result, actions }
    }

    /// Reports the wake-up of a timer. `None` where the ticket is not the one
    /// the timer waits for: the wake-up was cancelled or superseded.
    pub fn timer_expired(&mut self, timer: TimerId, ticket: u64, answers: &Answers) -> (step: Option<Step>)
        ensures
            match old(self)@.timer_expired(timer, ticket, answers@) {
                Some(offer) => step is Some && step->Some_0@ == offer.step && final(self)@ == offer.fsm,
                None => step is None && final(self)@ == old(self)@,
            },
    {
        let pending = match timer {
            TimerId::Handshake => self.handshake_timer.armed && self.handshake_timer.generation == ticket,
            TimerId::Prover => self.prover_timer.armed && self.prover_timer.generation == ticket,
            TimerId::Verifier => self.verifier_timer.armed && self.verifier_timer.generation == ticket,
            TimerId::Rat => self.rat_timer.armed && self.rat_timer.generation == ticket,
            TimerId::Ack => self.ack_timer.armed && self.ack_timer.generation == ticket,
            TimerId::Dat => self.dat_timer.armed && self.dat_timer.generation == ticket,
        };
        if !pending {
            return None;
        }
        let event = match timer {
            TimerId::Handshake => FsmEvent::HandshakeTimeout,
            TimerId::Prover => FsmEvent::HandshakeTimeout,
            TimerId::Verifier => FsmEvent::HandshakeTimeout,
            TimerId::Rat => FsmEvent::RatTimeout,
            TimerId::Ack => FsmEvent::AckTimeout,
            TimerId::Dat => FsmEvent::DatTimeout,
        };
        let handler = lookup(self.current_state, event.kind());
        proof {
            reveal(FsmView::process_event);
            lemma_request_ignores_timers(old(self)@, timer, event@, answers@);
        }
        match self.pending_request(handler, &event, answers) {
            Some(request) => {
                return Some(Step::Ask(request));
            },
            None => {},
        }
        self.cancel_timer(timer);
        Some(self.process_event(&event, answers))
    }

    /// Hands on a message that the listener of `session` has received from
    /// its worker. `None` where that listener is cancelled or not the current
    /// one of its role: the message goes nowhere.
    pub fn feed_driver_message(&mut self, role: RatRole, session: u64, msg: RatMessage, answers: &Answers) -> (step:
        Option<Step>)
        ensures
            match old(self)@.feed_driver_message(role, session, msg@, answers@) {
                Some(offer) => step is Some && step->Some_0@ == offer.step && final(self)@ == offer.fsm,
                None => step is None && final(self)@ == old(self)@,
            },
    {
        let accepted = match role {
            RatRole::Prover => self.rat_prover.accepts(session),
            RatRole::Verifier => self.rat_verifier.accepts(session),
        };
        if !accepted {
            return None;
        }
        let event = role.create_event(msg);
        Some(self.process_event(&event, answers))
    }

    /// The listener of `session` reports that its worker has gone away. The
    /// timer that watches the worker is left as it is: where the worker went
    /// away without a verdict, the timer ends the session when it goes off.
    pub fn on_driver_stop(&mut self, role: RatRole, session: u64)
        ensures
            final(self)@ == old(self)@.on_driver_stop(role, session),
    {
        match role {
            RatRole::Prover => self.rat_prover.on_driver_stop(session),
            RatRole::Verifier => self.rat_verifier.on_driver_stop(session),
        }
    }

    // ------------------------------------------------------------------
    // Small steps
    // ------------------------------------------------------------------
    fn emit(&mut self, action: Action)
        ensures
            final(self)@ == old(self)@.emit(action@),
    {
        crate::fsm::action::emit(&mut self.outbox, action);
    }

    fn send(&mut self, msg: IdscpMessage)
        ensures
            final(self)@ == old(self)@.emit(ActionView::Send(msg@)),
    {
        self.emit(Action::Send(msg));
    }

    fn cancel_timer(&mut self, timer: TimerId)
        ensures
            final(self)@ == old(self)@.cancel(timer),
    {
        match timer {
            TimerId::Handshake => self.handshake_timer.cancel(),
            TimerId::Prover => self.prover_timer.cancel(),
            TimerId::Verifier => self.verifier_timer.cancel(),
            TimerId::Rat => self.rat_timer.cancel(),
            TimerId::Ack => self.ack_timer.cancel(),
            TimerId::Dat => self.dat_timer.cancel(),
        }
    }

    fn start_timer(&mut self, timer: TimerId)
        ensures
            final(self)@ == old(self)@.start(timer),
    {
        match timer {
            TimerId::Handshake => {
                let ticket = self.handshake_timer.start();
                let delay = self.handshake_timer.delay;
                self.emit(Action::StartTimer { timer, ticket, delay });
            },
            TimerId::Prover => {
                let ticket = self.prover_timer.start();
                let delay = self.prover_timer.delay;
                self.emit(Action::StartTimer { timer, ticket, delay });
            },
            TimerId::Verifier => {
                let ticket = self.verifier_timer.start();
                let delay = self.verifier_timer.delay;
                self.emit(Action::StartTimer { timer, ticket, delay });
            },
            TimerId::Rat => {
                let ticket = self.rat_timer.start();
                let delay = self.rat_timer.delay;
                self.emit(Action::StartTimer { timer, ticket, delay });
            },
            TimerId::Ack => {
                let ticket = self.ack_timer.start();
                let delay = self.ack_timer.delay;
                self.emit(Action::StartTimer { timer, ticket, delay });
            },
            TimerId::Dat => {},
        }
    }

    fn start_dat_timer(&mut self, delay: Duration)
        ensures
            final(self)@ == old(self)@.start_dat(delay),
    {
        let ticket = self.dat_timer.start();
        self.emit(Action::StartTimer { timer: TimerId::Dat, ticket, delay });
    }

    fn stop_driver(&mut self, role: RatRole)
        ensures
            final(self)@ == old(self)@.stop_driver(role),
    {
        match role {
            RatRole::Prover => self.rat_prover.stop_driver(&mut self.outbox),
            RatRole::Verifier => self.rat_verifier.stop_driver(&mut self.outbox),
        }
    }

    fn restart_driver(&mut self, role: RatRole) -> (result: Result<(), RatError>)
        ensures
            final(self)@ == old(self)@.restart_driver(role),
            result == old(self)@.interface(role).restart_driver().result,
    {
        match role {
            RatRole::Prover => self.rat_prover.restart_driver(&mut self.outbox),
            RatRole::Verifier => self.rat_verifier.restart_driver(&mut self.outbox),
        }
    }

    fn start_driver(&mut self, role: RatRole, mechanism: &String) -> (result: Result<(), RatError>)
        ensures
            final(self)@ == old(self)@.start_driver(role, mechanism@),
            result == old(self)@.interface(role).start_driver(mechanism@, Some(old(self)@.registry(role))).result,
    {
        match role {
            RatRole::Prover => self.rat_prover.start_driver(
                mechanism,
                Some(&self.prover_registry),
                &mut self.outbox,
            ),
            RatRole::Verifier => self.rat_verifier.start_driver(
                mechanism,
                Some(&self.verifier_registry),
                &mut self.outbox,
            ),
        }
    }

    /// A call to the connection: made at once, parked or dropped.
    fn observe(&mut self, call: Action)
        ensures
            final(self)@ == old(self)@.observe(call@),
    {
        if !self.connection_available {
            crate::fsm::action::emit(&mut self.parked, call);
        } else if self.idscp_connection.is_some() {
            self.emit(call);
        }
    }

    fn notify_connection_about_close(&mut self)
        ensures
            final(self)@ == old(self)@.notify_connection_about_close(),
    {
        if self.handshake_result_available() {
            self.observe(Action::OnClose);
        }
    }

    fn cleanup(&mut self)
        ensures
            final(self)@ == old(self)@.cleanup(),
    {
        self.cancel_timer(TimerId::Handshake);
        self.cancel_timer(TimerId::Dat);
        self.cancel_timer(TimerId::Rat);
        self.cancel_timer(TimerId::Verifier);
        self.cancel_timer(TimerId::Prover);
        self.cancel_timer(TimerId::Ack);
        self.stop_driver(RatRole::Prover);
        self.stop_driver(RatRole::Verifier);
        self.emit(Action::UnlockChannel);
        self.emit(Action::StopChannel);
    }

    /// Publishes the handshake result where it is due.
    fn set_handshake_result(&mut self)
        ensures
            final(self)@ == old(self)@.publish(),
    {
        if !self.handshake_result_available() {
            match self.current_state {
                FsmState::Established => {
                    self.handshake_result = HandshakeResult::Successful;
                    self.emit(Action::Publish(HandshakeResult::Successful));
                },
                FsmState::Closed(ClosedStateStatus::Locked) => {
                    self.handshake_result = HandshakeResult::Failed;
                    self.emit(Action::Publish(HandshakeResult::Failed));
                },
                _ => {},
            }
        }
    }

    fn shut(&mut self)
        ensures
            final(self)@ == old(self)@.shut(),
    {
        self.cleanup();
        self.notify_connection_about_close();
        self.current_state = FsmState::Closed(ClosedStateStatus::Locked);
    }

    fn fail(&mut self, error: FsmError) -> (result: Result<(), FsmError>)
        ensures
            (Attempt { fsm: final(self)@, result }) == old(self)@.fail(error),
    {
        self.shut();
        Err(error)
    }

    fn resume_data_phase(&mut self) -> (result: Result<(), FsmError>)
        ensures
            (Attempt { fsm: final(self)@, result }) == old(self)@.resume_data_phase(),
    {
        match self.ack_flag {
            AckFlag::Inactive => {
                self.current_state = FsmState::Established;
            },
            AckFlag::Active(_) => {
                self.start_timer(TimerId::Ack);
                self.current_state = FsmState::WaitForAck;
            },
        }
        Ok(())
    }

    fn leave_ack_wait(&mut self)
        ensures
            final(self)@ == old(self)@.leave_ack_wait(),
    {
        match self.current_state {
            FsmState::WaitForAck => self.cancel_timer(TimerId::Ack),
            _ => {},
        }
    }

    // ------------------------------------------------------------------
    // The guarded actions
    // ------------------------------------------------------------------
    fn action_start_handshake(&mut self, sent: bool) -> (result: Result<(), FsmError>)
        ensures
            (Attempt { fsm: final(self)@, result }) == old(self)@.action_start_handshake(sent),
    {
        proof {
            reveal(FsmView::action_start_handshake);
        }
        self.emit(Action::UnlockChannel);
        if sent {
            self.start_timer(TimerId::Handshake);
            self.current_state = FsmState::WaitForHello;
            Ok(())
        } else {
            self.fail(FsmError::IoError)
        }
    }

    fn action_stop(&mut self) -> (result: Result<(), FsmError>)
        ensures
            (Attempt { fsm: final(self)@, result }) == old(self)@.action_stop(),
    {
        proof {
            reveal(FsmView::action_stop);
        }
        self.send(create_close_for(CloseCause::UserShutdown));
        self.cleanup();
        self.current_state = FsmState::Closed(ClosedStateStatus::Locked);
        Ok(())
    }

    fn action_close(&mut self) -> (result: Result<(), FsmError>)
        ensures
            (Attempt { fsm: final(self)@, result }) == old(self)@.action_close(),
    {
        proof {
            reveal(FsmView::action_close);
        }
        self.shut();
        Ok(())
    }

    fn handshake_timeout_handler(&mut self) -> (result: Result<(), FsmError>)
        ensures
            (Attempt { fsm: final(self)@, result }) == old(self)@.handshake_timeout_handler(),
    {
        proof {
            reveal(FsmView::handshake_timeout_handler);
        }
        self.send(create_close_for(CloseCause::Timeout));
        self.shut();
        Ok(())
    }

    fn dat_timeout_handler(&mut self, sent: bool, target: FsmState) -> (result: Result<(), FsmError>)
        ensures
            (Attempt { fsm: final(self)@, result }) == old(self)@.dat_timeout_handler(sent, target),
    {
        proof {
            reveal(FsmView::dat_timeout_handler);
        }
        self.stop_driver(RatRole::Verifier);
        self.cancel_timer(TimerId::Rat);
        if sent {
            self.leave_ack_wait();
            self.start_timer(TimerId::Handshake);
            self.current_state = target;
            Ok(())
        } else {
            self.fail(FsmError::IoError)
        }
    }

    fn action_re_rat(&mut self, sent: bool, target: FsmState) -> (result: Result<(), FsmError>)
        ensures
            (Attempt { fsm: final(self)@, result }) == old(self)@.action_re_rat(sent, target),
    {
        proof {
            reveal(FsmView::action_re_rat);
        }
        self.cancel_timer(TimerId::Rat);
        if !sent {
            return self.fail(FsmError::IoError);
        }
        match self.restart_driver(RatRole::Verifier) {
            Err(e) => self.fail(FsmError::RatError(e)),
            Ok(_) => {
                self.start_timer(TimerId::Verifier);
                self.leave_ack_wait();
                self.current_state = target;
                Ok(())
            },
        }
    }

    fn action_recv_re_rat(&mut self, target: FsmState) -> (result: Result<(), FsmError>)
        ensures
            (Attempt { fsm: final(self)@, result }) == old(self)@.action_recv_re_rat(target),
    {
        proof {
            reveal(FsmView::action_recv_re_rat);
        }
        match self.restart_driver(RatRole::Prover) {
            Err(e) => self.fail(FsmError::RatError(e)),
            Ok(_) => {
                self.start_timer(TimerId::Prover);
                self.leave_ack_wait();
                self.current_state = target;
                Ok(())
            },
        }
    }

    fn action_recv_dat_exp(&mut self, sent: bool, target: FsmState) -> (result: Result<(), FsmError>)
        ensures
            (Attempt { fsm: final(self)@, result }) == old(self)@.action_recv_dat_exp(sent, target),
    {
        proof {
            reveal(FsmView::action_recv_dat_exp);
        }
        if !sent {
            self.fail(FsmError::IoError)
        } else {
            self.action_recv_re_rat(target)
        }
    }

    fn refuse_dat(&mut self, error: FsmError) -> (result: Result<(), FsmError>)
        ensures
            (Attempt { fsm: final(self)@, result }) == old(self)@.refuse_dat(error),
    {
        self.send(create_close_for(CloseCause::NoValidDat));
        self.fail(error)
    }

    fn action_recv_dat(&mut self, validity: Option<Duration>, target: FsmState) -> (result: Result<(), FsmError>)
        ensures
            (Attempt { fsm: final(self)@, result }) == old(self)@.action_recv_dat(validity, target),
    {
        proof {
            reveal(FsmView::action_recv_dat);
        }
        self.cancel_timer(TimerId::Handshake);
        match validity {
            None => self.refuse_dat(FsmError::InvalidDat),
            Some(delay) => {
                self.start_dat_timer(delay);
                match self.restart_driver(RatRole::Verifier) {
                    Err(e) => self.fail(FsmError::RatError(e)),
                    Ok(_) => {
                        self.start_timer(TimerId::Verifier);
                        self.current_state = target;
                        Ok(())
                    },
                }
            },
        }
    }

    /// Negotiates both mechanisms from a hello of the peer: the prover's
    /// first, then the verifier's.
    fn negotiate(&self, event: &FsmEvent) -> (mechanisms: Option<(String, String)>)
        ensures
            mechanisms_view(mechanisms) == self@.negotiate(event@),
    {
        match event {
            FsmEvent::FromSecureChannel(
                SecureChannelEvent::Message(IdscpMessage::Hello { expected_rat_suite, supported_rat_suite, .. }),
            ) => {
                let prover = FiniteStateMachine::calculate_rat_prover_mechanism(
                    expected_rat_suite.as_slice(),
                    self.rat_config.supported_attestation_suite.as_slice(),
                );
                let verifier = FiniteStateMachine::calculate_rat_verifier_mechanism(
                    supported_rat_suite.as_slice(),
                    self.rat_config.expected_attestation_suite.as_slice(),
                );
                match (prover, verifier) {
                    (Ok(p), Ok(v)) => Some((p, v)),
                    _ => None,
                }
            },
            _ => None,
        }
    }

    fn action_recv_hello(&mut self, event: &FsmEvent, validity: Option<Duration>) -> (result: Result<(), FsmError>)
        ensures
            (Attempt { fsm: final(self)@, result }) == old(self)@.action_recv_hello(event@, validity),
    {
        proof {
            reveal(FsmView::action_recv_hello);
        }
        let mechanisms = self.negotiate(event);
        self.cancel_timer(TimerId::Handshake);
        let (prover, verifier) = match mechanisms {
            None => {
                self.send(create_close_for(CloseCause::Error));
                return self.fail(FsmError::RatNegotiationError(RatNegotiationError::NoRatMechanismMatch));
            },
            Some(pair) => pair,
        };
        let has_dat = match event {
            FsmEvent::FromSecureChannel(SecureChannelEvent::Message(IdscpMessage::Hello { dat, .. })) => dat.is_some(),
            _ => false,
        };
        if !has_dat {
            return self.refuse_dat(FsmError::MissingDat);
        }
        let delay = match validity {
            None => {
                return self.refuse_dat(FsmError::InvalidDat);
            },
            Some(delay) => delay,
        };
        self.start_dat_timer(delay);
        match self.start_driver(RatRole::Verifier, &verifier) {
            Err(e) => {
                return self.fail(FsmError::RatError(e));
            },
            Ok(_) => {},
        }
        self.start_timer(TimerId::Verifier);
        match self.start_driver(RatRole::Prover, &prover) {
            Err(e) => {
                return self.fail(FsmError::RatError(e));
            },
            Ok(_) => {},
        }
        self.start_timer(TimerId::Prover);
        self.current_state = FsmState::WaitForRat;
        Ok(())
    }

    fn action_rat_prover_ok(&mut self, target: FsmState) -> (result: Result<(), FsmError>)
        ensures
            (Attempt { fsm: final(self)@, result }) == old(self)@.action_rat_prover_ok(target),
    {
        proof {
            reveal(FsmView::action_rat_prover_ok);
        }
        self.cancel_timer(TimerId::Prover);
        self.current_state = target;
        Ok(())
    }

    fn action_rat_prover_done(&mut self) -> (result: Result<(), FsmError>)
        ensures
            (Attempt { fsm: final(self)@, result }) == old(self)@.action_rat_prover_done(),
    {
        proof {
            reveal(FsmView::action_rat_prover_done);
        }
        self.cancel_timer(TimerId::Prover);
        self.resume_data_phase()
    }

    fn action_rat_verifier_ok(&mut self, target: FsmState) -> (result: Result<(), FsmError>)
        ensures
            (Attempt { fsm: final(self)@, result }) == old(self)@.action_rat_verifier_ok(target),
    {
        proof {
            reveal(FsmView::action_rat_verifier_ok);
        }
        self.cancel_timer(TimerId::Verifier);
        self.start_timer(TimerId::Rat);
        self.current_state = target;
        Ok(())
    }

    fn action_rat_verifier_done(&mut self) -> (result: Result<(), FsmError>)
        ensures
            (Attempt { fsm: final(self)@, result }) == old(self)@.action_rat_verifier_done(),
    {
        proof {
            reveal(FsmView::action_rat_verifier_done);
        }
        self.cancel_timer(TimerId::Verifier);
        self.start_timer(TimerId::Rat);
        self.resume_data_phase()
    }

    fn action_rat_prover_failed(&mut self) -> (result: Result<(), FsmError>)
        ensures
            (Attempt { fsm: final(self)@, result }) == old(self)@.action_rat_prover_failed(),
    {
        proof {
            reveal(FsmView::action_rat_prover_failed);
        }
        self.cancel_timer(TimerId::Prover);
        self.send(create_close_for(CloseCause::RatProverFailed));
        self.shut();
        Ok(())
    }

    fn action_rat_verifier_failed(&mut self) -> (result: Result<(), FsmError>)
        ensures
            (Attempt { fsm: final(self)@, result }) == old(self)@.action_rat_verifier_failed(),
    {
        proof {
            reveal(FsmView::action_rat_verifier_failed);
        }
        self.cancel_timer(TimerId::Verifier);
        self.send(create_close_for(CloseCause::RatVerifierFailed));
        self.shut();
        Ok(())
    }

    /// Bytes of the local prover were handed to the channel for the peer.
    fn action_rat_prover_data(&mut self, sent: bool) -> (result: Result<(), FsmError>)
        ensures
            (Attempt { fsm: final(self)@, result }) == old(self)@.action_rat_data(sent),
    {
        proof {
            reveal(FsmView::action_rat_data);
        }
        if sent {
            Ok(())
        } else {
            self.fail(FsmError::IoError)
        }
    }

    /// Bytes of the local verifier were handed to the channel for the peer.
    fn action_rat_verifier_data(&mut self, sent: bool) -> (result: Result<(), FsmError>)
        ensures
            (Attempt { fsm: final(self)@, result }) == old(self)@.action_rat_data(sent),
    {
        proof {
            reveal(FsmView::action_rat_data);
        }
        if sent {
            Ok(())
        } else {
            self.fail(FsmError::IoError)
        }
    }

    /// Bytes of the peer's prover were handed to the local verifier.
    fn action_delegate_rat_prover(&mut self, written: bool) -> (result: Result<(), FsmError>)
        ensures
            (Attempt { fsm: final(self)@, result }) == old(self)@.action_delegate(RatRole::Verifier, written),
    {
        proof {
            reveal(FsmView::action_delegate);
        }
        match self.rat_verifier.write_to_driver(written) {
            Err(e) => self.fail(FsmError::RatError(e)),
            Ok(_) => Ok(()),
        }
    }

    /// Bytes of the peer's verifier were handed to the local prover.
    fn action_delegate_rat_verifier(&mut self, written: bool) -> (result: Result<(), FsmError>)
        ensures
            (Attempt { fsm: final(self)@, result }) == old(self)@.action_delegate(RatRole::Prover, written),
    {
        proof {
            reveal(FsmView::action_delegate);
        }
        match self.rat_prover.write_to_driver(written) {
            Err(e) => self.fail(FsmError::RatError(e)),
            Ok(_) => Ok(()),
        }
    }

    fn action_send_data(&mut self, payload: Vec<u8>, sent: bool) -> (result: Result<(), FsmError>)
        ensures
            (Attempt { fsm: final(self)@, result }) == old(self)@.action_send_data(payload@, sent),
    {
        proof {
            reveal(FsmView::action_send_data);
        }
        if sent {
            self.ack_flag = AckFlag::Active(payload);
            self.start_timer(TimerId::Ack);
            self.current_state = FsmState::WaitForAck;
            Ok(())
        } else {
            self.fail(FsmError::IoError)
        }
    }

    fn ack_timeout_handler(&mut self, sent: bool) -> (result: Result<(), FsmError>)
        ensures
            (Attempt { fsm: final(self)@, result }) == old(self)@.ack_timeout_handler(sent),
    {
        proof {
            reveal(FsmView::ack_timeout_handler);
        }
        match self.ack_flag {
            AckFlag::Inactive => Err(FsmError::IdscpDataNotCached),
            AckFlag::Active(_) => {
                if sent {
                    self.start_timer(TimerId::Ack);
                    Ok(())
                } else {
                    self.fail(FsmError::IoError)
                }
            },
        }
    }

    fn action_recv_data(&mut self, payload: Vec<u8>, bit: bool) -> (result: Result<(), FsmError>)
        ensures
            (Attempt { fsm: final(self)@, result }) == old(self)@.action_recv_data(payload@, bit),
    {
        proof {
            reveal(FsmView::action_recv_data);
        }
        let recv_alternating_bit = AlternatingBit::from_bool(bit);
        if recv_alternating_bit == self.expected_alternating_bit {
            self.send(create_idscp_ack(recv_alternating_bit));
            self.expected_alternating_bit.alternate();
            self.observe(Action::OnMessage(payload));
        }
        Ok(())
    }

    fn action_recv_ack(&mut self, bit: bool) -> (result: Result<(), FsmError>)
        ensures
            (Attempt { fsm: final(self)@, result }) == old(self)@.action_recv_ack(bit),
    {
        proof {
            reveal(FsmView::action_recv_ack);
        }
        let pending = match self.ack_flag {
            AckFlag::Active(_) => true,
            AckFlag::Inactive => false,
        };
        let acknowledged_alternating_bit = AlternatingBit::from_bool(bit);
        if pending && acknowledged_alternating_bit == self.next_send_alternating_bit {
            self.ack_flag = AckFlag::Inactive;
            self.next_send_alternating_bit.alternate();
            self.cancel_timer(TimerId::Ack);
            match self.current_state {
                FsmState::WaitForAck => {
                    self.current_state = FsmState::Established;
                },
                _ => {},
            }
        }
        Ok(())
    }

    // ------------------------------------------------------------------
    // Questions and transitions
    // ------------------------------------------------------------------
    /// The message whose delivery decides the transition, if it has one.
    fn decisive_message(&self, handler: Handler, event: &FsmEvent, answers: &Answers) -> (msg: Option<IdscpMessage>)
        requires
            handler == table(self@.current_state, event@.kind()),
        ensures
            match self@.decisive_message(event@, crate::fsm::model::own_token(answers@)) {
                Some(view) => msg is Some && msg->Some_0@ == view,
                None => msg is None,
            },
    {
        match handler {
            Handler::StartHandshake => Some(
                create_idscp_hello(
                    own_token(answers),
                    &self.rat_config.expected_attestation_suite,
                    &self.rat_config.supported_attestation_suite,
                ),
            ),
            Handler::DatTimeout(_) => Some(create_idscp_dat_exp()),
            Handler::ReRat(_) => Some(create_idscp_re_rat("")),
            Handler::DatExpired(_) => Some(create_idscp_dat(own_token(answers))),
            Handler::ProverData => Some(create_idscp_rat_prover(event.bytes())),
            Handler::VerifierData => Some(create_idscp_rat_verifier(event.bytes())),
            Handler::SendData => Some(create_idscp_data(event.bytes(), &self.next_send_alternating_bit)),
            Handler::AckTimeout => match &self.ack_flag {
                AckFlag::Active(payload) => Some(
                    create_idscp_data(clone_bytes(payload), &self.next_send_alternating_bit),
                ),
                AckFlag::Inactive => None,
            },
            _ => None,
        }
    }

    /// The question that has to be answered before the event is processed.
    fn pending_request(&self, handler: Handler, event: &FsmEvent, answers: &Answers) -> (request: Option<Request>)
        requires
            handler == table(self@.current_state, event@.kind()),
        ensures
            request_view(request) == self@.request(event@, answers@),
    {
        proof {
            reveal(FsmView::request);
        }
        let needs_token = match handler {
            Handler::StartHandshake => true,
            Handler::DatExpired(_) => true,
            _ => false,
        };
        if needs_token && answers.token.is_none() {
            return Some(Request::GetToken);
        }
        if answers.validity.is_none() {
            match handler {
                Handler::Hello => {
                    if self.negotiate(event).is_some() {
                        match event {
                            FsmEvent::FromSecureChannel(
                                SecureChannelEvent::Message(IdscpMessage::Hello { dat: Some(token), .. }),
                            ) => {
                                return Some(Request::VerifyToken(clone_bytes(token)));
                            },
                            _ => {},
                        }
                    }
                },
                Handler::Dat(_) => {
                    return Some(Request::VerifyToken(event.bytes()));
                },
                _ => {},
            }
        }
        if answers.written.is_none() {
            match handler {
                Handler::DelegateProver => {
                    if self.rat_verifier.is_active() {
                        return Some(Request::WriteToDriver { role: RatRole::Verifier, data: event.bytes() });
                    }
                },
                Handler::DelegateVerifier => {
                    if self.rat_prover.is_active() {
                        return Some(Request::WriteToDriver { role: RatRole::Prover, data: event.bytes() });
                    }
                },
                _ => {},
            }
        }
        if answers.sent.is_none() {
            match self.decisive_message(handler, event, answers) {
                Some(msg) => {
                    return Some(Request::Send(msg));
                },
                None => {},
            }
        }
        None
    }

    /// The guarded action that the table names for the event.
    fn transit(&mut self, handler: Handler, event: &FsmEvent, answers: &Answers) -> (result: Result<(), FsmError>)
        requires
            handler == table(old(self)@.current_state, event@.kind()),
        ensures
            (Attempt { fsm: final(self)@, result }) == old(self)@.transition(event@, answers@),
    {
        proof {
            reveal(FsmView::transition);
        }
        let sent = match answers.sent {
            Some(true) => true,
            _ => false,
        };
        let written = match answers.written {
            Some(true) => true,
            _ => false,
        };
        match handler {
            Handler::Locked => Err(FsmError::FsmLocked),
            Handler::NotStarted => Err(FsmError::FsmNotStarted),
            Handler::Unknown => Err(FsmError::UnknownTransition),
            Handler::Ignore => Ok(()),
            Handler::NotConnected => Err(FsmError::NotConnected),
            Handler::WouldBlock => Err(FsmError::WouldBlock),
            Handler::StartHandshake => self.action_start_handshake(sent),
            Handler::Stop => self.action_stop(),
            Handler::Close => self.action_close(),
            Handler::HandshakeTimeout => self.handshake_timeout_handler(),
            Handler::Hello => self.action_recv_hello(event, verdict(answers)),
            Handler::DatTimeout(target) => self.dat_timeout_handler(sent, target),
            Handler::ReRat(target) => self.action_re_rat(sent, target),
            Handler::RecvReRat(target) => self.action_recv_re_rat(target),
            Handler::DatExpired(target) => self.action_recv_dat_exp(sent, target),
            Handler::Dat(target) => self.action_recv_dat(verdict(answers), target),
            Handler::ProverOk(target) => self.action_rat_prover_ok(target),
            Handler::ProverDone => self.action_rat_prover_done(),
            Handler::VerifierOk(target) => self.action_rat_verifier_ok(target),
            Handler::VerifierDone => self.action_rat_verifier_done(),
            Handler::ProverFailed => self.action_rat_prover_failed(),
            Handler::VerifierFailed => self.action_rat_verifier_failed(),
            Handler::ProverData => self.action_rat_prover_data(sent),
            Handler::VerifierData => self.action_rat_verifier_data(sent),
            Handler::DelegateProver => self.action_delegate_rat_prover(written),
            Handler::DelegateVerifier => self.action_delegate_rat_verifier(written),
            Handler::SendData => self.action_send_data(event.bytes(), sent),
            Handler::AckTimeout => self.ack_timeout_handler(sent),
            Handler::RecvData => self.action_recv_data(event.bytes(), event.bit()),
            Handler::RecvAck => self.action_recv_ack(event.bit()),
        }
    }
}

/// A copy of this endpoint's token as the answers hold it.
fn own_token(answers: &Answers) -> (token: Vec<u8>)
    ensures
        token@ == crate::fsm::model::own_token(answers@),
{
    match &answers.token {
        Some(token) => clone_bytes(token),
        None => Vec::new(),
    }
}

/// The verdict on the peer's token as the answers hold it.
fn verdict(answers: &Answers) -> (validity: Option<Duration>)
    ensures
        validity == crate::fsm::model::verdict(answers@),
{
    match answers.validity {
        Some(Some(delay)) => Some(delay),
        _ => None,
    }
}

} // verus!
