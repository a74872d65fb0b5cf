//! The machine as a mathematical value, and what each transition makes of it.

use crate::drivers::rat_driver::{RatMessageView, RatRole};
use crate::fsm::action::{actions_view, ActionView, AnswersView, RequestView, StepView};
use crate::fsm::alternating_bit::AlternatingBit;
use crate::fsm::event::{driver_event, EventView};
use crate::fsm::fsm_timer::{DynamicTimer, StaticTimer, TimerId};
use crate::fsm::negotiation::{prover_mechanism, verifier_mechanism};
use crate::fsm::rat_interface::{DriverOutcome, InterfaceView, RatError};
use crate::fsm::table::{locked, table, Handler};
use crate::fsm::{
    AckFlag, AttestationConfig, ClosedStateStatus, FiniteStateMachine, FsmError, FsmState, HandshakeResult,
    RatNegotiationError,
};
use openssl::x509::X509;
use crate::messages::{close_message, suite_view, CloseCause, MessageView};
use std::time::Duration;
use vstd::prelude::*;

verus! {

pub enum AckFlagView {
    Active(Seq<u8>),
    Inactive,
}

impl View for AckFlag {
    type V = AckFlagView;

    open spec fn view(&self) -> AckFlagView {
        match *self {
            AckFlag::Active(payload) => AckFlagView::Active(payload@),
            AckFlag::Inactive => AckFlagView::Inactive,
        }
    }
}

pub struct ConfigView {
    pub expected_attestation_suite: Seq<Seq<char>>,
    pub supported_attestation_suite: Seq<Seq<char>>,
    pub rat_timeout: Duration,
}

impl View for AttestationConfig {
    type V = ConfigView;

    open spec fn view(&self) -> ConfigView {
        ConfigView {
            expected_attestation_suite: suite_view(self.expected_attestation_suite@),
            supported_attestation_suite: suite_view(self.supported_attestation_suite@),
            rat_timeout: self.rat_timeout,
        }
    }
}

/// The machine as a value.
pub struct FsmView {
    pub rat_prover: InterfaceView,
    pub rat_verifier: InterfaceView,
    pub current_state: FsmState,
    pub handshake_timer: StaticTimer,
    pub prover_timer: StaticTimer,
    pub verifier_timer: StaticTimer,
    pub rat_timer: StaticTimer,
    pub ack_timer: StaticTimer,
    pub dat_timer: DynamicTimer,
    pub prover_registry: Seq<Seq<char>>,
    pub verifier_registry: Seq<Seq<char>>,
    pub idscp_connection: Option<u64>,
    pub connection_available: bool,
    pub parked: Seq<ActionView>,
    pub handshake_result: HandshakeResult,
    pub rat_config: ConfigView,
    pub ack_flag: AckFlagView,
    pub expected_alternating_bit: AlternatingBit,
    pub next_send_alternating_bit: AlternatingBit,
    pub outbox: Seq<ActionView>,
}

impl View for FiniteStateMachine {
    type V = FsmView;

    open spec fn view(&self) -> FsmView {
        FsmView {
            rat_prover: self.rat_prover@,
            rat_verifier: self.rat_verifier@,
            current_state: self.current_state,
            handshake_timer: self.handshake_timer,
            prover_timer: self.prover_timer,
            verifier_timer: self.verifier_timer,
            rat_timer: self.rat_timer,
            ack_timer: self.ack_timer,
            dat_timer: self.dat_timer,
            prover_registry: self.prover_registry@,
            verifier_registry: self.verifier_registry@,
            idscp_connection: self.idscp_connection,
            connection_available: self.connection_available,
            parked: actions_view(self.parked@),
            handshake_result: self.handshake_result,
            rat_config: self.rat_config@,
            ack_flag: self.ack_flag@,
            expected_alternating_bit: self.expected_alternating_bit,
            next_send_alternating_bit: self.next_send_alternating_bit,
            outbox: actions_view(self.outbox@),
        }
    }
}

/// A machine after the guarded action of a transition, with the result that
/// the caller is given.
pub struct Attempt {
    pub fsm: FsmView,
    pub result: Result<(), FsmError>,
}

/// The outcome of offering an event: the machine afterwards and the step
/// that the caller is handed.
pub struct Offer {
    pub fsm: FsmView,
    pub step: StepView,
}

impl FsmView {
    // ------------------------------------------------------------------
    // Small steps
    // ------------------------------------------------------------------
    /// One more action for the caller.
    pub open spec fn emit(self, action: ActionView) -> FsmView {
        FsmView { outbox: self.outbox.push(action), ..self }
    }

    pub open spec fn goto(self, state: FsmState) -> FsmView {
        FsmView { current_state: state, ..self }
    }

    /// Whether the timer waits for a wake-up.
    pub open spec fn armed(self, timer: TimerId) -> bool {
        match timer {
            TimerId::Handshake => self.handshake_timer.armed,
            TimerId::Prover => self.prover_timer.armed,
            TimerId::Verifier => self.verifier_timer.armed,
            TimerId::Rat => self.rat_timer.armed,
            TimerId::Ack => self.ack_timer.armed,
            TimerId::Dat => self.dat_timer.armed,
        }
    }

    /// Whether a wake-up with this ticket is the one the timer waits for.
    pub open spec fn accepts(self, timer: TimerId, ticket: u64) -> bool {
        match timer {
            TimerId::Handshake => self.handshake_timer.accepts(ticket),
            TimerId::Prover => self.prover_timer.accepts(ticket),
            TimerId::Verifier => self.verifier_timer.accepts(ticket),
            TimerId::Rat => self.rat_timer.accepts(ticket),
            TimerId::Ack => self.ack_timer.accepts(ticket),
            TimerId::Dat => self.dat_timer.accepts(ticket),
        }
    }

    pub open spec fn cancel(self, timer: TimerId) -> FsmView {
        match timer {
            TimerId::Handshake => FsmView { handshake_timer: self.handshake_timer.cancelled(), ..self },
            TimerId::Prover => FsmView { prover_timer: self.prover_timer.cancelled(), ..self },
            TimerId::Verifier => FsmView { verifier_timer: self.verifier_timer.cancelled(), ..self },
            TimerId::Rat => FsmView { rat_timer: self.rat_timer.cancelled(), ..self },
            TimerId::Ack => FsmView { ack_timer: self.ack_timer.cancelled(), ..self },
            TimerId::Dat => FsmView { dat_timer: self.dat_timer.cancelled(), ..self },
        }
    }

    /// The order to schedule the wake-up of a timer that was just started.
    pub open spec fn wake_up(timer: TimerId, started: StaticTimer) -> ActionView {
        ActionView::StartTimer { timer, ticket: started.generation, delay: started.delay }
    }

    /// Starting one of the five timers with a fixed delay. The token timer has
    /// none and is left alone: see `start_dat`.
    pub open spec fn start(self, timer: TimerId) -> FsmView {
        match timer {
            TimerId::Handshake => (FsmView { handshake_timer: self.handshake_timer.started(), ..self }).emit(
                Self::wake_up(timer, self.handshake_timer.started()),
            ),
            TimerId::Prover => (FsmView { prover_timer: self.prover_timer.started(), ..self }).emit(
                Self::wake_up(timer, self.prover_timer.started()),
            ),
            TimerId::Verifier => (FsmView { verifier_timer: self.verifier_timer.started(), ..self }).emit(
                Self::wake_up(timer, self.verifier_timer.started()),
            ),
            TimerId::Rat => (FsmView { rat_timer: self.rat_timer.started(), ..self }).emit(
                Self::wake_up(timer, self.rat_timer.started()),
            ),
            TimerId::Ack => (FsmView { ack_timer: self.ack_timer.started(), ..self }).emit(
                Self::wake_up(timer, self.ack_timer.started()),
            ),
            TimerId::Dat => self,
        }
    }

    /// Starting the token timer for the validity that the token service gave.
    pub open spec fn start_dat(self, delay: Duration) -> FsmView {
        (FsmView { dat_timer: self.dat_timer.started(), ..self }).emit(
            ActionView::StartTimer { timer: TimerId::Dat, ticket: self.dat_timer.started().generation, delay },
        )
    }

    pub open spec fn interface(self, role: RatRole) -> InterfaceView {
        match role {
            RatRole::Prover => self.rat_prover,
            RatRole::Verifier => self.rat_verifier,
        }
    }

    pub open spec fn registry(self, role: RatRole) -> Seq<Seq<char>> {
        match role {
            RatRole::Prover => self.prover_registry,
            RatRole::Verifier => self.verifier_registry,
        }
    }

    /// The machine after an operation on one of its two interfaces.
    pub open spec fn apply(self, role: RatRole, outcome: DriverOutcome) -> FsmView {
        match role {
            RatRole::Prover => FsmView {
                rat_prover: outcome.interface,
                outbox: self.outbox + outcome.actions,
                ..self
            },
            RatRole::Verifier => FsmView {
                rat_verifier: outcome.interface,
                outbox: self.outbox + outcome.actions,
                ..self
            },
        }
    }

    pub open spec fn stop_driver(self, role: RatRole) -> FsmView {
        self.apply(role, self.interface(role).stop_driver())
    }

    pub open spec fn restart_driver(self, role: RatRole) -> FsmView {
        self.apply(role, self.interface(role).restart_driver())
    }

    pub open spec fn start_driver(self, role: RatRole, mechanism: Seq<char>) -> FsmView {
        self.apply(role, self.interface(role).start_driver(mechanism, Some(self.registry(role))))
    }

    /// A call to the connection. It waits where the upper layer has not yet
    /// bound a connection or declined to, and is dropped where it declined.
    pub open spec fn observe(self, call: ActionView) -> FsmView {
        if !self.connection_available {
            FsmView { parked: self.parked.push(call), ..self }
        } else if self.idscp_connection is Some {
            self.emit(call)
        } else {
            self
        }
    }

    pub open spec fn handshake_result_available(self) -> bool {
        self.handshake_result != HandshakeResult::NotAvailable
    }

    /// The connection learns of a close only where the handshake result was
    /// published before: until then no connection exists that could be told.
    pub open spec fn notify_connection_about_close(self) -> FsmView {
        if self.handshake_result_available() {
            self.observe(ActionView::OnClose)
        } else {
            self
        }
    }

    /// All six timers cancelled, both workers stopped, the channel closed.
    pub open spec fn cleanup(self) -> FsmView {
        self.cancel(TimerId::Handshake).cancel(TimerId::Dat).cancel(TimerId::Rat).cancel(TimerId::Verifier).cancel(
            TimerId::Prover,
        ).cancel(TimerId::Ack).stop_driver(RatRole::Prover).stop_driver(RatRole::Verifier).emit(
            ActionView::UnlockChannel,
        ).emit(ActionView::StopChannel)
    }

    /// The handshake result is published when the machine is first seen
    /// established or locked, and never again.
    pub open spec fn publish(self) -> FsmView {
        if self.handshake_result_available() {
            self
        } else if self.current_state == FsmState::Established {
            (FsmView { handshake_result: HandshakeResult::Successful, ..self }).emit(
                ActionView::Publish(HandshakeResult::Successful),
            )
        } else if self.current_state == locked() {
            (FsmView { handshake_result: HandshakeResult::Failed, ..self }).emit(
                ActionView::Publish(HandshakeResult::Failed),
            )
        } else {
            self
        }
    }

    // ------------------------------------------------------------------
    // How a guarded action ends
    // ------------------------------------------------------------------
    /// Done, in the state that the machine is in.
    pub open spec fn done(self) -> Attempt {
        Attempt { fsm: self, result: Ok(()) }
    }

    /// Done, in a new state.
    pub open spec fn done_in(self, state: FsmState) -> Attempt {
        Attempt { fsm: self.goto(state), result: Ok(()) }
    }

    /// Turned away: an error for the caller, and the machine as it is.
    pub open spec fn reject(self, error: FsmError) -> Attempt {
        Attempt { fsm: self, result: Err(error) }
    }

    /// The session ends here: clean up, tell the connection, lock.
    pub open spec fn shut(self) -> FsmView {
        self.cleanup().notify_connection_about_close().goto(locked())
    }

    /// A failure that ends the session.
    pub open spec fn fail(self, error: FsmError) -> Attempt {
        Attempt { fsm: self.shut(), result: Err(error) }
    }

    /// Back to the data phase after an attestation: to the wait for the
    /// acknowledgement where a message is still pending, with its timer
    /// started anew, else to the established state.
    pub open spec fn resume_data_phase(self) -> Attempt {
        match self.ack_flag {
            AckFlagView::Inactive => self.done_in(FsmState::Established),
            AckFlagView::Active(_) => self.start(TimerId::Ack).done_in(FsmState::WaitForAck),
        }
    }

    /// Leaving the wait for an acknowledgement for an attestation: the
    /// acknowledgement timer is cancelled. Elsewhere nothing.
    pub open spec fn leave_ack_wait(self) -> FsmView {
        if self.current_state == FsmState::WaitForAck {
            self.cancel(TimerId::Ack)
        } else {
            self
        }
    }

    // ------------------------------------------------------------------
    // The guarded actions
    // ------------------------------------------------------------------
    #[verifier::opaque]
    pub open spec fn action_start_handshake(self, sent: bool) -> Attempt {
        let unlocked = self.emit(ActionView::UnlockChannel);
        if sent {
            unlocked.start(TimerId::Handshake).done_in(FsmState::WaitForHello)
        } else {
            unlocked.fail(FsmError::IoError)
        }
    }

    #[verifier::opaque]
    pub open spec fn action_stop(self) -> Attempt {
        Attempt {
            fsm: self.emit(ActionView::Send(close_message(CloseCause::UserShutdown))).cleanup().goto(locked()),
            result: Ok(()),
        }
    }

    #[verifier::opaque]
    pub open spec fn action_close(self) -> Attempt {
        Attempt { fsm: self.shut(), result: Ok(()) }
    }

    #[verifier::opaque]
    pub open spec fn handshake_timeout_handler(self) -> Attempt {
        Attempt { fsm: self.emit(ActionView::Send(close_message(CloseCause::Timeout))).shut(), result: Ok(()) }
    }

    #[verifier::opaque]
    pub open spec fn dat_timeout_handler(self, sent: bool, target: FsmState) -> Attempt {
        let halted = self.stop_driver(RatRole::Verifier).cancel(TimerId::Rat);
        if sent {
            halted.leave_ack_wait().start(TimerId::Handshake).done_in(target)
        } else {
            halted.fail(FsmError::IoError)
        }
    }

    #[verifier::opaque]
    pub open spec fn action_re_rat(self, sent: bool, target: FsmState) -> Attempt {
        let cancelled = self.cancel(TimerId::Rat);
        if !sent {
            cancelled.fail(FsmError::IoError)
        } else {
            let restarted = cancelled.restart_driver(RatRole::Verifier);
            match cancelled.rat_verifier.restart_driver().result {
                Err(e) => restarted.fail(FsmError::RatError(e)),
                Ok(_) => restarted.start(TimerId::Verifier).leave_ack_wait().done_in(target),
            }
        }
    }

    #[verifier::opaque]
    pub open spec fn action_recv_re_rat(self, target: FsmState) -> Attempt {
        let restarted = self.restart_driver(RatRole::Prover);
        match self.rat_prover.restart_driver().result {
            Err(e) => restarted.fail(FsmError::RatError(e)),
            Ok(_) => restarted.start(TimerId::Prover).leave_ack_wait().done_in(target),
        }
    }

    #[verifier::opaque]
    pub open spec fn action_recv_dat_exp(self, sent: bool, target: FsmState) -> Attempt {
        if !sent {
            self.fail(FsmError::IoError)
        } else {
            self.action_recv_re_rat(target)
        }
    }

    /// The session ends over the peer's token: the peer is told, then the
    /// failure takes its course.
    pub open spec fn refuse_dat(self, error: FsmError) -> Attempt {
        self.emit(ActionView::Send(close_message(CloseCause::NoValidDat))).fail(error)
    }

    #[verifier::opaque]
    pub open spec fn action_recv_dat(self, validity: Option<Duration>, target: FsmState) -> Attempt {
        let cancelled = self.cancel(TimerId::Handshake);
        match validity {
            None => cancelled.refuse_dat(FsmError::InvalidDat),
            Some(delay) => {
                let timed = cancelled.start_dat(delay);
                let restarted = timed.restart_driver(RatRole::Verifier);
                match timed.rat_verifier.restart_driver().result {
                    Err(e) => restarted.fail(FsmError::RatError(e)),
                    Ok(_) => restarted.start(TimerId::Verifier).done_in(target),
                }
            },
        }
    }

    /// The two mechanisms that a hello of the peer leads to, prover first, or
    /// `None` where either side of the negotiation finds no match.
    pub open spec fn negotiate(self, event: EventView) -> Option<(Seq<char>, Seq<char>)> {
        let prover = prover_mechanism(event.peer_expected(), self.rat_config.supported_attestation_suite);
        let verifier = verifier_mechanism(event.peer_supported(), self.rat_config.expected_attestation_suite);
        if prover is Some && verifier is Some {
            Some((prover->Some_0, verifier->Some_0))
        } else {
            None
        }
    }

    #[verifier::opaque]
    pub open spec fn action_recv_hello(self, event: EventView, validity: Option<Duration>) -> Attempt {
        let cancelled = self.cancel(TimerId::Handshake);
        match self.negotiate(event) {
            None => cancelled.emit(ActionView::Send(close_message(CloseCause::Error))).fail(
                FsmError::RatNegotiationError(RatNegotiationError::NoRatMechanismMatch),
            ),
            Some((prover, verifier)) => if event.hello_dat() is None {
                cancelled.refuse_dat(FsmError::MissingDat)
            } else {
                match validity {
                    None => cancelled.refuse_dat(FsmError::InvalidDat),
                    Some(delay) => {
                        let timed = cancelled.start_dat(delay);
                        let verifying = timed.start_driver(RatRole::Verifier, verifier);
                        match timed.rat_verifier.start_driver(verifier, Some(timed.verifier_registry)).result {
                            Err(e) => verifying.fail(FsmError::RatError(e)),
                            Ok(_) => {
                                let watched = verifying.start(TimerId::Verifier);
                                let proving = watched.start_driver(RatRole::Prover, prover);
                                match watched.rat_prover.start_driver(prover, Some(watched.prover_registry)).result {
                                    Err(e) => proving.fail(FsmError::RatError(e)),
                                    Ok(_) => proving.start(TimerId::Prover).done_in(FsmState::WaitForRat),
                                }
                            },
                        }
                    },
                }
            },
        }
    }

    #[verifier::opaque]
    pub open spec fn action_rat_prover_ok(self, target: FsmState) -> Attempt {
        self.cancel(TimerId::Prover).done_in(target)
    }

    #[verifier::opaque]
    pub open spec fn action_rat_prover_done(self) -> Attempt {
        self.cancel(TimerId::Prover).resume_data_phase()
    }

    #[verifier::opaque]
    pub open spec fn action_rat_verifier_ok(self, target: FsmState) -> Attempt {
        self.cancel(TimerId::Verifier).start(TimerId::Rat).done_in(target)
    }

    #[verifier::opaque]
    pub open spec fn action_rat_verifier_done(self) -> Attempt {
        self.cancel(TimerId::Verifier).start(TimerId::Rat).resume_data_phase()
    }

    #[verifier::opaque]
    pub open spec fn action_rat_prover_failed(self) -> Attempt {
        Attempt {
            fsm: self.cancel(TimerId::Prover).emit(
                ActionView::Send(close_message(CloseCause::RatProverFailed)),
            ).shut(),
            result: Ok(()),
        }
    }

    #[verifier::opaque]
    pub open spec fn action_rat_verifier_failed(self) -> Attempt {
        Attempt {
            fsm: self.cancel(TimerId::Verifier).emit(
                ActionView::Send(close_message(CloseCause::RatVerifierFailed)),
            ).shut(),
            result: Ok(()),
        }
    }

    /// Bytes of a local worker went to the peer, or did not.
    #[verifier::opaque]
    pub open spec fn action_rat_data(self, sent: bool) -> Attempt {
        if sent {
            self.done()
        } else {
            self.fail(FsmError::IoError)
        }
    }

    /// Bytes of the peer went to the local worker of `role`, or did not.
    #[verifier::opaque]
    pub open spec fn action_delegate(self, role: RatRole, written: bool) -> Attempt {
        match self.interface(role).write_to_driver(written) {
            Ok(_) => self.done(),
            Err(e) => self.fail(FsmError::RatError(e)),
        }
    }

    #[verifier::opaque]
    pub open spec fn action_send_data(self, payload: Seq<u8>, sent: bool) -> Attempt {
        if sent {
            (FsmView { ack_flag: AckFlagView::Active(payload), ..self }).start(TimerId::Ack).done_in(
                FsmState::WaitForAck,
            )
        } else {
            self.fail(FsmError::IoError)
        }
    }

    #[verifier::opaque]
    pub open spec fn ack_timeout_handler(self, sent: bool) -> Attempt {
        match self.ack_flag {
            AckFlagView::Inactive => self.reject(FsmError::IdscpDataNotCached),
            AckFlagView::Active(_) => if sent {
                self.start(TimerId::Ack).done()
            } else {
                self.fail(FsmError::IoError)
            },
        }
    }

    /// Whether a data message of the peer carries the bit that is expected.
    pub open spec fn expects(self, bit: bool) -> bool {
        AlternatingBit::spec_from_bool(bit) == self.expected_alternating_bit
    }

    #[verifier::opaque]
    pub open spec fn action_recv_data(self, payload: Seq<u8>, bit: bool) -> Attempt {
        if self.expects(bit) {
            (FsmView {
                expected_alternating_bit: self.expected_alternating_bit.flipped(),
                ..self.emit(ActionView::Send(MessageView::Ack { alternating_bit: bit }))
            }).observe(ActionView::OnMessage(payload)).done()
        } else {
            self.done()
        }
    }

    /// Whether an acknowledgement with this bit answers the pending message.
    pub open spec fn acknowledges(self, bit: bool) -> bool {
        self.ack_flag is Active && AlternatingBit::spec_from_bool(bit) == self.next_send_alternating_bit
    }

    #[verifier::opaque]
    pub open spec fn action_recv_ack(self, bit: bool) -> Attempt {
        if self.acknowledges(bit) {
            let acknowledged = (FsmView {
                ack_flag: AckFlagView::Inactive,
                next_send_alternating_bit: self.next_send_alternating_bit.flipped(),
                ..self
            }).cancel(TimerId::Ack);
            if self.current_state == FsmState::WaitForAck {
                acknowledged.done_in(FsmState::Established)
            } else {
                acknowledged.done()
            }
        } else {
            self.done()
        }
    }

    // ------------------------------------------------------------------
    // Questions and transitions
    // ------------------------------------------------------------------
    /// The message whose delivery decides the transition, if the transition
    /// has one. `token` is this endpoint's fresh token where the message
    /// carries it.
    pub open spec fn decisive_message(self, event: EventView, token: Seq<u8>) -> Option<MessageView> {
        match table(self.current_state, event.kind()) {
            Handler::StartHandshake => Some(
                MessageView::Hello {
                    dat: Some(token),
                    expected_rat_suite: self.rat_config.expected_attestation_suite,
                    supported_rat_suite: self.rat_config.supported_attestation_suite,
                },
            ),
            Handler::DatTimeout(_) => Some(MessageView::DatExpired),
            Handler::ReRat(_) => Some(MessageView::ReRat { cause: ""@ }),
            Handler::DatExpired(_) => Some(MessageView::Dat { token }),
            Handler::ProverData => Some(MessageView::RatProver { data: event.bytes() }),
            Handler::VerifierData => Some(MessageView::RatVerifier { data: event.bytes() }),
            Handler::SendData => Some(
                MessageView::Data {
                    payload: event.bytes(),
                    alternating_bit: self.next_send_alternating_bit.spec_as_bool(),
                },
            ),
            Handler::AckTimeout => match self.ack_flag {
                AckFlagView::Active(payload) => Some(
                    MessageView::Data {
                        payload,
                        alternating_bit: self.next_send_alternating_bit.spec_as_bool(),
                    },
                ),
                AckFlagView::Inactive => None,
            },
            _ => None,
        }
    }

    /// Whether the transition sends this endpoint's own token.
    pub open spec fn needs_token(self, event: EventView) -> bool {
        match table(self.current_state, event.kind()) {
            Handler::StartHandshake => true,
            Handler::DatExpired(_) => true,
            _ => false,
        }
    }

    /// The token of the peer on which the transition needs a verdict.
    pub open spec fn token_to_verify(self, event: EventView) -> Option<Seq<u8>> {
        match table(self.current_state, event.kind()) {
            Handler::Hello => if self.negotiate(event) is Some {
                event.hello_dat()
            } else {
                None
            },
            Handler::Dat(_) => Some(event.bytes()),
            _ => None,
        }
    }

    /// The worker to which the transition passes the peer's bytes, where that
    /// worker runs.
    pub open spec fn worker_to_write(self, event: EventView) -> Option<RatRole> {
        match table(self.current_state, event.kind()) {
            Handler::DelegateProver => if self.rat_verifier.is_active() {
                Some(RatRole::Verifier)
            } else {
                None
            },
            Handler::DelegateVerifier => if self.rat_prover.is_active() {
                Some(RatRole::Prover)
            } else {
                None
            },
            _ => None,
        }
    }

    /// The question that has to be answered before the event can be
    /// processed, given the answers so far; `None` where nothing is missing.
    #[verifier::opaque]
    pub open spec fn request(self, event: EventView, answers: AnswersView) -> Option<RequestView> {
        if self.needs_token(event) && answers.token is None {
            Some(RequestView::GetToken)
        } else if self.token_to_verify(event) is Some && answers.validity is None {
            Some(RequestView::VerifyToken(self.token_to_verify(event)->Some_0))
        } else if self.worker_to_write(event) is Some && answers.written is None {
            Some(RequestView::WriteToDriver { role: self.worker_to_write(event)->Some_0, data: event.bytes() })
        } else if self.decisive_message(event, own_token(answers)) is Some && answers.sent is None {
            Some(RequestView::Send(self.decisive_message(event, own_token(answers))->Some_0))
        } else {
            None
        }
    }

    /// The guarded action of the transition, given every answer it needs.
    #[verifier::opaque]
    pub open spec fn transition(self, event: EventView, answers: AnswersView) -> Attempt {
        let sent = answers.sent == Some(true);
        let written = answers.written == Some(true);
        let validity = verdict(answers);
        match table(self.current_state, event.kind()) {
            Handler::Locked => self.reject(FsmError::FsmLocked),
            Handler::NotStarted => self.reject(FsmError::FsmNotStarted),
            Handler::Unknown => self.reject(FsmError::UnknownTransition),
            Handler::Ignore => self.done(),
            Handler::NotConnected => self.reject(FsmError::NotConnected),
            Handler::WouldBlock => self.reject(FsmError::WouldBlock),
            Handler::StartHandshake => self.action_start_handshake(sent),
            Handler::Stop => self.action_stop(),
            Handler::Close => self.action_close(),
            Handler::HandshakeTimeout => self.handshake_timeout_handler(),
            Handler::Hello => self.action_recv_hello(event, validity),
            Handler::DatTimeout(target) => self.dat_timeout_handler(sent, target),
            Handler::ReRat(target) => self.action_re_rat(sent, target),
            Handler::RecvReRat(target) => self.action_recv_re_rat(target),
            Handler::DatExpired(target) => self.action_recv_dat_exp(sent, target),
            Handler::Dat(target) => self.action_recv_dat(validity, target),
            Handler::ProverOk(target) => self.action_rat_prover_ok(target),
            Handler::ProverDone => self.action_rat_prover_done(),
            Handler::VerifierOk(target) => self.action_rat_verifier_ok(target),
            Handler::VerifierDone => self.action_rat_verifier_done(),
            Handler::ProverFailed => self.action_rat_prover_failed(),
            Handler::VerifierFailed => self.action_rat_verifier_failed(),
            Handler::ProverData => self.action_rat_data(sent),
            Handler::VerifierData => self.action_rat_data(sent),
            Handler::DelegateProver => self.action_delegate(RatRole::Verifier, written),
            Handler::DelegateVerifier => self.action_delegate(RatRole::Prover, written),
            Handler::SendData => self.action_send_data(event.bytes(), sent),
            Handler::AckTimeout => self.ack_timeout_handler(sent),
            Handler::RecvData => self.action_recv_data(event.bytes(), event.bit()),
            Handler::RecvAck => self.action_recv_ack(event.bit()),
        }
    }

    /// Offering an event. Where an answer is missing the machine stays as it
    /// is and asks. Else the transition is made, the handshake result
    /// published where it is due, and the actions handed over.
    #[verifier::opaque]
    pub open spec fn process_event(self, event: EventView, answers: AnswersView) -> Offer {
        match self.request(event, answers) {
            Some(request) => Offer { fsm: self, step: StepView::Ask(request) },
            None => {
                let attempt = self.transition(event, answers);
                let published = attempt.fsm.publish();
                Offer {
                    fsm: FsmView { outbox: Seq::empty(), ..published },
                    step: StepView::Done { result: attempt.result, actions: published.outbox },
                }
            },
        }
    }
}

/// The event that the expiry of a timer stands for. The timers that watch the
/// two workers report a handshake timeout, as the handshake timer does.
pub open spec fn timeout_event(timer: TimerId) -> EventView {
    match timer {
        TimerId::Handshake => EventView::HandshakeTimeout,
        TimerId::Prover => EventView::HandshakeTimeout,
        TimerId::Verifier => EventView::HandshakeTimeout,
        TimerId::Rat => EventView::RatTimeout,
        TimerId::Ack => EventView::AckTimeout,
        TimerId::Dat => EventView::DatTimeout,
    }
}

impl FsmView {
    /// A machine that was just made: closed but not locked, nothing armed,
    /// nothing running, both bits at zero, no message pending.
    pub open spec fn initial(
        prover_cert: X509,
        verifier_cert: X509,
        prover_registry: Seq<Seq<char>>,
        verifier_registry: Seq<Seq<char>>,
        handshake_timeout: Duration,
        ack_timeout: Duration,
        rat_config: ConfigView,
    ) -> FsmView {
        FsmView {
            rat_prover: InterfaceView {
                role: RatRole::Prover,
                content: None,
                cached_driver: None,
                next_session: 0,
                peer_cert: prover_cert,
            },
            rat_verifier: InterfaceView {
                role: RatRole::Verifier,
                content: None,
                cached_driver: None,
                next_session: 0,
                peer_cert: verifier_cert,
            },
            current_state: FsmState::Closed(ClosedStateStatus::Unlocked),
            handshake_timer: StaticTimer { delay: handshake_timeout, armed: false, generation: 0 },
            prover_timer: StaticTimer { delay: handshake_timeout, armed: false, generation: 0 },
            verifier_timer: StaticTimer { delay: handshake_timeout, armed: false, generation: 0 },
            rat_timer: StaticTimer { delay: rat_config.rat_timeout, armed: false, generation: 0 },
            ack_timer: StaticTimer { delay: ack_timeout, armed: false, generation: 0 },
            dat_timer: DynamicTimer { armed: false, generation: 0 },
            prover_registry,
            verifier_registry,
            idscp_connection: None,
            connection_available: false,
            parked: Seq::empty(),
            handshake_result: HandshakeResult::NotAvailable,
            rat_config,
            ack_flag: AckFlagView::Inactive,
            expected_alternating_bit: AlternatingBit::Zero,
            next_send_alternating_bit: AlternatingBit::Zero,
            outbox: Seq::empty(),
        }
    }

    /// The connection that is bound once the upper layer has spoken: the one
    /// it names, else the one that was bound before.
    pub open spec fn bound_connection(self, connection: Option<u64>) -> Option<u64> {
        match connection {
            Some(handle) => Some(handle),
            None => self.idscp_connection,
        }
    }

    /// The machine after the upper layer has bound a connection or declined.
    pub open spec fn set_connection(self, connection: Option<u64>) -> FsmView {
        FsmView {
            idscp_connection: self.bound_connection(connection),
            connection_available: true,
            parked: Seq::empty(),
            ..self
        }
    }

    /// The calls that waited for the connection and now go out: all of them,
    /// in order, where a connection is bound, none where it is not.
    pub open spec fn released(self, connection: Option<u64>) -> Seq<ActionView> {
        if self.bound_connection(connection) is Some {
            self.parked
        } else {
            Seq::empty()
        }
    }

    /// The report of a wake-up. A ticket that the timer does not wait for is
    /// dropped. Else the timer is disarmed and its event offered; where the
    /// offer ends in a question, the timer too stays as it was.
    pub open spec fn timer_expired(self, timer: TimerId, ticket: u64, answers: AnswersView) -> Option<Offer> {
        if !self.accepts(timer, ticket) {
            None
        } else {
            let offer = self.cancel(timer).process_event(timeout_event(timer), answers);
            match offer.step {
                StepView::Ask(_) => Some(Offer { fsm: self, step: offer.step }),
                StepView::Done { .. } => Some(offer),
            }
        }
    }

    /// A message that a listener has received from its worker. It is dropped
    /// unless the listener is the current one of its role and not cancelled.
    pub open spec fn feed_driver_message(
        self,
        role: RatRole,
        session: u64,
        msg: RatMessageView,
        answers: AnswersView,
    ) -> Option<Offer> {
        if self.interface(role).accepts(session) {
            Some(self.process_event(driver_event(role, msg), answers))
        } else {
            None
        }
    }

    /// The listener of a session reports that its worker has gone away.
    pub open spec fn on_driver_stop(self, role: RatRole, session: u64) -> FsmView {
        match role {
            RatRole::Prover => FsmView { rat_prover: self.rat_prover.on_driver_stop(session), ..self },
            RatRole::Verifier => FsmView { rat_verifier: self.rat_verifier.on_driver_stop(session), ..self },
        }
    }

    pub open spec fn is_closed(self) -> bool {
        self.current_state is Closed
    }

    pub open spec fn is_connected(self) -> bool {
        self.current_state == FsmState::Established || self.current_state == FsmState::WaitForAck
    }
}

/// What a transition asks does not depend on any timer.
pub proof fn lemma_request_ignores_timers(fsm: FsmView, timer: TimerId, event: EventView, answers: AnswersView)
    ensures
        fsm.cancel(timer).request(event, answers) == fsm.request(event, answers),
{
    reveal(FsmView::request);
}

/// This endpoint's token as the answers hold it; empty where they hold none.
pub open spec fn own_token(answers: AnswersView) -> Seq<u8> {
    match answers.token {
        Some(token) => token,
        None => Seq::empty(),
    }
}

/// The verdict on the peer's token as the answers hold it: its remaining
/// validity, or `None` where the token is not valid or no verdict is there.
pub open spec fn verdict(answers: AnswersView) -> Option<Duration> {
    match answers.validity {
        Some(Some(delay)) => Some(delay),
        _ => None,
    }
}

} // verus!
