//! What holds of a machine between any two events, and why it goes on holding.

use crate::drivers::rat_driver::{RatMessageView, RatRole};
use crate::fsm::action::{ActionView, AnswersView};
use crate::fsm::event::{driver_event, EventKind, EventView};
use crate::fsm::fsm_timer::TimerId;
use crate::fsm::model::{timeout_event, ConfigView, FsmView};
use crate::fsm::table::{locked, table, Handler};
use crate::fsm::{ClosedStateStatus, FsmState};
use crate::messages::{close_message, CloseCause, MessageView};
use openssl::x509::X509;
use std::time::Duration;
use vstd::prelude::*;

verus! {

/// The acknowledgement discipline: while the machine waits for an
/// acknowledgement a message is pending and its timer is armed; before the
/// first attestation and in the established state nothing is pending.
pub open spec fn ack_discipline(fsm: FsmView) -> bool {
    &&& fsm.current_state == FsmState::WaitForAck ==> fsm.ack_flag is Active && fsm.ack_timer.armed
    &&& fsm.current_state == FsmState::Established || fsm.current_state == FsmState::WaitForHello
        || fsm.current_state == FsmState::Closed(ClosedStateStatus::Unlocked) ==> fsm.ack_flag is Inactive
}

/// The timers keep watch: the handshake timer is armed wherever the machine
/// waits for a hello or a token of the peer; while the prover is awaited its
/// timer is armed exactly if a prover runs, and so for the verifier.
pub open spec fn timers_keep_watch(fsm: FsmView) -> bool {
    &&& fsm.current_state == FsmState::WaitForHello || fsm.current_state == FsmState::WaitForDatAndRat
        || fsm.current_state == FsmState::WaitForDatAndRatVerifier ==> fsm.handshake_timer.armed
    &&& fsm.current_state == FsmState::WaitForRat || fsm.current_state == FsmState::WaitForRatProver
        || fsm.current_state == FsmState::WaitForDatAndRat ==> (fsm.prover_timer.armed
        <==> fsm.rat_prover.is_active())
    &&& fsm.current_state == FsmState::WaitForRat || fsm.current_state == FsmState::WaitForRatVerifier ==> (
    fsm.verifier_timer.armed <==> fsm.rat_verifier.is_active())
}

/// The handshake result is out as soon as the machine has been established
/// or locked, and a message can only be pending after that.
pub open spec fn result_is_out(fsm: FsmView) -> bool {
    fsm.current_state == FsmState::Established || fsm.current_state == locked() || fsm.ack_flag is Active
        ==> fsm.handshake_result_available()
}

/// What holds of a machine between two events, if it was made by `create`
/// and has only been driven by events, timers and the binding of a
/// connection. The report that a worker has gone away (`on_driver_stop`) is
/// no event: it may leave the timer of that worker armed with no worker
/// running, until the timer goes off.
pub open spec fn sound(fsm: FsmView) -> bool {
    &&& fsm.outbox.len() == 0
    &&& ack_discipline(fsm)
    &&& timers_keep_watch(fsm)
    &&& result_is_out(fsm)
}

/// A machine that was just made is sound.
pub proof fn lemma_initial_machine_is_sound(
    prover_cert: X509,
    verifier_cert: X509,
    prover_registry: Seq<Seq<char>>,
    verifier_registry: Seq<Seq<char>>,
    handshake_timeout: Duration,
    ack_timeout: Duration,
    rat_config: ConfigView,
)
    ensures
        sound(
            FsmView::initial(
                prover_cert,
                verifier_cert,
                prover_registry,
                verifier_registry,
                handshake_timeout,
                ack_timeout,
                rat_config,
            ),
        ),
{
}

/// What holds of the machine when the guarded action of a transition is
/// over and the handshake result has not yet been looked at.
#[verifier::opaque]
pub open spec fn steady(fsm: FsmView) -> bool {
    &&& ack_discipline(fsm)
    &&& timers_keep_watch(fsm)
    &&& fsm.ack_flag is Active ==> fsm.handshake_result_available() || fsm.current_state == locked()
}

/// No action of the list publishes a handshake result.
#[verifier::opaque]
pub open spec fn quiet(actions: Seq<ActionView>) -> bool {
    forall|i: int| 0 <= i < actions.len() ==> !(#[trigger] actions[i] is Publish)
}

/// No action of the list is a call to the connection.
#[verifier::opaque]
pub open spec fn calm(actions: Seq<ActionView>) -> bool {
    forall|i: int|
        0 <= i < actions.len() ==> !(#[trigger] actions[i] is OnMessage) && !(actions[i] is OnClose)
}

/// A step that neither publishes a handshake result nor touches the one
/// that was published, that leaves the binding of the connection alone, and
/// that makes no call to the connection while none is available.
pub open spec fn mute(before: FsmView, after: FsmView) -> bool {
    &&& after.handshake_result == before.handshake_result
    &&& quiet(before.outbox) ==> quiet(after.outbox)
    &&& after.connection_available == before.connection_available
    &&& after.idscp_connection == before.idscp_connection
    &&& !before.connection_available && calm(before.outbox) ==> calm(after.outbox)
}

/// Whether the machine waits for a token of the peer.
pub open spec fn waits_for_dat(state: FsmState) -> bool {
    state == FsmState::WaitForDatAndRat || state == FsmState::WaitForDatAndRatVerifier
}

/// A guarded action that is mute, leaves a sound machine steady, and does
/// not leave the wait for a token with the handshake timer armed.
#[verifier::opaque]
pub open spec fn orderly(before: FsmView, after: FsmView) -> bool {
    &&& sound(before) ==> steady(after)
    &&& mute(before, after)
    &&& waits_for_dat(before.current_state) && !waits_for_dat(after.current_state)
        ==> !after.handshake_timer.armed
}

/// The two alternating bits after a transition: the send bit is flipped by
/// an acknowledgement that answers the pending message, the receive bit by a
/// data message that carries the expected bit, and nothing else moves them.
#[verifier::opaque]
pub open spec fn bits_as_due(before: FsmView, event: EventView, after: FsmView) -> bool {
    &&& after.next_send_alternating_bit == if table(before.current_state, event.kind()) == Handler::RecvAck
        && before.acknowledges(event.bit()) {
        before.next_send_alternating_bit.flipped()
    } else {
        before.next_send_alternating_bit
    }
    &&& after.expected_alternating_bit == if table(before.current_state, event.kind()) == Handler::RecvData
        && before.expects(event.bit()) {
        before.expected_alternating_bit.flipped()
    } else {
        before.expected_alternating_bit
    }
}

/// The steps of which every guarded action is made are mute.
proof fn lemma_small_steps_are_mute()
    ensures
        forall|fsm: FsmView, action: ActionView|
            !(action is Publish) && !(action is OnMessage) && !(action is OnClose) ==> mute(
                fsm,
                #[trigger] fsm.emit(action),
            ),
        forall|fsm: FsmView, action: ActionView|
            !(action is Publish) ==> mute(fsm, #[trigger] fsm.observe(action)),
        forall|fsm: FsmView, timer: TimerId| mute(fsm, #[trigger] fsm.cancel(timer)),
        forall|fsm: FsmView, timer: TimerId| mute(fsm, #[trigger] fsm.start(timer)),
        forall|fsm: FsmView, delay: Duration| mute(fsm, #[trigger] fsm.start_dat(delay)),
        forall|fsm: FsmView, state: FsmState| mute(fsm, #[trigger] fsm.goto(state)),
        forall|fsm: FsmView, role: RatRole| mute(fsm, #[trigger] fsm.stop_driver(role)),
        forall|fsm: FsmView, role: RatRole| mute(fsm, #[trigger] fsm.restart_driver(role)),
        forall|fsm: FsmView, role: RatRole, mechanism: Seq<char>|
            mute(fsm, #[trigger] fsm.start_driver(role, mechanism)),
{
    reveal(quiet);
    reveal(calm);
}

/// Ending a session is mute and leaves the machine locked.
proof fn lemma_shut_is_mute(fsm: FsmView)
    ensures
        mute(fsm, fsm.cleanup()),
        mute(fsm, fsm.shut()),
        fsm.shut().current_state == locked(),
        fsm.shut().next_send_alternating_bit == fsm.next_send_alternating_bit,
        fsm.shut().expected_alternating_bit == fsm.expected_alternating_bit,
        steady(fsm.shut()),
        !fsm.shut().handshake_timer.armed,
        !fsm.cleanup().handshake_timer.armed,
{
    lemma_small_steps_are_mute();
    reveal(steady);
    let a = fsm.cancel(TimerId::Handshake);
    let b = a.cancel(TimerId::Dat);
    let c = b.cancel(TimerId::Rat);
    let d = c.cancel(TimerId::Verifier);
    let e = d.cancel(TimerId::Prover);
    let f = e.cancel(TimerId::Ack);
    let g = f.stop_driver(RatRole::Prover);
    let h = g.stop_driver(RatRole::Verifier);
    let i = h.emit(ActionView::UnlockChannel);
    let j = i.emit(ActionView::StopChannel);
    assert(j == fsm.cleanup());
    assert(mute(fsm, j));
    assert(mute(j, j.notify_connection_about_close()));
}

/// Publishing the handshake result and handing the actions over turns a
/// steady machine into a sound one.
proof fn lemma_publish_settles(fsm: FsmView)
    requires
        steady(fsm),
    ensures
        sound(FsmView { outbox: Seq::empty(), ..fsm.publish() }),
{
    reveal(steady);
}

// Each guarded action is orderly, and all but the two that receive data and
// acknowledgements leave both bits alone. One lemma for each action, or for
// a few that go together.

proof fn lemma_start_handshake_is_orderly(fsm: FsmView, kind: EventKind, sent: bool)
    requires
        table(fsm.current_state, kind) == Handler::StartHandshake,
    ensures
        orderly(fsm, fsm.action_start_handshake(sent).fsm),
        fsm.action_start_handshake(sent).fsm.next_send_alternating_bit == fsm.next_send_alternating_bit,
        fsm.action_start_handshake(sent).fsm.expected_alternating_bit == fsm.expected_alternating_bit,
{
    reveal(table);
    reveal(FsmView::action_start_handshake);
    reveal(orderly);
    reveal(steady);
    lemma_small_steps_are_mute();
    lemma_shut_is_mute(fsm.emit(ActionView::UnlockChannel));
}

proof fn lemma_closing_is_orderly(fsm: FsmView)
    ensures
        orderly(fsm, fsm.action_stop().fsm),
        orderly(fsm, fsm.action_close().fsm),
        orderly(fsm, fsm.handshake_timeout_handler().fsm),
        orderly(fsm, fsm.action_rat_prover_failed().fsm),
        orderly(fsm, fsm.action_rat_verifier_failed().fsm),
        fsm.action_stop().fsm.next_send_alternating_bit == fsm.next_send_alternating_bit,
        fsm.action_stop().fsm.expected_alternating_bit == fsm.expected_alternating_bit,
        fsm.action_close().fsm.next_send_alternating_bit == fsm.next_send_alternating_bit,
        fsm.action_close().fsm.expected_alternating_bit == fsm.expected_alternating_bit,
        fsm.handshake_timeout_handler().fsm.next_send_alternating_bit == fsm.next_send_alternating_bit,
        fsm.handshake_timeout_handler().fsm.expected_alternating_bit == fsm.expected_alternating_bit,
        fsm.action_rat_prover_failed().fsm.next_send_alternating_bit == fsm.next_send_alternating_bit,
        fsm.action_rat_prover_failed().fsm.expected_alternating_bit == fsm.expected_alternating_bit,
        fsm.action_rat_verifier_failed().fsm.next_send_alternating_bit == fsm.next_send_alternating_bit,
        fsm.action_rat_verifier_failed().fsm.expected_alternating_bit == fsm.expected_alternating_bit,
{
    reveal(FsmView::action_stop);
    reveal(FsmView::action_close);
    reveal(FsmView::handshake_timeout_handler);
    reveal(FsmView::action_rat_prover_failed);
    reveal(FsmView::action_rat_verifier_failed);
    reveal(orderly);
    lemma_small_steps_are_mute();
    lemma_shut_is_mute(fsm);
    lemma_shut_is_mute(fsm.emit(ActionView::Send(close_message(CloseCause::UserShutdown))));
    lemma_shut_is_mute(fsm.emit(ActionView::Send(close_message(CloseCause::Timeout))));
    lemma_shut_is_mute(
        fsm.cancel(TimerId::Prover).emit(ActionView::Send(close_message(CloseCause::RatProverFailed))),
    );
    lemma_shut_is_mute(
        fsm.cancel(TimerId::Verifier).emit(ActionView::Send(close_message(CloseCause::RatVerifierFailed))),
    );
    assert(steady(fsm.action_stop().fsm)) by {
        reveal(steady);
    }
}

proof fn lemma_dat_timeout_is_orderly(fsm: FsmView, kind: EventKind, sent: bool, target: FsmState)
    requires
        table(fsm.current_state, kind) == Handler::DatTimeout(target),
    ensures
        orderly(fsm, fsm.dat_timeout_handler(sent, target).fsm),
        fsm.dat_timeout_handler(sent, target).fsm.next_send_alternating_bit == fsm.next_send_alternating_bit,
        fsm.dat_timeout_handler(sent, target).fsm.expected_alternating_bit == fsm.expected_alternating_bit,
{
    reveal(table);
    reveal(FsmView::dat_timeout_handler);
    reveal(orderly);
    reveal(steady);
    lemma_small_steps_are_mute();
    lemma_shut_is_mute(fsm.stop_driver(RatRole::Verifier).cancel(TimerId::Rat));
}

proof fn lemma_re_rat_is_orderly(fsm: FsmView, kind: EventKind, sent: bool, target: FsmState)
    requires
        table(fsm.current_state, kind) == Handler::ReRat(target),
    ensures
        orderly(fsm, fsm.action_re_rat(sent, target).fsm),
        fsm.action_re_rat(sent, target).fsm.next_send_alternating_bit == fsm.next_send_alternating_bit,
        fsm.action_re_rat(sent, target).fsm.expected_alternating_bit == fsm.expected_alternating_bit,
{
    reveal(table);
    reveal(FsmView::action_re_rat);
    reveal(orderly);
    reveal(steady);
    lemma_small_steps_are_mute();
    lemma_shut_is_mute(fsm.cancel(TimerId::Rat));
    lemma_shut_is_mute(fsm.cancel(TimerId::Rat).restart_driver(RatRole::Verifier));
}

proof fn lemma_recv_re_rat_is_orderly(fsm: FsmView, kind: EventKind, sent: bool, target: FsmState)
    requires
        table(fsm.current_state, kind) == Handler::RecvReRat(target) || table(fsm.current_state, kind)
            == Handler::DatExpired(target),
    ensures
        orderly(fsm, fsm.action_recv_re_rat(target).fsm),
        fsm.action_recv_re_rat(target).fsm.next_send_alternating_bit == fsm.next_send_alternating_bit,
        fsm.action_recv_re_rat(target).fsm.expected_alternating_bit == fsm.expected_alternating_bit,
        orderly(fsm, fsm.action_recv_dat_exp(sent, target).fsm),
        fsm.action_recv_dat_exp(sent, target).fsm.next_send_alternating_bit == fsm.next_send_alternating_bit,
        fsm.action_recv_dat_exp(sent, target).fsm.expected_alternating_bit == fsm.expected_alternating_bit,
{
    reveal(table);
    reveal(FsmView::action_recv_re_rat);
    reveal(FsmView::action_recv_dat_exp);
    reveal(orderly);
    reveal(steady);
    lemma_small_steps_are_mute();
    lemma_shut_is_mute(fsm);
    lemma_shut_is_mute(fsm.restart_driver(RatRole::Prover));
}

proof fn lemma_recv_dat_is_orderly(fsm: FsmView, kind: EventKind, validity: Option<Duration>, target: FsmState)
    requires
        table(fsm.current_state, kind) == Handler::Dat(target),
    ensures
        orderly(fsm, fsm.action_recv_dat(validity, target).fsm),
        fsm.action_recv_dat(validity, target).fsm.next_send_alternating_bit == fsm.next_send_alternating_bit,
        fsm.action_recv_dat(validity, target).fsm.expected_alternating_bit == fsm.expected_alternating_bit,
{
    reveal(table);
    reveal(FsmView::action_recv_dat);
    reveal(orderly);
    reveal(steady);
    lemma_small_steps_are_mute();
    let cancelled = fsm.cancel(TimerId::Handshake);
    lemma_shut_is_mute(cancelled.emit(ActionView::Send(close_message(CloseCause::NoValidDat))));
    if validity is Some {
        lemma_shut_is_mute(cancelled.start_dat(validity->Some_0).restart_driver(RatRole::Verifier));
    }
}

proof fn lemma_recv_hello_is_orderly(fsm: FsmView, kind: EventKind, event: EventView, validity: Option<Duration>)
    requires
        table(fsm.current_state, kind) == Handler::Hello,
    ensures
        orderly(fsm, fsm.action_recv_hello(event, validity).fsm),
        fsm.action_recv_hello(event, validity).fsm.next_send_alternating_bit == fsm.next_send_alternating_bit,
        fsm.action_recv_hello(event, validity).fsm.expected_alternating_bit == fsm.expected_alternating_bit,
{
    reveal(table);
    reveal(FsmView::action_recv_hello);
    reveal(orderly);
    reveal(steady);
    lemma_small_steps_are_mute();
    let cancelled = fsm.cancel(TimerId::Handshake);
    lemma_shut_is_mute(cancelled.emit(ActionView::Send(close_message(CloseCause::Error))));
    lemma_shut_is_mute(cancelled.emit(ActionView::Send(close_message(CloseCause::NoValidDat))));
    if validity is Some && fsm.negotiate(event) is Some {
        let (prover, verifier) = fsm.negotiate(event)->Some_0;
        let timed = cancelled.start_dat(validity->Some_0);
        let verifying = timed.start_driver(RatRole::Verifier, verifier);
        lemma_shut_is_mute(verifying);
        let watched = verifying.start(TimerId::Verifier);
        let proving = watched.start_driver(RatRole::Prover, prover);
        lemma_shut_is_mute(proving);
    }
}

proof fn lemma_attestation_verdicts_are_orderly(fsm: FsmView, kind: EventKind, target: FsmState)
    ensures
        table(fsm.current_state, kind) == Handler::ProverOk(target) ==> {
            let after = fsm.action_rat_prover_ok(target).fsm;
            &&& orderly(fsm, after)
            &&& after.next_send_alternating_bit == fsm.next_send_alternating_bit
            &&& after.expected_alternating_bit == fsm.expected_alternating_bit
        },
        table(fsm.current_state, kind) == Handler::VerifierOk(target) ==> {
            let after = fsm.action_rat_verifier_ok(target).fsm;
            &&& orderly(fsm, after)
            &&& after.next_send_alternating_bit == fsm.next_send_alternating_bit
            &&& after.expected_alternating_bit == fsm.expected_alternating_bit
        },
        table(fsm.current_state, kind) == Handler::ProverDone ==> {
            let after = fsm.action_rat_prover_done().fsm;
            &&& orderly(fsm, after)
            &&& after.next_send_alternating_bit == fsm.next_send_alternating_bit
            &&& after.expected_alternating_bit == fsm.expected_alternating_bit
        },
        table(fsm.current_state, kind) == Handler::VerifierDone ==> {
            let after = fsm.action_rat_verifier_done().fsm;
            &&& orderly(fsm, after)
            &&& after.next_send_alternating_bit == fsm.next_send_alternating_bit
            &&& after.expected_alternating_bit == fsm.expected_alternating_bit
        },
{
    reveal(table);
    reveal(FsmView::action_rat_prover_ok);
    reveal(FsmView::action_rat_verifier_ok);
    reveal(FsmView::action_rat_prover_done);
    reveal(FsmView::action_rat_verifier_done);
    reveal(orderly);
    reveal(steady);
    lemma_small_steps_are_mute();
}

proof fn lemma_forwarding_is_orderly(fsm: FsmView, role: RatRole, flag: bool)
    ensures
        orderly(fsm, fsm.action_rat_data(flag).fsm),
        fsm.action_rat_data(flag).fsm.next_send_alternating_bit == fsm.next_send_alternating_bit,
        fsm.action_rat_data(flag).fsm.expected_alternating_bit == fsm.expected_alternating_bit,
        orderly(fsm, fsm.action_delegate(role, flag).fsm),
        fsm.action_delegate(role, flag).fsm.next_send_alternating_bit == fsm.next_send_alternating_bit,
        fsm.action_delegate(role, flag).fsm.expected_alternating_bit == fsm.expected_alternating_bit,
{
    reveal(FsmView::action_rat_data);
    reveal(FsmView::action_delegate);
    reveal(orderly);
    reveal(steady);
    lemma_shut_is_mute(fsm);
}

proof fn lemma_sending_is_orderly(fsm: FsmView, kind: EventKind, payload: Seq<u8>, sent: bool)
    ensures
        table(fsm.current_state, kind) == Handler::SendData ==> {
            let after = fsm.action_send_data(payload, sent).fsm;
            &&& orderly(fsm, after)
            &&& after.next_send_alternating_bit == fsm.next_send_alternating_bit
            &&& after.expected_alternating_bit == fsm.expected_alternating_bit
        },
        table(fsm.current_state, kind) == Handler::AckTimeout ==> {
            let after = fsm.ack_timeout_handler(sent).fsm;
            &&& orderly(fsm, after)
            &&& after.next_send_alternating_bit == fsm.next_send_alternating_bit
            &&& after.expected_alternating_bit == fsm.expected_alternating_bit
        },
{
    reveal(table);
    reveal(FsmView::action_send_data);
    reveal(FsmView::ack_timeout_handler);
    reveal(orderly);
    reveal(steady);
    lemma_small_steps_are_mute();
    lemma_shut_is_mute(fsm);
}

proof fn lemma_receiving_is_orderly(fsm: FsmView, kind: EventKind, payload: Seq<u8>, bit: bool)
    ensures
        table(fsm.current_state, kind) == Handler::RecvData ==> {
            let after = fsm.action_recv_data(payload, bit).fsm;
            &&& orderly(fsm, after)
            &&& after.next_send_alternating_bit == fsm.next_send_alternating_bit
            &&& after.expected_alternating_bit == if fsm.expects(bit) {
                fsm.expected_alternating_bit.flipped()
            } else {
                fsm.expected_alternating_bit
            }
        },
        table(fsm.current_state, kind) == Handler::RecvAck ==> {
            let after = fsm.action_recv_ack(bit).fsm;
            &&& orderly(fsm, after)
            &&& after.expected_alternating_bit == fsm.expected_alternating_bit
            &&& after.next_send_alternating_bit == if fsm.acknowledges(bit) {
                fsm.next_send_alternating_bit.flipped()
            } else {
                fsm.next_send_alternating_bit
            }
        },
{
    reveal(table);
    reveal(FsmView::action_recv_data);
    reveal(FsmView::action_recv_ack);
    reveal(orderly);
    reveal(steady);
    lemma_small_steps_are_mute();
    let acked = fsm.emit(ActionView::Send(MessageView::Ack { alternating_bit: bit }));
    let flipped = FsmView { expected_alternating_bit: fsm.expected_alternating_bit.flipped(), ..acked };
    assert(mute(flipped, flipped.observe(ActionView::OnMessage(payload))));
}

/// What the guarded action of a transition may be said to do, whatever the
/// handler: it is orderly and moves the bits as is due.
pub open spec fn well_behaved(fsm: FsmView, event: EventView, answers: AnswersView) -> bool {
    &&& orderly(fsm, fsm.transition(event, answers).fsm)
    &&& bits_as_due(fsm, event, fsm.transition(event, answers).fsm)
}

// The same, handler by handler, for the transition as a whole.

proof fn lemma_turning_away_behaves(fsm: FsmView, event: EventView, answers: AnswersView)
    ensures
        ({
            let h = table(fsm.current_state, event.kind());
            h is Unknown || h is Locked || h is NotStarted || h is Ignore || h is NotConnected || h is WouldBlock
        }) ==> well_behaved(fsm, event, answers),
{
    reveal(FsmView::transition);
    reveal(bits_as_due);
    assert(orderly(fsm, fsm)) by {
        reveal(orderly);
        reveal(steady);
    }
}

proof fn lemma_closing_behaves(fsm: FsmView, event: EventView, answers: AnswersView)
    ensures
        ({
            let h = table(fsm.current_state, event.kind());
            h is Stop || h is Close || h is HandshakeTimeout || h is ProverFailed || h is VerifierFailed
        }) ==> well_behaved(fsm, event, answers),
{
    reveal(FsmView::transition);
    reveal(bits_as_due);
    lemma_closing_is_orderly(fsm);
}

proof fn lemma_handshake_behaves(fsm: FsmView, event: EventView, answers: AnswersView)
    ensures
        ({
            let h = table(fsm.current_state, event.kind());
            h is StartHandshake || h is Hello
        }) ==> well_behaved(fsm, event, answers),
{
    reveal(FsmView::transition);
    reveal(bits_as_due);
    let kind = event.kind();
    match table(fsm.current_state, kind) {
        Handler::StartHandshake => lemma_start_handshake_is_orderly(fsm, kind, answers.sent == Some(true)),
        Handler::Hello => lemma_recv_hello_is_orderly(fsm, kind, event, crate::fsm::model::verdict(answers)),
        _ => {},
    }
}

proof fn lemma_renewal_behaves(fsm: FsmView, event: EventView, answers: AnswersView)
    ensures
        ({
            let h = table(fsm.current_state, event.kind());
            h is DatTimeout || h is ReRat || h is RecvReRat || h is DatExpired || h is Dat
        }) ==> well_behaved(fsm, event, answers),
{
    reveal(FsmView::transition);
    reveal(bits_as_due);
    let kind = event.kind();
    let sent = answers.sent == Some(true);
    match table(fsm.current_state, kind) {
        Handler::DatTimeout(target) => lemma_dat_timeout_is_orderly(fsm, kind, sent, target),
        Handler::ReRat(target) => lemma_re_rat_is_orderly(fsm, kind, sent, target),
        Handler::RecvReRat(target) => lemma_recv_re_rat_is_orderly(fsm, kind, sent, target),
        Handler::DatExpired(target) => lemma_recv_re_rat_is_orderly(fsm, kind, sent, target),
        Handler::Dat(target) => lemma_recv_dat_is_orderly(fsm, kind, crate::fsm::model::verdict(answers), target),
        _ => {},
    }
}

proof fn lemma_attestation_behaves(fsm: FsmView, event: EventView, answers: AnswersView)
    ensures
        ({
            let h = table(fsm.current_state, event.kind());
            h is ProverOk || h is VerifierOk || h is ProverDone || h is VerifierDone || h is ProverData
                || h is VerifierData || h is DelegateProver || h is DelegateVerifier
        }) ==> well_behaved(fsm, event, answers),
{
    reveal(FsmView::transition);
    reveal(bits_as_due);
    let kind = event.kind();
    match table(fsm.current_state, kind) {
        Handler::ProverOk(target) => lemma_attestation_verdicts_are_orderly(fsm, kind, target),
        Handler::VerifierOk(target) => lemma_attestation_verdicts_are_orderly(fsm, kind, target),
        Handler::ProverDone => lemma_attestation_verdicts_are_orderly(fsm, kind, fsm.current_state),
        Handler::VerifierDone => lemma_attestation_verdicts_are_orderly(fsm, kind, fsm.current_state),
        Handler::ProverData => lemma_forwarding_is_orderly(fsm, RatRole::Prover, answers.sent == Some(true)),
        Handler::VerifierData => lemma_forwarding_is_orderly(fsm, RatRole::Prover, answers.sent == Some(true)),
        Handler::DelegateProver => lemma_forwarding_is_orderly(
            fsm,
            RatRole::Verifier,
            answers.written == Some(true),
        ),
        Handler::DelegateVerifier => lemma_forwarding_is_orderly(
            fsm,
            RatRole::Prover,
            answers.written == Some(true),
        ),
        _ => {},
    }
}

proof fn lemma_data_phase_behaves(fsm: FsmView, event: EventView, answers: AnswersView)
    ensures
        ({
            let h = table(fsm.current_state, event.kind());
            h is SendData || h is AckTimeout || h is RecvData || h is RecvAck
        }) ==> well_behaved(fsm, event, answers),
{
    reveal(FsmView::transition);
    reveal(bits_as_due);
    let kind = event.kind();
    lemma_sending_is_orderly(fsm, kind, event.bytes(), answers.sent == Some(true));
    lemma_receiving_is_orderly(fsm, kind, event.bytes(), event.bit());
}

/// The guarded action of every transition is orderly and moves the bits as
/// is due.
pub proof fn lemma_transition_behaves(fsm: FsmView, event: EventView, answers: AnswersView)
    ensures
        well_behaved(fsm, event, answers),
{
    lemma_turning_away_behaves(fsm, event, answers);
    lemma_closing_behaves(fsm, event, answers);
    lemma_handshake_behaves(fsm, event, answers);
    lemma_renewal_behaves(fsm, event, answers);
    lemma_attestation_behaves(fsm, event, answers);
    lemma_data_phase_behaves(fsm, event, answers);
}

/// Whatever event is offered with whatever answers, a sound machine stays
/// sound.
pub proof fn lemma_process_event_keeps_sound(fsm: FsmView, event: EventView, answers: AnswersView)
    requires
        sound(fsm),
    ensures
        sound(fsm.process_event(event, answers).fsm),
{
    reveal(FsmView::process_event);
    reveal(orderly);
    lemma_transition_behaves(fsm, event, answers);
    lemma_publish_settles(fsm.transition(event, answers).fsm);
}

/// The acknowledgement timer goes off while the machine waits for the
/// acknowledgement.
proof fn lemma_ack_expiry_keeps_sound(fsm: FsmView, answers: AnswersView)
    requires
        sound(fsm),
        fsm.current_state == FsmState::WaitForAck,
    ensures
        fsm.cancel(TimerId::Ack).process_event(EventView::AckTimeout, answers).step is Done ==> sound(
            fsm.cancel(TimerId::Ack).process_event(EventView::AckTimeout, answers).fsm,
        ),
{
    let disarmed = fsm.cancel(TimerId::Ack);
    assert(table(disarmed.current_state, EventKind::AckTimeout) == Handler::AckTimeout) by {
        reveal(table);
    }
    let after = disarmed.ack_timeout_handler(answers.sent == Some(true)).fsm;
    assert(steady(after)) by {
        reveal(FsmView::ack_timeout_handler);
        lemma_small_steps_are_mute();
        lemma_shut_is_mute(disarmed);
        reveal(steady);
    }
    assert(disarmed.transition(EventView::AckTimeout, answers).fsm == after) by {
        reveal(FsmView::transition);
    }
    lemma_publish_settles(after);
    reveal(FsmView::process_event);
}

/// One of the three timers of the handshake goes off where the table
/// answers a handshake timeout by ending the session.
proof fn lemma_handshake_expiry_keeps_sound(fsm: FsmView, timer: TimerId, answers: AnswersView)
    requires
        table(fsm.current_state, EventKind::HandshakeTimeout) == Handler::HandshakeTimeout,
    ensures
        fsm.cancel(timer).process_event(EventView::HandshakeTimeout, answers).step is Done ==> sound(
            fsm.cancel(timer).process_event(EventView::HandshakeTimeout, answers).fsm,
        ),
{
    let disarmed = fsm.cancel(timer);
    let after = disarmed.handshake_timeout_handler().fsm;
    assert(steady(after)) by {
        reveal(FsmView::handshake_timeout_handler);
        lemma_shut_is_mute(disarmed.emit(ActionView::Send(close_message(CloseCause::Timeout))));
    }
    assert(disarmed.transition(EventView::HandshakeTimeout, answers).fsm == after) by {
        reveal(FsmView::transition);
    }
    lemma_publish_settles(after);
    reveal(FsmView::process_event);
}

/// A machine whose timer has just gone off and is no longer armed, on the
/// way to the event that the expiry stands for.
proof fn lemma_expiry_keeps_sound(fsm: FsmView, timer: TimerId, answers: AnswersView)
    requires
        sound(fsm),
    ensures
        fsm.cancel(timer).process_event(timeout_event(timer), answers).step is Done ==> sound(
            fsm.cancel(timer).process_event(timeout_event(timer), answers).fsm,
        ),
{
    let disarmed = fsm.cancel(timer);
    let event = timeout_event(timer);
    if sound(disarmed) {
        lemma_process_event_keeps_sound(disarmed, event, answers);
    } else if timer == TimerId::Ack {
        lemma_ack_expiry_keeps_sound(fsm, answers);
    } else {
        assert(table(fsm.current_state, EventKind::HandshakeTimeout) == Handler::HandshakeTimeout) by {
            reveal(table);
        }
        lemma_handshake_expiry_keeps_sound(fsm, timer, answers);
    }
}

/// Every entry point keeps a sound machine sound: the report of a timer, a
/// message of a worker, and the binding of a connection.
pub proof fn lemma_entry_points_keep_sound(
    fsm: FsmView,
    timer: TimerId,
    ticket: u64,
    role: RatRole,
    session: u64,
    msg: RatMessageView,
    connection: Option<u64>,
    answers: AnswersView,
)
    requires
        sound(fsm),
    ensures
        fsm.timer_expired(timer, ticket, answers) is Some ==> sound(
            fsm.timer_expired(timer, ticket, answers)->Some_0.fsm,
        ),
        fsm.feed_driver_message(role, session, msg, answers) is Some ==> sound(
            fsm.feed_driver_message(role, session, msg, answers)->Some_0.fsm,
        ),
        sound(fsm.set_connection(connection)),
{
    lemma_expiry_keeps_sound(fsm, timer, answers);
    lemma_process_event_keeps_sound(fsm, driver_event(role, msg), answers);
}

} // verus!
