//! What holds of the machine whatever it is offered.

use crate::drivers::rat_driver::{RatMessageView, RatRole};
use crate::fsm::action::{ActionView, AnswersView, StepView};
use crate::fsm::event::{EventView, SecureChannelEventView, UserEventView};
use crate::fsm::fsm_timer::TimerId;
use crate::fsm::model::{AckFlagView, FsmView, Offer};
use crate::fsm::soundness::{
    bits_as_due, calm, lemma_process_event_keeps_sound, lemma_transition_behaves, orderly, quiet, sound,
    waits_for_dat,
};
use crate::fsm::table::{in_data_phase, locked, table, Handler};
use crate::fsm::{ClosedStateStatus, FsmError, FsmState, HandshakeResult};
use crate::messages::MessageView;
use std::time::Duration;
use vstd::prelude::*;

verus! {

/// On the side that transmits, a message is pending exactly while the
/// machine waits for an acknowledgement: not in the established state, nor
/// before the handshake.
pub proof fn lemma_ack_flag_marks_the_wait(fsm: FsmView)
    requires
        sound(fsm),
    ensures
        in_data_phase(fsm.current_state) ==> (fsm.ack_flag is Active <==> fsm.current_state
            == FsmState::WaitForAck),
        fsm.current_state == FsmState::WaitForAck ==> fsm.ack_timer.armed,
        fsm.current_state == FsmState::WaitForHello || fsm.current_state == FsmState::Closed(
            ClosedStateStatus::Unlocked,
        ) ==> fsm.ack_flag is Inactive,
{
}

/// The locked state is absorbing. Whatever is offered, the machine stays
/// locked and answers that it is; a sound machine does not change at all and
/// asks nothing of its caller.
pub proof fn lemma_locked_is_absorbing(fsm: FsmView, event: EventView, answers: AnswersView)
    requires
        fsm.current_state == locked(),
    ensures
        fsm.process_event(event, answers).fsm.current_state == locked(),
        fsm.process_event(event, answers).step is Done,
        fsm.process_event(event, answers).step->result == Err::<(), FsmError>(FsmError::FsmLocked),
        sound(fsm) ==> fsm.process_event(event, answers) == (Offer {
            fsm,
            step: StepView::Done { result: Err(FsmError::FsmLocked), actions: Seq::empty() },
        }),
{
    reveal(FsmView::process_event);
    reveal(FsmView::request);
    reveal(FsmView::transition);
    reveal(table);
    if sound(fsm) {
        assert(fsm.outbox =~= Seq::empty());
    }
}

/// A token timeout that reaches a locked machine is a no-op.
pub proof fn lemma_late_dat_timeout_is_dropped(fsm: FsmView, answers: AnswersView)
    requires
        sound(fsm),
        fsm.current_state == locked(),
    ensures
        fsm.process_event(EventView::DatTimeout, answers).fsm == fsm,
        fsm.process_event(EventView::DatTimeout, answers).step == (StepView::Done {
            result: Err(FsmError::FsmLocked),
            actions: Seq::empty(),
        }),
{
    lemma_locked_is_absorbing(fsm, EventView::DatTimeout, answers);
}

/// The send bit flips exactly when an acknowledgement is processed that
/// answers the pending message, and the receive bit exactly when a data
/// message is processed that carries the expected bit.
pub proof fn lemma_bits_flip_only_when_due(fsm: FsmView, event: EventView, answers: AnswersView)
    ensures
        ({
            let after = fsm.process_event(event, answers).fsm;
            let valid_ack = table(fsm.current_state, event.kind()) == Handler::RecvAck && fsm.acknowledges(
                event.bit(),
            );
            let matching_data = table(fsm.current_state, event.kind()) == Handler::RecvData && fsm.expects(
                event.bit(),
            );
            &&& valid_ack ==> after.next_send_alternating_bit == fsm.next_send_alternating_bit.flipped()
            &&& !valid_ack ==> after.next_send_alternating_bit == fsm.next_send_alternating_bit
            &&& matching_data ==> after.expected_alternating_bit == fsm.expected_alternating_bit.flipped()
            &&& !matching_data ==> after.expected_alternating_bit == fsm.expected_alternating_bit
            &&& (after.next_send_alternating_bit != fsm.next_send_alternating_bit <==> valid_ack)
            &&& (after.expected_alternating_bit != fsm.expected_alternating_bit <==> matching_data)
        }),
{
    reveal(FsmView::process_event);
    reveal(FsmView::request);
    reveal(bits_as_due);
    lemma_transition_behaves(fsm, event, answers);
}

/// The handshake result is written at most once, and published when it is
/// written. A transition publishes it exactly if none was out before and
/// the machine ends up established or locked; the publication then is the
/// last of the transition's actions and tells what the machine holds. The
/// result that is out never changes again.
pub proof fn lemma_result_is_published_once(fsm: FsmView, event: EventView, answers: AnswersView)
    requires
        quiet(fsm.outbox),
    ensures
        ({
            let offer = fsm.process_event(event, answers);
            let due = !fsm.handshake_result_available() && offer.step is Done && (offer.fsm.current_state
                == FsmState::Established || offer.fsm.current_state == locked());
            &&& fsm.handshake_result_available() ==> offer.fsm.handshake_result == fsm.handshake_result
            &&& offer.fsm.handshake_result_available() <==> fsm.handshake_result_available() || due
            &&& due ==> offer.fsm.handshake_result == if offer.fsm.current_state == FsmState::Established {
                HandshakeResult::Successful
            } else {
                HandshakeResult::Failed
            }
            &&& offer.step is Done ==> {
                let actions = offer.step->actions;
                if due {
                    &&& actions.len() > 0
                    &&& actions.last() == ActionView::Publish(offer.fsm.handshake_result)
                    &&& quiet(actions.drop_last())
                } else {
                    quiet(actions)
                }
            }
            &&& quiet(offer.fsm.outbox)
        }),
{
    reveal(FsmView::process_event);
    reveal(orderly);
    lemma_transition_behaves(fsm, event, answers);
    let offer = fsm.process_event(event, answers);
    if offer.step is Done {
        let attempt = fsm.transition(event, answers);
        assert(quiet(attempt.fsm.outbox));
        let published = attempt.fsm.publish();
        if published.outbox != attempt.fsm.outbox {
            assert(published.outbox.drop_last() =~= attempt.fsm.outbox);
        }
    }
    assert(quiet(Seq::<ActionView>::empty())) by {
        reveal(quiet);
    }
}

/// Calls to the connection wait until the upper layer has bound a
/// connection or declined to: until then no transition hands a call out,
/// whatever it is offered.
pub proof fn lemma_calls_wait_for_the_connection(fsm: FsmView, event: EventView, answers: AnswersView)
    requires
        !fsm.connection_available,
        calm(fsm.outbox),
    ensures
        !fsm.process_event(event, answers).fsm.connection_available,
        calm(fsm.process_event(event, answers).fsm.outbox),
        fsm.process_event(event, answers).step is Done ==> calm(fsm.process_event(event, answers).step->actions),
{
    reveal(FsmView::process_event);
    reveal(orderly);
    lemma_transition_behaves(fsm, event, answers);
    let attempt = fsm.transition(event, answers);
    assert(calm(attempt.fsm.publish().outbox)) by {
        reveal(calm);
    }
    assert(calm(Seq::<ActionView>::empty())) by {
        reveal(calm);
    }
}

/// A stop of the upper layer is honoured in every state of a started
/// session: the machine is locked afterwards, and no answer is needed.
pub proof fn lemma_stop_locks(fsm: FsmView, answers: AnswersView)
    requires
        !(fsm.current_state is Closed),
    ensures
        fsm.process_event(EventView::FromUpper(UserEventView::Stop), answers).fsm.current_state == locked(),
        fsm.process_event(EventView::FromUpper(UserEventView::Stop), answers).step is Done,
        fsm.process_event(EventView::FromUpper(UserEventView::Stop), answers).step->result == Ok::<(), FsmError>(
            (),
        ),
{
    reveal(FsmView::process_event);
    reveal(FsmView::request);
    reveal(FsmView::transition);
    reveal(FsmView::action_stop);
    reveal(table);
}

/// Start, then stop: a machine that was started from the unlocked state and
/// whose hello went out waits for the peer's hello, and a stop locks it.
pub proof fn lemma_start_then_stop(fsm: FsmView, first: AnswersView, second: AnswersView)
    requires
        fsm.current_state == FsmState::Closed(ClosedStateStatus::Unlocked),
        first.token is Some,
        first.sent == Some(true),
    ensures
        ({
            let started = fsm.process_event(EventView::FromUpper(UserEventView::StartHandshake), first);
            let stopped = started.fsm.process_event(EventView::FromUpper(UserEventView::Stop), second);
            &&& started.step is Done
            &&& started.step->result == Ok::<(), FsmError>(())
            &&& started.fsm.current_state == FsmState::WaitForHello
            &&& stopped.fsm.current_state == locked()
        }),
{
    let start = EventView::FromUpper(UserEventView::StartHandshake);
    assert(fsm.process_event(start, first).step is Done && fsm.process_event(start, first).step->result == Ok::<
        (),
        FsmError,
    >(()) && fsm.process_event(start, first).fsm.current_state == FsmState::WaitForHello) by {
        reveal(FsmView::process_event);
        reveal(FsmView::request);
        reveal(FsmView::transition);
        reveal(FsmView::action_start_handshake);
        reveal(table);
    }
    lemma_stop_locks(fsm.process_event(start, first).fsm, second);
}

/// A valid exchange: the upper layer sends data from the established state
/// and the channel takes it, then the peer acknowledges with the bit that
/// the data went out with. The machine waits for the acknowledgement with
/// the payload pending and the bit unchanged, and is established again
/// afterwards, with the send bit flipped and nothing pending.
pub proof fn lemma_acknowledged_send(fsm: FsmView, payload: Seq<u8>, first: AnswersView, second: AnswersView)
    requires
        fsm.current_state == FsmState::Established,
        first.sent == Some(true),
    ensures
        ({
            let sent = fsm.process_event(EventView::FromUpper(UserEventView::Data(payload)), first);
            let acked = sent.fsm.process_event(
                EventView::FromSecureChannel(
                    SecureChannelEventView::Message(
                        MessageView::Ack { alternating_bit: fsm.next_send_alternating_bit.spec_as_bool() },
                    ),
                ),
                second,
            );
            &&& sent.step is Done
            &&& sent.fsm.current_state == FsmState::WaitForAck
            &&& sent.fsm.ack_flag == AckFlagView::Active(payload)
            &&& sent.fsm.next_send_alternating_bit == fsm.next_send_alternating_bit
            &&& acked.step is Done
            &&& acked.step->result == Ok::<(), FsmError>(())
            &&& acked.fsm.current_state == FsmState::Established
            &&& acked.fsm.next_send_alternating_bit == fsm.next_send_alternating_bit.flipped()
            &&& acked.fsm.ack_flag == AckFlagView::Inactive
        }),
{
    let data = EventView::FromUpper(UserEventView::Data(payload));
    let sent = fsm.process_event(data, first);
    assert(sent.step is Done && sent.fsm.current_state == FsmState::WaitForAck && sent.fsm.ack_flag
        == AckFlagView::Active(payload) && sent.fsm.next_send_alternating_bit == fsm.next_send_alternating_bit)
        by {
        reveal(FsmView::process_event);
        reveal(FsmView::request);
        reveal(FsmView::transition);
        reveal(FsmView::action_send_data);
        reveal(table);
    }
    let ack = EventView::FromSecureChannel(
        SecureChannelEventView::Message(
            MessageView::Ack { alternating_bit: fsm.next_send_alternating_bit.spec_as_bool() },
        ),
    );
    assert(sent.fsm.acknowledges(ack.bit()));
    reveal(FsmView::process_event);
    reveal(FsmView::request);
    reveal(FsmView::transition);
    reveal(FsmView::action_recv_ack);
    reveal(table);
}

/// The acknowledgement timer goes off while no message is pending: the
/// caller is told that nothing is cached, and the machine stays as it is.
pub proof fn lemma_ack_timeout_without_pending_message(fsm: FsmView, answers: AnswersView)
    requires
        fsm.current_state == FsmState::WaitForAck,
        fsm.ack_flag is Inactive,
    ensures
        fsm.process_event(EventView::AckTimeout, answers).step == (StepView::Done {
            result: Err(FsmError::IdscpDataNotCached),
            actions: fsm.outbox,
        }),
        fsm.process_event(EventView::AckTimeout, answers).fsm == (FsmView { outbox: Seq::empty(), ..fsm }),
{
    reveal(FsmView::process_event);
    reveal(FsmView::request);
    reveal(FsmView::transition);
    reveal(FsmView::ack_timeout_handler);
    reveal(table);
}

/// A data message of the peer with the wrong bit is dropped in the data
/// phase: nothing is acknowledged, nothing handed to the connection, the
/// expected bit and the state stay.
pub proof fn lemma_unexpected_data_is_dropped(fsm: FsmView, payload: Seq<u8>, bit: bool, answers: AnswersView)
    requires
        sound(fsm),
        in_data_phase(fsm.current_state),
        !fsm.expects(bit),
    ensures
        ({
            let event = EventView::FromSecureChannel(
                SecureChannelEventView::Message(MessageView::Data { payload, alternating_bit: bit }),
            );
            &&& fsm.process_event(event, answers).fsm == fsm
            &&& fsm.process_event(event, answers).step == (StepView::Done {
                result: Ok(()),
                actions: Seq::empty(),
            })
        }),
{
    reveal(FsmView::process_event);
    reveal(FsmView::request);
    reveal(FsmView::transition);
    reveal(FsmView::action_recv_data);
    reveal(table);
    assert(fsm.outbox =~= Seq::empty());
}

/// A data message of the peer with the expected bit, in the data phase: it
/// is acknowledged with its bit, the expected bit flips, the payload goes to
/// the connection that is bound, and the state stays.
pub proof fn lemma_expected_data_is_delivered(fsm: FsmView, payload: Seq<u8>, bit: bool, answers: AnswersView)
    requires
        sound(fsm),
        in_data_phase(fsm.current_state),
        fsm.expects(bit),
        fsm.connection_available,
        fsm.idscp_connection is Some,
    ensures
        ({
            let event = EventView::FromSecureChannel(
                SecureChannelEventView::Message(MessageView::Data { payload, alternating_bit: bit }),
            );
            &&& fsm.process_event(event, answers).fsm == (FsmView {
                expected_alternating_bit: fsm.expected_alternating_bit.flipped(),
                ..fsm
            })
            &&& fsm.process_event(event, answers).step == (StepView::Done {
                result: Ok(()),
                actions: seq![
                    ActionView::Send(MessageView::Ack { alternating_bit: bit }),
                    ActionView::OnMessage(payload),
                ],
            })
        }),
{
    reveal(FsmView::process_event);
    reveal(FsmView::request);
    reveal(FsmView::transition);
    reveal(FsmView::action_recv_data);
    reveal(table);
    assert(fsm.outbox =~= Seq::empty());
    let event = EventView::FromSecureChannel(
        SecureChannelEventView::Message(MessageView::Data { payload, alternating_bit: bit }),
    );
    assert(fsm.process_event(event, answers).step->actions =~= seq![
        ActionView::Send(MessageView::Ack { alternating_bit: bit }),
        ActionView::OnMessage(payload),
    ]);
}

/// How many of the actions publish a handshake result.
pub open spec fn publications(actions: Seq<ActionView>) -> nat
    decreases actions.len(),
{
    if actions.len() == 0 {
        0
    } else {
        publications(actions.drop_last()) + if actions.last() is Publish {
            1nat
        } else {
            0nat
        }
    }
}

/// The machine after a series of offers, each an event with the answers
/// that came with it.
pub open spec fn machine_after(fsm: FsmView, offers: Seq<(EventView, AnswersView)>) -> FsmView
    decreases offers.len(),
{
    if offers.len() == 0 {
        fsm
    } else {
        machine_after(fsm, offers.drop_last()).process_event(offers.last().0, offers.last().1).fsm
    }
}

/// How many publications of a handshake result a series of offers has
/// handed to the caller, all steps taken together.
pub open spec fn publications_during(fsm: FsmView, offers: Seq<(EventView, AnswersView)>) -> nat
    decreases offers.len(),
{
    if offers.len() == 0 {
        0
    } else {
        publications_during(fsm, offers.drop_last()) + match machine_after(
            fsm,
            offers.drop_last(),
        ).process_event(offers.last().0, offers.last().1).step {
            StepView::Done { actions, .. } => publications(actions),
            StepView::Ask(_) => 0nat,
        }
    }
}

/// Every machine that can be reached is sound: whatever series of events and
/// answers a sound machine is offered, and a new machine is sound, it is
/// sound after each of them.
pub proof fn lemma_reachable_machines_are_sound(fsm: FsmView, offers: Seq<(EventView, AnswersView)>)
    requires
        sound(fsm),
    ensures
        sound(machine_after(fsm, offers)),
    decreases offers.len(),
{
    if offers.len() > 0 {
        lemma_reachable_machines_are_sound(fsm, offers.drop_last());
        lemma_process_event_keeps_sound(
            machine_after(fsm, offers.drop_last()),
            offers.last().0,
            offers.last().1,
        );
    }
}

/// A quiet list holds no publication.
proof fn lemma_quiet_holds_no_publication(actions: Seq<ActionView>)
    requires
        quiet(actions),
    ensures
        publications(actions) == 0,
    decreases actions.len(),
{
    reveal(quiet);
    if actions.len() > 0 {
        assert(!(actions[actions.len() - 1] is Publish));
        assert(quiet(actions.drop_last()));
        lemma_quiet_holds_no_publication(actions.drop_last());
    }
}

/// Over the whole life of a machine the handshake result is published
/// exactly once if it is ever out, and not at all before: whatever is
/// offered to a machine that holds no result, the steps together hand out
/// one publication if the machine holds a result in the end, else none. A
/// machine that holds a result at the start keeps it and publishes nothing.
pub proof fn lemma_one_publication_in_a_lifetime(fsm: FsmView, offers: Seq<(EventView, AnswersView)>)
    requires
        quiet(fsm.outbox),
    ensures
        quiet(machine_after(fsm, offers).outbox),
        fsm.handshake_result_available() ==> machine_after(fsm, offers).handshake_result
            == fsm.handshake_result,
        publications_during(fsm, offers) == if !fsm.handshake_result_available() && machine_after(
            fsm,
            offers,
        ).handshake_result_available() {
            1nat
        } else {
            0nat
        },
    decreases offers.len(),
{
    if offers.len() > 0 {
        let earlier = offers.drop_last();
        lemma_one_publication_in_a_lifetime(fsm, earlier);
        let mid = machine_after(fsm, earlier);
        let offer = mid.process_event(offers.last().0, offers.last().1);
        lemma_result_is_published_once(mid, offers.last().0, offers.last().1);
        match offer.step {
            StepView::Done { actions, .. } => {
                let due = !mid.handshake_result_available() && (offer.fsm.current_state == FsmState::Established
                    || offer.fsm.current_state == locked());
                if due {
                    lemma_quiet_holds_no_publication(actions.drop_last());
                } else {
                    lemma_quiet_holds_no_publication(actions);
                }
            },
            StepView::Ask(_) => {
                assert(offer.fsm == mid) by {
                    reveal(FsmView::process_event);
                }
            },
        }
    }
}

/// The wait for a token of the peer is never left with the handshake timer
/// armed: whenever a transition leads out of the two states in which the
/// machine waits for a token, the timer has been cancelled on the way.
pub proof fn lemma_token_wait_ends_with_handshake_timer_disarmed(
    fsm: FsmView,
    event: EventView,
    answers: AnswersView,
)
    requires
        waits_for_dat(fsm.current_state),
    ensures
        !waits_for_dat(fsm.process_event(event, answers).fsm.current_state) ==> !fsm.process_event(
            event,
            answers,
        ).fsm.handshake_timer.armed,
{
    reveal(FsmView::process_event);
    reveal(orderly);
    lemma_transition_behaves(fsm, event, answers);
}

/// Once a worker is stopped, nothing that a listener of its role reports
/// reaches the machine any more, under whatever session number.
pub proof fn lemma_no_worker_message_after_stop(
    fsm: FsmView,
    role: RatRole,
    session: u64,
    msg: RatMessageView,
    answers: AnswersView,
)
    ensures
        fsm.stop_driver(role).feed_driver_message(role, session, msg, answers) is None,
        fsm.cleanup().feed_driver_message(role, session, msg, answers) is None,
{
}

/// The wake-up of a timer that was cancelled, or started again since the
/// wake-up was scheduled, is dropped.
pub proof fn lemma_stale_wake_up_is_dropped(fsm: FsmView, timer: TimerId, ticket: u64, answers: AnswersView)
    ensures
        fsm.cancel(timer).timer_expired(timer, ticket, answers) is None,
        fsm.accepts(timer, ticket) && timer != TimerId::Dat ==> fsm.start(timer).timer_expired(
            timer,
            ticket,
            answers,
        ) is None,
        fsm.accepts(timer, ticket) && timer == TimerId::Dat ==> forall|delay: Duration|
            (#[trigger] fsm.start_dat(delay)).timer_expired(timer, ticket, answers) is None,
{
}

} // verus!
