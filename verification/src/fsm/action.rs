//! What a transition asks of its caller.
//!
//! The machine performs no I/O. Work whose outcome does not matter to the
//! transition is returned as a list of [`Action`]s, to be carried out in
//! order. Where the outcome decides how the transition ends, the machine
//! returns a [`Request`] instead and changes nothing; the caller obtains the
//! answer, records it in [`Answers`] and offers the same event again.

use crate::drivers::rat_driver::RatRole;
use crate::fsm::fsm_timer::TimerId;
use crate::fsm::FsmError;
use crate::fsm::HandshakeResult;
use crate::messages::{IdscpMessage, MessageView};
use std::time::Duration;
use vstd::prelude::*;

verus! {

/// Work for the caller: carried out after the transition, in order, with no
/// answer expected.
#[derive(Debug, PartialEq, Eq)]
pub enum Action {
    /// Let the reader of the secure channel deliver what it receives.
    UnlockChannel,
    /// Terminate the secure channel and its reader.
    StopChannel,
    /// Send a message to the peer; a failure is of no consequence.
    Send(IdscpMessage),
    /// Schedule a wake-up that reports this ticket after the delay.
    StartTimer { timer: TimerId, ticket: u64, delay: Duration },
    /// Start a worker of the named driver, and a listener that reports what
    /// the worker sends under this session number.
    LaunchDriver { role: RatRole, driver: String, session: u64 },
    /// Wake the listener of this session and drop both channel ends.
    StopDriver { role: RatRole, session: u64 },
    /// Hand a payload to the connection.
    OnMessage(Vec<u8>),
    /// Tell the connection that the session is closed.
    OnClose,
    /// Publish the result of the handshake to whoever waits for it.
    Publish(HandshakeResult),
}

pub enum ActionView {
    UnlockChannel,
    StopChannel,
    Send(MessageView),
    StartTimer { timer: TimerId, ticket: u64, delay: Duration },
    LaunchDriver { role: RatRole, driver: Seq<char>, session: u64 },
    StopDriver { role: RatRole, session: u64 },
    OnMessage(Seq<u8>),
    OnClose,
    Publish(HandshakeResult),
}

impl View for Action {
    type V = ActionView;

    open spec fn view(&self) -> ActionView {
        match *self {
            Action::UnlockChannel => ActionView::UnlockChannel,
            Action::StopChannel => ActionView::StopChannel,
            Action::Send(msg) => ActionView::Send(msg@),
            Action::StartTimer { timer, ticket, delay } => ActionView::StartTimer { timer, ticket, delay },
            Action::LaunchDriver { role, driver, session } => ActionView::LaunchDriver {
                role,
                driver: driver@,
                session,
            },
            Action::StopDriver { role, session } => ActionView::StopDriver { role, session },
            Action::OnMessage(payload) => ActionView::OnMessage(payload@),
            Action::OnClose => ActionView::OnClose,
            Action::Publish(result) => ActionView::Publish(result),
        }
    }
}

/// The actions of a list, in order.
pub open spec fn actions_view(actions: Seq<Action>) -> Seq<ActionView> {
    Seq::new(actions.len(), |i: int| actions[i]@)
}

/// Appends one action to a list.
pub fn emit(actions: &mut Vec<Action>, action: Action)
    ensures
        actions_view(final(actions)@) == actions_view(old(actions)@).push(action@),
{
    actions.push(action);
    proof {
        assert(actions_view(actions@) =~= actions_view(old(actions)@).push(action@));
    }
}

/// A question to the outside whose answer decides how a transition ends.
#[derive(Clone, Debug, PartialEq, Eq)]
pub enum Request {
    /// A fresh token of this endpoint, from the token service.
    GetToken,
    /// The token service's verdict on the peer's token.
    VerifyToken(Vec<u8>),
    /// Send a message to the peer and report whether the channel took it.
    Send(IdscpMessage),
    /// Pass bytes to the running worker of a role and report whether its
    /// channel took them.
    WriteToDriver { role: RatRole, data: Vec<u8> },
}

pub enum RequestView {
    GetToken,
    VerifyToken(Seq<u8>),
    Send(MessageView),
    WriteToDriver { role: RatRole, data: Seq<u8> },
}

impl View for Request {
    type V = RequestView;

    open spec fn view(&self) -> RequestView {
        match *self {
            Request::GetToken => RequestView::GetToken,
            Request::VerifyToken(token) => RequestView::VerifyToken(token@),
            Request::Send(msg) => RequestView::Send(msg@),
            Request::WriteToDriver { role, data } => RequestView::WriteToDriver { role, data: data@ },
        }
    }
}

/// The answers that the caller has collected for the event it offers.
#[derive(Clone, Debug, PartialEq, Eq)]
pub struct Answers {
    /// The token service's fresh token.
    pub token: Option<Vec<u8>>,
    /// The verdict on the peer's token: its remaining validity, or `None`
    /// where the token is not valid.
    pub validity: Option<Option<Duration>>,
    /// Whether the secure channel took the message.
    pub sent: Option<bool>,
    /// Whether the worker's channel took the bytes.
    pub written: Option<bool>,
}

pub struct AnswersView {
    pub token: Option<Seq<u8>>,
    pub validity: Option<Option<Duration>>,
    pub sent: Option<bool>,
    pub written: Option<bool>,
}

impl View for Answers {
    type V = AnswersView;

    open spec fn view(&self) -> AnswersView {
        AnswersView {
            token: crate::messages::token_view(self.token),
            validity: self.validity,
            sent: self.sent,
            written: self.written,
        }
    }
}

impl Answers {
    /// No answer yet: what a caller starts every event with.
    pub fn none() -> (answers: Answers)
        ensures
            answers@ == (AnswersView { token: None, validity: None, sent: None, written: None }),
    {
        Answers { token: None, validity: None, sent: None, written: None }
    }
}

/// How the offer of an event ended.
#[derive(Debug, PartialEq, Eq)]
pub enum Step {
    /// An answer is missing. The machine is as it was.
    Ask(Request),
    /// The transition was made.
    Done { result: Result<(), FsmError>, actions: Vec<Action> },
}

pub enum StepView {
    Ask(RequestView),
    Done { result: Result<(), FsmError>, actions: Seq<ActionView> },
}

impl View for Step {
    type V = StepView;

    open spec fn view(&self) -> StepView {
        match *self {
            Step::Ask(request) => StepView::Ask(request@),
            Step::Done { result, actions } => StepView::Done { result, actions: actions_view(actions@) },
        }
    }
}

} // verus!
