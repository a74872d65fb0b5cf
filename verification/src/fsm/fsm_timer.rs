//! One-shot timers as the state machine sees them.
//!
//! A timer here neither sleeps nor wakes anything. `start` hands out a ticket,
//! the caller schedules a wake-up that carries the ticket, and `expire` tells
//! whether a wake-up that comes back is still the one the timer waits for. A
//! later `start` or a `cancel` turns every earlier ticket into a no-op.

use std::time::Duration;
use vstd::prelude::*;

verus! {

/// The generation that follows `generation`; the counter wraps around.
pub open spec fn next_generation(generation: u64) -> u64 {
    if generation == u64::MAX {
        0
    } else {
        (generation + 1) as u64
    }
}

/// The six timers of a session.
#[derive(Clone, Copy, Debug, PartialEq, Eq, Structural)]
pub enum TimerId {
    Handshake,
    Prover,
    Verifier,
    Rat,
    Ack,
    Dat,
}

/// A timer whose delay is fixed when it is made.
#[derive(Clone, Copy, Debug)]
pub struct StaticTimer {
    pub delay: Duration,
    pub armed: bool,
    pub generation: u64,
}

impl StaticTimer {
    /// The timer after `start`.
    pub open spec fn started(self) -> StaticTimer {
        StaticTimer { armed: true, generation: next_generation(self.generation), ..self }
    }

    /// The timer after `cancel`, and after a wake-up that it accepted.
    pub open spec fn cancelled(self) -> StaticTimer {
        StaticTimer { armed: false, ..self }
    }

    /// Whether a wake-up with this ticket is the pending one.
    pub open spec fn accepts(self, ticket: u64) -> bool {
        self.armed && ticket == self.generation
    }

    pub fn new(delay: Duration) -> (timer: StaticTimer)
        ensures
            timer == (StaticTimer { delay, armed: false, generation: 0 }),
    {
        StaticTimer { delay, armed: false, generation: 0 }
    }

    /// Arms the timer and returns the ticket of the new wake-up, which takes
    /// the place of any that was pending.
    pub fn start(&mut self) -> (ticket: u64)
        ensures
            *final(self) == old(self).started(),
            ticket == final(self).generation,
    {
        let next: u64 = if self.generation == u64::MAX {
            0
        } else {
            self.generation + 1
        };
        self.generation = next;
        self.armed = true;
        next
    }

    pub fn cancel(&mut self)
        ensures
            *final(self) == old(self).cancelled(),
    {
        self.armed = false;
    }

    /// Reports a wake-up. Returns `true`, and disarms the timer, exactly when
    /// the ticket is that of the pending wake-up.
    pub fn expire(&mut self, ticket: u64) -> (fired: bool)
        ensures
            fired == old(self).accepts(ticket),
            *final(self) == if fired {
                old(self).cancelled()
            } else {
                *old(self)
            },
    {
        if self.armed && ticket == self.generation {
            self.armed = false;
            true
        } else {
            false
        }
    }
}

/// A timer whose delay is given with each `start`.
#[derive(Clone, Copy, Debug, PartialEq, Eq, Structural)]
pub struct DynamicTimer {
    pub armed: bool,
    pub generation: u64,
}

impl DynamicTimer {
    pub open spec fn started(self) -> DynamicTimer {
        DynamicTimer { armed: true, generation: next_generation(self.generation) }
    }

    pub open spec fn cancelled(self) -> DynamicTimer {
        DynamicTimer { armed: false, ..self }
    }

    pub open spec fn accepts(self, ticket: u64) -> bool {
        self.armed && ticket == self.generation
    }

    pub fn new() -> (timer: DynamicTimer)
        ensures
            timer == (DynamicTimer { armed: false, generation: 0 }),
    {
        DynamicTimer { armed: false, generation: 0 }
    }

    /// Arms the timer and returns the ticket of the new wake-up. The delay is
    /// the caller's to schedule; the timer keeps no record of it.
    pub fn start(&mut self) -> (ticket: u64)
        ensures
            *final(self) == old(self).started(),
            ticket == final(self).generation,
    {
        let next: u64 = if self.generation == u64::MAX {
            0
        } else {
            self.generation + 1
        };
        self.generation = next;
        self.armed = true;
        next
    }

    pub fn cancel(&mut self)
        ensures
            *final(self) == old(self).cancelled(),
    {
        self.armed = false;
    }

    pub fn expire(&mut self, ticket: u64) -> (fired: bool)
        ensures
            fired == old(self).accepts(ticket),
            *final(self) == if fired {
                old(self).cancelled()
            } else {
                *old(self)
            },
    {
        if self.armed && ticket == self.generation {
            self.armed = false;
            true
        } else {
            false
        }
    }
}

/// A second `start` supersedes the first: the ticket of the earlier wake-up
/// is no longer accepted.
pub proof fn lemma_start_supersedes(timer: StaticTimer)
    ensures
        !timer.started().started().accepts(timer.started().generation),
        timer.started().accepts(timer.started().generation),
{
}

/// After `cancel` no wake-up is accepted, and cancelling again changes nothing.
pub proof fn lemma_cancel_is_idempotent(timer: StaticTimer, ticket: u64)
    ensures
        !timer.cancelled().accepts(ticket),
        timer.cancelled().cancelled() == timer.cancelled(),
{
}

/// A wake-up is accepted at most once.
pub proof fn lemma_expiry_fires_once(timer: StaticTimer, ticket: u64)
    ensures
        timer.accepts(ticket) ==> !timer.cancelled().accepts(ticket),
{
}

/// The same three facts for a timer with a dynamic delay.
pub proof fn lemma_dynamic_timer_tickets(timer: DynamicTimer, ticket: u64)
    ensures
        !timer.started().started().accepts(timer.started().generation),
        timer.started().accepts(timer.started().generation),
        !timer.cancelled().accepts(ticket),
        timer.cancelled().cancelled() == timer.cancelled(),
        timer.accepts(ticket) ==> !timer.cancelled().accepts(ticket),
{
}

} // verus!
