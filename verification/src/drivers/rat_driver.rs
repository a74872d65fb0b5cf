//! What the core knows of attestation drivers: the messages a worker sends
//! and receives, and the registry of the drivers that can be started.

use crate::messages::suite_view;
use vstd::prelude::*;

verus! {

/// The two attestation roles that each peer plays.
#[derive(Clone, Copy, Debug, PartialEq, Eq, Structural)]
pub enum RatRole {
    Prover,
    Verifier,
}

/// The verdict with which a worker ends its run.
#[derive(Clone, Copy, Debug, PartialEq, Eq, Structural)]
pub enum RatIcm {
    OK,
    Failed,
}

/// A message between the session and an attestation worker.
#[derive(Clone, Debug, PartialEq, Eq)]
pub enum RatMessage {
    ControlMessage(RatIcm),
    RawData(Vec<u8>),
}

pub enum RatMessageView {
    ControlMessage(RatIcm),
    RawData(Seq<u8>),
}

impl View for RatMessage {
    type V = RatMessageView;

    open spec fn view(&self) -> RatMessageView {
        match *self {
            RatMessage::ControlMessage(icm) => RatMessageView::ControlMessage(icm),
            RatMessage::RawData(data) => RatMessageView::RawData(data@),
        }
    }
}

/// The drivers of one role that a session may start, by identifier.
#[derive(Clone, Debug, PartialEq, Eq)]
pub struct RatRegistry {
    pub drivers: Vec<String>,
}

impl View for RatRegistry {
    type V = Seq<Seq<char>>;

    /// The registered identifiers, in the order in which they were registered.
    open spec fn view(&self) -> Seq<Seq<char>> {
        suite_view(self.drivers@)
    }
}

impl RatRegistry {
    pub fn new() -> (registry: RatRegistry)
        ensures
            registry@ == Seq::<Seq<char>>::empty(),
    {
        let registry = RatRegistry { drivers: Vec::new() };
        proof {
            assert(registry@ =~= Seq::<Seq<char>>::empty());
        }
        registry
    }

    pub fn register_driver(&mut self, id: String)
        ensures
            final(self)@ == old(self)@.push(id@),
    {
        self.drivers.push(id);
        proof {
            assert(self@ =~= old(self)@.push(id@));
        }
    }

    /// Whether a driver with this identifier is registered.
    pub fn has_driver(&self, id: &String) -> (found: bool)
        ensures
            found == self@.contains(id@),
    {
        let mut i: usize = 0;
        while i < self.drivers.len()
            invariant
                i <= self.drivers.len(),
                forall|j: int| 0 <= j < i ==> self@[j] != id@,
            decreases self.drivers.len() - i,
        {
            if self.drivers[i] == *id {
                proof {
                    assert(self@[i as int] == id@);
                }
                return true;
            }
            i += 1;
        }
        false
    }
}

} // verus!
