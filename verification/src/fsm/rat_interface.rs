//! Bookkeeping for one attestation role: which driver is cached, whether a
//! worker runs, and which listener may still hand its messages to the machine.
//!
//! Workers and listeners are threads of the caller. A run is known by its
//! session number; what a listener reports under a number that is no longer
//! current goes nowhere.

use crate::drivers::rat_driver::{RatRegistry, RatRole};
use crate::fsm::action::{actions_view, emit, Action, ActionView};
use openssl::x509::X509;
use vstd::prelude::*;

verus! {

/// The X.509 certificate of the `openssl` crate, `openssl::x509::X509`. The
/// library reads nothing of a certificate: it keeps the peer's and hands it
/// to the caller that starts a worker. Nothing is claimed of the type.
#[verifier::external_type_specification]
#[verifier::external_body]
pub struct ExX509(X509);

#[derive(Clone, Copy, Debug, PartialEq, Eq, Structural)]
pub enum RatError {
    RegistryNotAvailable,
    UnknownRatDriver,
    RatDriverInactive,
    RatConnectionAborted,
    RatDriverNotCached,
}

/// The switch by which a listener is told to stop forwarding.
#[derive(Clone, Copy, Debug, PartialEq, Eq, Structural)]
pub struct DriverListener {
    pub is_cancelled: bool,
    pub is_locked: bool,
}

impl DriverListener {
    /// Whether a message that the listener receives goes on to the machine.
    pub open spec fn delivers(self) -> bool {
        self.is_locked && !self.is_cancelled
    }

    pub fn new() -> (listener: DriverListener)
        ensures
            listener == (DriverListener { is_cancelled: false, is_locked: false }),
    {
        DriverListener { is_cancelled: false, is_locked: false }
    }

    /// Puts the listener to use. A listener serves once: the result says
    /// whether this call started it, and a second call changes nothing.
    pub fn listen(&mut self) -> (started: bool)
        ensures
            started == !old(self).is_locked,
            *final(self) == if started {
                DriverListener { is_cancelled: false, is_locked: true }
            } else {
                *old(self)
            },
    {
        if self.is_locked {
            return false;
        }
        self.is_locked = true;
        self.is_cancelled = false;
        true
    }

    /// Cancels the listener: nothing it receives from now on is delivered.
    pub fn stop(&mut self)
        ensures
            *final(self) == (DriverListener { is_cancelled: true, ..*old(self) }),
            !final(self).delivers(),
    {
        self.is_cancelled = true;
    }

    pub fn is_delivering(&self) -> (delivering: bool)
        ensures
            delivering == self.delivers(),
    {
        self.is_locked && !self.is_cancelled
    }
}

/// A running worker: its session number and its listener.
#[derive(Clone, Copy, Debug, PartialEq, Eq, Structural)]
pub struct RatDriverContent {
    pub session: u64,
    pub listener: DriverListener,
}

/// The session number that follows `session`; the counter wraps around.
pub open spec fn following_session(session: u64) -> u64 {
    if session == u64::MAX {
        0
    } else {
        (session + 1) as u64
    }
}

/// The interface to the workers of one role.
#[derive(Debug)]
pub struct RatDriverInterface {
    pub role: RatRole,
    pub content: Option<RatDriverContent>,
    pub cached_driver: Option<String>,
    pub next_session: u64,
    /// The peer's certificate, which every worker of this role is given.
    pub peer_cert: X509,
}

pub struct InterfaceView {
    pub role: RatRole,
    pub content: Option<RatDriverContent>,
    pub cached_driver: Option<Seq<char>>,
    pub next_session: u64,
    pub peer_cert: X509,
}

/// An interface after one of its operations, with what the operation asks
/// of the caller and how it ended.
pub struct DriverOutcome {
    pub interface: InterfaceView,
    pub actions: Seq<ActionView>,
    pub result: Result<(), RatError>,
}

impl InterfaceView {
    pub open spec fn is_active(self) -> bool {
        self.content is Some
    }

    /// Whether the listener of this session may still hand messages on.
    pub open spec fn accepts(self, session: u64) -> bool {
        match self.content {
            Some(content) => content.session == session && content.listener.delivers(),
            None => false,
        }
    }

    /// Stopping: a running worker is cut off, and the caller told to wake its
    /// listener and drop the channel ends.
    pub open spec fn stop_driver(self) -> DriverOutcome {
        match self.content {
            Some(content) => DriverOutcome {
                interface: InterfaceView { content: None, ..self },
                actions: seq![ActionView::StopDriver { role: self.role, session: content.session }],
                result: Ok(()),
            },
            None => DriverOutcome { interface: self, actions: Seq::empty(), result: Ok(()) },
        }
    }

    /// Running the cached driver under a fresh session number.
    pub open spec fn run_driver(self) -> DriverOutcome {
        match self.cached_driver {
            None => DriverOutcome {
                interface: self,
                actions: Seq::empty(),
                result: Err(RatError::RatDriverNotCached),
            },
            Some(driver) => DriverOutcome {
                interface: InterfaceView {
                    content: Some(
                        RatDriverContent {
                            session: self.next_session,
                            listener: DriverListener { is_cancelled: false, is_locked: true },
                        },
                    ),
                    next_session: following_session(self.next_session),
                    ..self
                },
                actions: seq![
                    ActionView::LaunchDriver { role: self.role, driver, session: self.next_session },
                ],
                result: Ok(()),
            },
        }
    }

    /// Restarting: stop what runs, then run the cached driver.
    pub open spec fn restart_driver(self) -> DriverOutcome {
        let stopped = self.stop_driver();
        let ran = stopped.interface.run_driver();
        DriverOutcome { actions: stopped.actions + ran.actions, ..ran }
    }

    /// Starting a mechanism: stop what runs, look the mechanism up, cache it
    /// and run it.
    pub open spec fn start_driver(self, rat_mechanism: Seq<char>, registry: Option<Seq<Seq<char>>>) -> DriverOutcome {
        let stopped = self.stop_driver();
        match registry {
            None => DriverOutcome { result: Err(RatError::RegistryNotAvailable), ..stopped },
            Some(drivers) => if !drivers.contains(rat_mechanism) {
                DriverOutcome { result: Err(RatError::UnknownRatDriver), ..stopped }
            } else {
                let ran = (InterfaceView {
                    cached_driver: Some(rat_mechanism),
                    ..stopped.interface
                }).run_driver();
                DriverOutcome { actions: stopped.actions + ran.actions, ..ran }
            },
        }
    }

    /// How a write to the worker ends, given what its channel answered.
    pub open spec fn write_to_driver(self, accepted: bool) -> Result<(), RatError> {
        if !self.is_active() {
            Err(RatError::RatDriverInactive)
        } else if !accepted {
            Err(RatError::RatConnectionAborted)
        } else {
            Ok(())
        }
    }

    /// The worker of this session has gone away.
    pub open spec fn on_driver_stop(self, session: u64) -> InterfaceView {
        if self.accepts(session) {
            InterfaceView { content: None, ..self }
        } else {
            self
        }
    }
}

impl View for RatDriverInterface {
    type V = InterfaceView;

    open spec fn view(&self) -> InterfaceView {
        InterfaceView {
            role: self.role,
            content: self.content,
            cached_driver: match self.cached_driver {
                Some(driver) => Some(driver@),
                None => None,
            },
            next_session: self.next_session,
            peer_cert: self.peer_cert,
        }
    }
}

impl RatDriverInterface {
    /// An interface with no driver cached and no worker running.
    pub fn create(role: RatRole, peer_cert: X509) -> (interface: RatDriverInterface)
        ensures
            interface@ == (InterfaceView {
                role,
                content: None,
                cached_driver: None,
                next_session: 0,
                peer_cert,
            }),
    {
        RatDriverInterface { role, content: None, cached_driver: None, next_session: 0, peer_cert }
    }

    pub fn is_active(&self) -> (active: bool)
        ensures
            active == self@.is_active(),
    {
        self.content.is_some()
    }

    /// Whether a message that the listener of `session` has received may be
    /// handed to the machine.
    pub fn accepts(&self, session: u64) -> (accepted: bool)
        ensures
            accepted == self@.accepts(session),
    {
        match &self.content {
            Some(content) => content.session == session && content.listener.is_delivering(),
            None => false,
        }
    }

    /// Stops whatever runs, then starts the named mechanism if the registry
    /// is there and knows it. `registry` is `None` where the registry has
    /// gone away.
    pub fn start_driver(
        &mut self,
        rat_mechanism: &String,
        registry: Option<&RatRegistry>,
        actions: &mut Vec<Action>,
    ) -> (result: Result<(), RatError>)
        ensures
            final(self)@ == old(self)@.start_driver(rat_mechanism@, registry_view(registry)).interface,
            actions_view(final(actions)@) == actions_view(old(actions)@) + old(self)@.start_driver(
                rat_mechanism@,
                registry_view(registry),
            ).actions,
            result == old(self)@.start_driver(rat_mechanism@, registry_view(registry)).result,
    {
        self.stop_driver(actions);
        let registry = match registry {
            None => {
                return Err(RatError::RegistryNotAvailable);
            },
            Some(r) => r,
        };
        if !registry.has_driver(rat_mechanism) {
            return Err(RatError::UnknownRatDriver);
        }
        self.cached_driver = Some(rat_mechanism.clone());
        let ghost stopped = old(self)@.stop_driver();
        proof {
            assert(self@ == (InterfaceView { cached_driver: Some(rat_mechanism@), ..stopped.interface }));
        }
        let result = self.run_driver(actions);
        proof {
            let ran = (InterfaceView { cached_driver: Some(rat_mechanism@), ..stopped.interface }).run_driver();
            assert(actions_view(actions@) =~= actions_view(old(actions)@) + (stopped.actions + ran.actions));
        }
        result
    }

    /// Stops whatever runs, then runs the cached driver again.
    pub fn restart_driver(&mut self, actions: &mut Vec<Action>) -> (result: Result<(), RatError>)
        ensures
            final(self)@ == old(self)@.restart_driver().interface,
            actions_view(final(actions)@) == actions_view(old(actions)@) + old(self)@.restart_driver().actions,
            result == old(self)@.restart_driver().result,
    {
        self.stop_driver(actions);
        let ghost stopped = old(self)@.stop_driver();
        let result = self.run_driver(actions);
        proof {
            let ran = stopped.interface.run_driver();
            assert(actions_view(actions@) =~= actions_view(old(actions)@) + (stopped.actions + ran.actions));
        }
        result
    }

    /// Runs the cached driver: a fresh session number, a listener put to use,
    /// and the order to launch the worker.
    pub fn run_driver(&mut self, actions: &mut Vec<Action>) -> (result: Result<(), RatError>)
        ensures
            final(self)@ == old(self)@.run_driver().interface,
            actions_view(final(actions)@) == actions_view(old(actions)@) + old(self)@.run_driver().actions,
            result == old(self)@.run_driver().result,
    {
        let driver = match &self.cached_driver {
            None => {
                proof {
                    assert(actions_view(actions@) =~= actions_view(old(actions)@) + Seq::<ActionView>::empty());
                }
                return Err(RatError::RatDriverNotCached);
            },
            Some(driver) => driver.clone(),
        };
        let session: u64 = self.next_session;
        let mut listener = DriverListener::new();
        let _started = listener.listen();
        self.content = Some(RatDriverContent { session, listener });
        self.next_session = if session == u64::MAX {
            0
        } else {
            session + 1
        };
        emit(actions, Action::LaunchDriver { role: self.role, driver, session });
        proof {
            assert(actions_view(actions@) =~= actions_view(old(actions)@) + old(self)@.run_driver().actions);
        }
        Ok(())
    }

    /// How a write to the worker ends. `accepted` is what the worker's channel
    /// answered; it is not looked at where no worker runs.
    pub fn write_to_driver(&self, accepted: bool) -> (result: Result<(), RatError>)
        ensures
            result == self@.write_to_driver(accepted),
    {
        if self.content.is_none() {
            Err(RatError::RatDriverInactive)
        } else if !accepted {
            Err(RatError::RatConnectionAborted)
        } else {
            Ok(())
        }
    }

    /// Cuts a running worker off: its listener is cancelled and the caller is
    /// told to wake it and to drop the channel ends.
    pub fn stop_driver(&mut self, actions: &mut Vec<Action>)
        ensures
            final(self)@ == old(self)@.stop_driver().interface,
            actions_view(final(actions)@) == actions_view(old(actions)@) + old(self)@.stop_driver().actions,
            forall|session: u64| !final(self)@.accepts(session),
    {
        match self.content.take() {
            None => {
                proof {
                    assert(actions_view(actions@) =~= actions_view(old(actions)@) + Seq::<ActionView>::empty());
                }
            },
            Some(mut content) => {
                content.listener.stop();
                emit(actions, Action::StopDriver { role: self.role, session: content.session });
                proof {
                    assert(actions_view(actions@) =~= actions_view(old(actions)@) + old(self)@.stop_driver().actions);
                }
            },
        }
    }

    /// The listener of `session` reports that its worker has gone away. The
    /// report of a listener that is no longer current changes nothing.
    pub fn on_driver_stop(&mut self, session: u64)
        ensures
            final(self)@ == old(self)@.on_driver_stop(session),
    {
        if self.accepts(session) {
            self.content = None;
        }
    }
}

/// The identifiers in a registry that may have gone away.
pub open spec fn registry_view(registry: Option<&RatRegistry>) -> Option<Seq<Seq<char>>> {
    match registry {
        Some(r) => Some(r@),
        None => None,
    }
}

} // verus!
