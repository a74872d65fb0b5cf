//! Core of an IDSCP2 endpoint: the per-connection state machine together with
//! the timers, attestation-driver bookkeeping and alternating-bit sublayer it
//! relies on. The machine performs no I/O itself; every transition returns the
//! actions its caller has to carry out.

pub mod drivers;
pub mod fsm;
pub mod messages;
