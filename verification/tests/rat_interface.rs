use idscp_core::drivers::rat_driver::{RatRegistry, RatRole};
use idscp_core::fsm::action::Action;
use idscp_core::fsm::rat_interface::{DriverListener, RatDriverInterface, RatError};
use idscp_core::fsm::{AttestationConfig, FiniteStateMachine};
use openssl::hash::MessageDigest;
use openssl::nid::Nid;
use openssl::pkey::PKey;
use openssl::rsa::Rsa;
use openssl::x509::{X509Name, X509};
use std::time::Duration;

fn test_cert() -> X509 {
    let rsa = Rsa::generate(2048).unwrap();
    let pkey = PKey::from_rsa(rsa).unwrap();

    let mut name = X509Name::builder().unwrap();
    name.append_entry_by_nid(Nid::COMMONNAME, "foobar.com")
        .unwrap();
    let name = name.build();

    let mut builder = X509::builder().unwrap();
    builder.set_version(2).unwrap();
    builder.set_subject_name(&name).unwrap();
    builder.set_issuer_name(&name).unwrap();
    builder.set_pubkey(&pkey).unwrap();
    builder.sign(&pkey, MessageDigest::sha256()).unwrap();

    builder.build()
}

#[test]
fn rat_interface_test() {
    //create registry
    let verifier_registry = RatRegistry::new();
    let mut prover_registry = RatRegistry::new();
    prover_registry.register_driver("RatDummy".to_string());

    let cert = test_cert();
    //create fsm
    let mut fsm = FiniteStateMachine::create(
        cert.clone(),
        cert,
        prover_registry,
        verifier_registry,
        Duration::from_millis(5000),
        Duration::from_millis(1000),
        AttestationConfig {
            supported_attestation_suite: vec![],
            expected_attestation_suite: vec![],
            rat_timeout: Duration::from_millis(1000),
        },
    );

    //check if content is none
    assert!(fsm.rat_prover.content.is_none());

    let mut prover_registry = RatRegistry::new();
    prover_registry.register_driver("RatDummy".to_string());

    //start prover driver
    let mut actions = Vec::new();
    assert!(fsm
        .rat_prover
        .start_driver(&"RatDummy".to_string(), Some(&prover_registry), &mut actions)
        .is_ok());

    //check if content is some
    assert!(fsm.rat_prover.content.is_some());

    //write to prover
    assert!(fsm.rat_prover.write_to_driver(true).is_ok());

    //stop prover again
    fsm.rat_prover.stop_driver(&mut actions);

    //check if content is none
    assert!(fsm.rat_prover.content.is_none());

    assert_eq!(
        actions,
        vec![
            Action::LaunchDriver { role: RatRole::Prover, driver: "RatDummy".to_string(), session: 0 },
            Action::StopDriver { role: RatRole::Prover, session: 0 },
        ]
    );
}

#[test]
fn start_driver_needs_a_registry_that_knows_the_mechanism() {
    let mut interface = RatDriverInterface::create(RatRole::Verifier, test_cert());
    let mut registry = RatRegistry::new();
    registry.register_driver("A".to_string());
    let mut actions = Vec::new();

    assert_eq!(
        interface.start_driver(&"A".to_string(), None, &mut actions),
        Err(RatError::RegistryNotAvailable)
    );
    assert_eq!(
        interface.start_driver(&"B".to_string(), Some(&registry), &mut actions),
        Err(RatError::UnknownRatDriver)
    );
    assert!(!interface.is_active());
    assert!(actions.is_empty());
    assert!(registry.has_driver(&"A".to_string()));
    assert!(!registry.has_driver(&"B".to_string()));
}

#[test]
fn restart_needs_a_cached_driver() {
    let mut interface = RatDriverInterface::create(RatRole::Prover, test_cert());
    let mut actions = Vec::new();
    assert_eq!(interface.restart_driver(&mut actions), Err(RatError::RatDriverNotCached));
    assert!(actions.is_empty());

    let mut registry = RatRegistry::new();
    registry.register_driver("A".to_string());
    assert_eq!(interface.start_driver(&"A".to_string(), Some(&registry), &mut actions), Ok(()));
    assert_eq!(interface.restart_driver(&mut actions), Ok(()));
    assert_eq!(
        actions,
        vec![
            Action::LaunchDriver { role: RatRole::Prover, driver: "A".to_string(), session: 0 },
            Action::StopDriver { role: RatRole::Prover, session: 0 },
            Action::LaunchDriver { role: RatRole::Prover, driver: "A".to_string(), session: 1 },
        ]
    );
}

#[test]
fn write_to_driver_tells_inactive_from_aborted() {
    let mut interface = RatDriverInterface::create(RatRole::Prover, test_cert());
    assert_eq!(interface.write_to_driver(true), Err(RatError::RatDriverInactive));
    assert_eq!(interface.write_to_driver(false), Err(RatError::RatDriverInactive));

    let mut registry = RatRegistry::new();
    registry.register_driver("A".to_string());
    let mut actions = Vec::new();
    interface.start_driver(&"A".to_string(), Some(&registry), &mut actions).unwrap();
    assert_eq!(interface.write_to_driver(false), Err(RatError::RatConnectionAborted));
    assert_eq!(interface.write_to_driver(true), Ok(()));
}

#[test]
fn a_stopped_listener_delivers_nothing() {
    let mut interface = RatDriverInterface::create(RatRole::Verifier, test_cert());
    let mut registry = RatRegistry::new();
    registry.register_driver("A".to_string());
    let mut actions = Vec::new();
    interface.start_driver(&"A".to_string(), Some(&registry), &mut actions).unwrap();
    assert!(interface.accepts(0));
    assert!(!interface.accepts(1));

    interface.restart_driver(&mut actions).unwrap();
    assert!(!interface.accepts(0));
    assert!(interface.accepts(1));

    // the listener of an earlier run reports the end of its worker: nothing changes
    interface.on_driver_stop(0);
    assert!(interface.is_active());

    interface.stop_driver(&mut actions);
    assert!(!interface.accepts(0));
    assert!(!interface.accepts(1));

    interface.restart_driver(&mut actions).unwrap();
    interface.on_driver_stop(2);
    assert!(!interface.is_active());
}

#[test]
fn a_listener_serves_once() {
    let mut listener = DriverListener::new();
    assert!(!listener.is_cancelled);
    assert!(!listener.is_locked);
    assert!(!listener.is_delivering());

    assert!(listener.listen());
    assert!(listener.is_delivering());
    assert!(!listener.listen());
    assert!(listener.is_delivering());

    listener.stop();
    assert!(listener.is_cancelled);
    assert!(!listener.is_delivering());
    assert!(!listener.listen());
    assert!(!listener.is_delivering());
}
