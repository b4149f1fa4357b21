//! Tests of the name-registry consumer.

use meta_tx::access_control::AccessControlError;
use meta_tx::account::AccountId;
use meta_tx::meta_tx_context::MetaTxContext;
use meta_tx::registry::{Error, Registry};

fn alice() -> AccountId {
    AccountId([0xA; 32])
}

fn bob() -> AccountId {
    AccountId([0xB; 32])
}

#[test]
fn register_works() {
    let mut registry = Registry::new(alice(), AccountId([0x0; 32]));
    assert_eq!(registry.register(String::from("alice"), alice(), vec![]), Ok(()));
    assert_eq!(registry.get_owner(String::from("alice")), Some(alice()));
    assert_eq!(registry.get_name(alice()), Some(String::from("alice")));
}

#[test]
fn register_twice_fail() {
    let mut registry = Registry::new(alice(), AccountId([0x0; 32]));
    assert_eq!(registry.register(String::from("alice"), alice(), vec![]), Ok(()));
    assert_eq!(
        registry.register(String::from("alice_2"), alice(), vec![]),
        Err(Error::AlreadyRegistered)
    );
}

#[test]
fn register_taken_name_fail() {
    let mut registry = Registry::new(alice(), AccountId([0x0; 32]));
    assert_eq!(registry.register(String::from("test"), alice(), vec![]), Ok(()));
    assert_eq!(
        registry.register(String::from("test"), bob(), vec![]),
        Err(Error::NameTaken)
    );
}

#[test]
fn unregister_works() {
    let mut registry = Registry::new(alice(), AccountId([0x0; 32]));
    assert_eq!(registry.register(String::from("alice"), alice(), vec![]), Ok(()));
    assert_eq!(registry.unregister(alice(), vec![]), Ok(()));
    assert_eq!(registry.get_name(alice()), None);
}

#[test]
fn unregister_no_record_fail() {
    let mut registry = Registry::new(alice(), AccountId([0x0; 32]));
    assert_eq!(registry.unregister(alice(), vec![]), Err(Error::NameNotRegistered));
}

#[test]
fn set_trusted_forwarder_by_admin_works() {
    let mut registry = Registry::new(alice(), AccountId([0x0; 32]));
    assert_eq!(registry.set_trusted_forwarder(AccountId([0x1; 32]), alice()), Ok(()));
    assert_eq!(registry.get_trusted_forwarder(), Some(AccountId([0x1; 32])));
}

#[test]
fn set_trusted_forwarder_by_non_admin_fails() {
    let mut registry = Registry::new(alice(), AccountId([0x0; 32]));
    assert_eq!(
        registry.set_trusted_forwarder(AccountId([0x1; 32]), bob()),
        Err(AccessControlError::MissingRole)
    );
}

#[test]
fn register_through_forwarder_uses_embedded_caller() {
    let forwarder = AccountId([0xF; 32]);
    let mut registry = Registry::new(alice(), forwarder);

    // The forwarder registers on behalf of bob, whose identifier leads the
    // payload.
    let payload = bob().0.to_vec();
    assert_eq!(registry.register(String::from("bob"), forwarder, payload), Ok(()));
    assert_eq!(registry.get_owner(String::from("bob")), Some(bob()));
    assert_eq!(registry.get_name(bob()), Some(String::from("bob")));
    assert_eq!(registry.get_name(forwarder), None);

    // A malformed payload from the forwarder is rejected.
    assert_eq!(
        registry.register(String::from("short"), forwarder, vec![0x1; 31]),
        Err(Error::MetaTxContextError(
            meta_tx::meta_tx_context::Error::RecoverAccountIdFailed
        ))
    );
}
