//! Tests of the boolean-toggle consumer and its delegated flips.

use meta_tx::account::AccountId;
use meta_tx::flipper::{Error, Flipper};
use meta_tx::meta_tx_context::{Error as CtxError, MetaTxContext};

#[test]
fn lib_default_works() {
    let flipper = Flipper::default();
    assert_eq!(flipper.get(), false);
}

#[test]
fn lib_it_works() {
    let mut flipper = Flipper::new(AccountId([0x9; 32]), AccountId([0x0; 32]), false);
    assert_eq!(flipper.get(), false);
    flipper.flip();
    assert_eq!(flipper.get(), true);
}

#[test]
fn flip_meta_context_by_ordinary_caller_ignores_payload() {
    let admin = AccountId([0x9; 32]);
    let forwarder = AccountId([0x1; 32]);
    let mut flipper = Flipper::new(admin, forwarder, false);

    // Not the forwarder: payload is ignored, even a malformed one.
    let caller = AccountId([0x2; 32]);
    assert_eq!(flipper.flip_meta_context(caller, vec![1, 2, 3]), Ok(()));
    assert_eq!(flipper.get(), true);
    assert_eq!(flipper.flip_meta_context(caller, vec![]), Ok(()));
    assert_eq!(flipper.get(), false);
}

#[test]
fn flip_meta_context_by_forwarder_decodes_payload() {
    let admin = AccountId([0x9; 32]);
    let forwarder = AccountId([0x1; 32]);
    let mut flipper = Flipper::new(admin, forwarder, false);

    // The forwarder embeds the effective caller in the first 32 bytes.
    let mut payload = vec![0x5u8; 32];
    payload.push(0xFF);
    assert_eq!(flipper.flip_meta_context(forwarder, payload), Ok(()));
    assert_eq!(flipper.get(), true);

    // A payload shorter than an account identifier is malformed.
    assert_eq!(
        flipper.flip_meta_context(forwarder, vec![0x5u8; 31]),
        Err(Error::MetaTxContextError(CtxError::RecoverAccountIdFailed))
    );
    assert_eq!(flipper.get(), true);
}

#[test]
fn flipper_forwarder_config_gated_on_admin() {
    let admin = AccountId([0x9; 32]);
    let mut flipper = Flipper::new(admin, AccountId([0x0; 32]), false);
    assert_eq!(flipper.get_trusted_forwarder(), Some(AccountId([0x0; 32])));

    let outsider = AccountId([0x4; 32]);
    assert!(flipper.set_trusted_forwarder(AccountId([0x3; 32]), outsider).is_err());
    assert_eq!(flipper.get_trusted_forwarder(), Some(AccountId([0x0; 32])));

    assert_eq!(flipper.set_trusted_forwarder(AccountId([0x3; 32]), admin), Ok(()));
    assert_eq!(flipper.get_trusted_forwarder(), Some(AccountId([0x3; 32])));
}
