//! A meta-transaction core: users authorize a call off-line by signing a
//! canonical envelope; an untrusted relayer submits the envelope to a call
//! forwarder, which verifies the signature, enforces a per-signer nonce
//! against replay, checks funds and expiry, and performs the nested call.
//! Business contracts compose a trusted-forwarder capability to resolve the
//! effective caller of a forwarded request.

pub mod access_control;
pub mod account;
pub mod codec;
pub mod crypto;
pub mod flipper;
pub mod forwarder;
pub mod kv;
pub mod meta_tx_context;
pub mod registry;
