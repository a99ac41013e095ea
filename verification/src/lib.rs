//! A keyed-hash message authentication code (HMAC) driver that delegates the
//! cryptographic arithmetic to a PKCS#11-style provider.
//!
//! The library holds the orchestration logic: resolving an algorithm tag to a
//! provider mechanism code and an expected tag length (`alg`), and driving a
//! provider session through key import, context creation, data feeding and
//! finalization (`driver`). The provider calls themselves are performed by the
//! caller, who runs the state machine of `driver` and hands each provider
//! result back as an event.

pub mod alg;
pub mod driver;
