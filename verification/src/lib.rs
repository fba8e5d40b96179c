//! A minimal endpoint registry for an omnichain messaging protocol.
//!
//! An on-chain application ("OApp") registers itself with the endpoint by
//! creating a record at an address derived deterministically from a fixed
//! namespace tag and the OApp's own address. The record stores the OApp's
//! address and its designated administrator, is created exactly once per
//! OApp, and is never overwritten by later registration attempts.

pub mod address;
pub mod derivation;
pub mod registry;
pub mod laws;
