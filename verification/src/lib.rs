//! Typed keys and signatures for X25519 key exchange and Ed25519 signing.
//!
//! The curve arithmetic is done by the HACL* routines of the `libcrux`
//! crates. This crate wraps them in owned, fixed-size key and signature
//! types, one set per scheme, so that a key of one kind cannot be handed to
//! an operation of the other, and states what each operation returns.
use vstd::prelude::*;

pub mod curve25519;
pub mod ed25519;

verus! {

/// A pair that keeps two values together, such as a secret key and the
/// public key that belongs to it.
pub struct And<A, B>(pub A, pub B);

} // verus!
