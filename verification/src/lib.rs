//! ElGamal encryption over the JubJub curve, additively homomorphic in the
//! message.
//!
//! A private key is a scalar, its public key the generator times that scalar.
//! A message is a point of the curve. Encrypting it under a public key with a
//! fresh scalar gives a [`Cypher`], a pair of points, which the private key
//! decrypts. Ciphertexts made under one key can be added, subtracted and
//! multiplied by a scalar, and then decrypt to the same combination of their
//! messages: see [`laws`].

pub mod curve;
pub mod cypher;
pub mod encoding;
pub mod error;
pub mod keys;
pub mod laws;

pub use crate::curve::Point;
pub use crate::cypher::Cypher;
pub use crate::error::Error;
pub use crate::keys::{PrivateKey, PublicKey};
