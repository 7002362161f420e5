//! Key pairs: a private scalar, the public point derived from it, and
//! encryption under that point.

use crate::curve::{
    generator_encoding, identity_encoding, is_point, point_scaled, scalar_from_bytes,
    scalar_order, scalar_to_bytes, scalar_value, Point,
};
use crate::cypher::{encrypted, Cypher};
use crate::encoding::{le_bytes, le_value, lemma_le_bytes_of_value};
use crate::error::Error;
use dusk_plonk::jubjub::JubJubScalar;
use rand::{CryptoRng, Rng};
use vstd::prelude::*;

verus! {

/// The 32 bytes that stand for the scalar `value`: the number, least
/// significant byte first.
pub open spec fn scalar_bytes(value: nat) -> Seq<u8> {
    le_bytes(value, 32)
}

/// The scalar that `bytes` stand for: the number that they spell, where it is
/// below the order of the scalar field. A larger number is not reduced: it is
/// no scalar.
pub open spec fn scalar_decoded(bytes: Seq<u8>) -> Option<nat> {
    if le_value(bytes) < scalar_order() {
        Some(le_value(bytes))
    } else {
        None
    }
}

/// The public point of the private scalar `private`: the generator added to
/// itself that many times.
pub open spec fn public_of(private: nat) -> Seq<u8> {
    point_scaled(generator_encoding(), private)
}

/// A private key: a scalar. Its view is the number that the scalar stands
/// for.
#[derive(Default, Clone, Copy, Debug, PartialEq, Eq, PartialOrd, Ord)]
pub struct PrivateKey(JubJubScalar);

impl View for PrivateKey {
    type V = nat;

    closed spec fn view(&self) -> nat {
        scalar_value(self.0)
    }
}

impl PrivateKey {
    /// A fresh private key, drawn from `rand` by `JubJubScalar::random`, which
    /// reduces 64 bytes of `rand` to a scalar. Not verified. Believed: the key
    /// stands for a number below the order of the scalar field, whichever
    /// scalar was drawn.
    #[verifier::external_body]
    pub fn new<T: Rng + CryptoRng>(rand: &mut T) -> (private: PrivateKey)
        ensures
            private@ < scalar_order(),
    {
        PrivateKey(JubJubScalar::random(rand))
    }

    /// The key's 32 bytes.
    pub fn to_bytes(&self) -> (bytes: [u8; 32])
        ensures
            bytes@ == scalar_bytes(self@),
            self@ < scalar_order(),
    {
        let bytes: [u8; 32] = scalar_to_bytes(&self.0);
        proof {
            lemma_le_bytes_of_value(bytes@);
        }
        bytes
    }

    /// The key that 32 bytes stand for, or `SerialisationError` where they
    /// spell a number that is no scalar.
    pub fn from_bytes(bytes: &[u8; 32]) -> (private: Result<PrivateKey, Error>)
        ensures
            match private {
                Ok(key) => scalar_decoded(bytes@) == Some(key@),
                Err(e) => scalar_decoded(bytes@) is None && e == Error::SerialisationError,
            },
    {
        match scalar_from_bytes(bytes) {
            Some(scalar) => Ok(PrivateKey(scalar)),
            None => Err(Error::SerialisationError),
        }
    }

    /// The scalar of the key.
    pub(crate) fn scalar(&self) -> (scalar: &JubJubScalar)
        ensures
            scalar_value(*scalar) == self@,
    {
        &self.0
    }
}

/// A public key: the point derived from a private key. Its view is the
/// point's encoding.
#[derive(Clone, Copy, Debug)]
pub struct PublicKey(Point);

impl View for PublicKey {
    type V = Seq<u8>;

    closed spec fn view(&self) -> Seq<u8> {
        self.0@
    }
}

impl Default for PublicKey {
    /// The neutral element of the group, which is the public key of the
    /// scalar zero.
    fn default() -> (public: PublicKey)
        ensures
            public@ == identity_encoding(),
            is_point(public@),
    {
        PublicKey(Point::default())
    }
}

impl From<PrivateKey> for PublicKey {
    /// The public key of a private key.
    fn from(private: PrivateKey) -> (public: PublicKey)
        ensures
            public@ == public_of(private@),
            is_point(public@),
    {
        let generator: Point = Point::generator();
        PublicKey(generator.mul(&private.0))
    }
}

impl vstd::std_specs::convert::FromSpecImpl<PrivateKey> for PublicKey {
    /// One point has many representations, and which of them `from` returns
    /// is left open: its own contract says which point it is.
    open spec fn obeys_from_spec() -> bool {
        false
    }

    open spec fn from_spec(private: PrivateKey) -> PublicKey {
        arbitrary()
    }
}

impl PublicKey {
    /// Encrypts `message` under this key with the ephemeral scalar `secret`,
    /// which the caller has drawn for this one encryption and uses for no
    /// other.
    pub fn encrypt(self, message: Point, secret: JubJubScalar) -> (cypher: Cypher)
        ensures
            cypher@ == encrypted(self@, message@, scalar_value(secret)),
            cypher@.wf(),
    {
        let s: Point = self.0.mul(&secret);
        let generator: Point = Point::generator();
        let gamma: Point = generator.mul(&secret);
        let delta: Point = message.add(&s);
        Cypher::from_points(gamma, delta)
    }
}

} // verus!
