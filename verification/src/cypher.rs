//! Ciphertexts: decryption, the homomorphic algebra, and the two byte codecs.

use crate::curve::{
    decoded, generator_encoding, identity_encoding, is_point, point_diff, point_scaled, point_sum,
    scalar_value, Point,
};
use crate::encoding::{chunk32, put32};
use crate::error::Error;
use crate::keys::PrivateKey;
use dusk_plonk::jubjub::JubJubScalar;
use vstd::prelude::*;

verus! {

/// What a ciphertext is to the contracts: the encodings of its two points.
pub struct CypherView {
    pub gamma: Seq<u8>,
    pub delta: Seq<u8>,
}

impl CypherView {
    /// Both components are points of the group.
    pub open spec fn wf(self) -> bool {
        is_point(self.gamma) && is_point(self.delta)
    }
}

/// The ciphertext of `message` under the public point `public` with the
/// ephemeral scalar `secret`: the generator times the secret, and the message
/// masked by the public point times the secret.
pub open spec fn encrypted(public: Seq<u8>, message: Seq<u8>, secret: nat) -> CypherView {
    CypherView {
        gamma: point_scaled(generator_encoding(), secret),
        delta: point_sum(message, point_scaled(public, secret)),
    }
}

/// What the private scalar `private` makes of a ciphertext: `delta` less
/// `gamma` times the scalar.
pub open spec fn decrypted(cypher: CypherView, private: nat) -> Seq<u8> {
    point_diff(cypher.delta, point_scaled(cypher.gamma, private))
}

/// The sum of two ciphertexts, component by component.
pub open spec fn cypher_sum(a: CypherView, b: CypherView) -> CypherView {
    CypherView { gamma: point_sum(a.gamma, b.gamma), delta: point_sum(a.delta, b.delta) }
}

/// The difference of two ciphertexts, component by component.
pub open spec fn cypher_diff(a: CypherView, b: CypherView) -> CypherView {
    CypherView { gamma: point_diff(a.gamma, b.gamma), delta: point_diff(a.delta, b.delta) }
}

/// A ciphertext times a scalar, component by component.
pub open spec fn cypher_scaled(cypher: CypherView, k: nat) -> CypherView {
    CypherView { gamma: point_scaled(cypher.gamma, k), delta: point_scaled(cypher.delta, k) }
}

/// The 64 bytes of a ciphertext: the encoding of `gamma`, then that of `delta`.
pub open spec fn cypher_encoding(cypher: CypherView) -> Seq<u8> {
    cypher.gamma + cypher.delta
}

/// The ciphertext that 64 bytes stand for: each half decoded as a point.
/// There is none where either half encodes no point.
pub open spec fn cypher_decoded(bytes: Seq<u8>) -> Option<CypherView> {
    match (decoded(bytes.subrange(0, 32)), decoded(bytes.subrange(32, 64))) {
        (Some(gamma), Some(delta)) => Some(CypherView { gamma, delta }),
        _ => None,
    }
}

/// A ciphertext: the pair of points `(gamma, delta)`.
#[derive(Clone, Copy, Debug)]
pub struct Cypher {
    gamma: Point,
    delta: Point,
}

impl View for Cypher {
    type V = CypherView;

    closed spec fn view(&self) -> CypherView {
        CypherView { gamma: self.gamma@, delta: self.delta@ }
    }
}

impl Default for Cypher {
    /// The ciphertext whose two points are the neutral element.
    fn default() -> (cypher: Cypher)
        ensures
            cypher@ == (CypherView { gamma: identity_encoding(), delta: identity_encoding() }),
            cypher@.wf(),
    {
        Cypher { gamma: Point::default(), delta: Point::default() }
    }
}

impl Cypher {
    /// The ciphertext of two points.
    pub(crate) fn from_points(gamma: Point, delta: Point) -> (cypher: Cypher)
        ensures
            cypher@ == (CypherView { gamma: gamma@, delta: delta@ }),
    {
        Cypher { gamma, delta }
    }

    /// Decrypts the ciphertext with a private key. With the key that the
    /// ciphertext was made for, this is the message; with any other key it is
    /// some other point of the group, and nothing tells the two apart.
    pub fn decrypt(self, private: PrivateKey) -> (message: Point)
        ensures
            message@ == decrypted(self@, private@),
            is_point(message@),
    {
        let mask: Point = self.gamma.mul(private.scalar());
        self.delta.sub(&mask)
    }

    /// The first point of the ciphertext.
    pub fn gamma(self) -> (gamma: Point)
        ensures
            gamma@ == self@.gamma,
            is_point(gamma@),
    {
        proof {
            use_type_invariant(&self.gamma);
        }
        self.gamma
    }

    /// The second point of the ciphertext.
    pub fn delta(self) -> (delta: Point)
        ensures
            delta@ == self@.delta,
            is_point(delta@),
    {
        proof {
            use_type_invariant(&self.delta);
        }
        self.delta
    }

    /// The 64 bytes of the ciphertext.
    pub fn to_bytes(&self) -> (bytes: [u8; 64])
        ensures
            bytes@ == cypher_encoding(self@),
            self@.wf(),
    {
        let gamma: [u8; 32] = self.gamma.to_bytes();
        let delta: [u8; 32] = self.delta.to_bytes();
        let mut bytes: [u8; 64] = [0u8; 64];
        put32(&mut bytes, 0, &gamma);
        put32(&mut bytes, 32, &delta);
        assert(bytes@ =~= gamma@ + delta@);
        bytes
    }

    /// The ciphertext that the first 64 bytes of `buf` stand for. The first
    /// half is decoded before the second is looked at.
    fn decode(buf: &[u8]) -> (cypher: Result<Cypher, Error>)
        requires
            buf@.len() >= 64,
        ensures
            match cypher {
                Ok(c) => cypher_decoded(buf@) == Some(c@) && c@.wf(),
                Err(e) => cypher_decoded(buf@) is None && e == Error::InvalidData,
            },
    {
        let gamma_buf: [u8; 32] = chunk32(buf, 0);
        let gamma: Point = match Point::from_bytes(&gamma_buf) {
            Ok(point) => point,
            Err(e) => {
                return Err(e);
            },
        };
        let delta_buf: [u8; 32] = chunk32(buf, 32);
        let delta: Point = match Point::from_bytes(&delta_buf) {
            Ok(point) => point,
            Err(e) => {
                return Err(e);
            },
        };
        Ok(Cypher { gamma, delta })
    }

    /// The ciphertext that 64 bytes stand for, or `InvalidData` where either
    /// half encodes no point of the curve. Nothing is computed with a half
    /// before it is known to encode a point.
    pub fn from_bytes(buf: [u8; 64]) -> (cypher: Result<Cypher, Error>)
        ensures
            match cypher {
                Ok(c) => cypher_decoded(buf@) == Some(c@) && c@.wf(),
                Err(e) => cypher_decoded(buf@) is None && e == Error::InvalidData,
            },
    {
        Cypher::decode(buf.as_slice())
    }

    /// Streams the ciphertext out: writes its 64 bytes, the same as
    /// `to_bytes` gives, to the front of `buf`, and says how many were
    /// written. A buffer with no room for them is left as it was, and the
    /// error is `Generic`.
    pub fn read(&self, buf: &mut [u8]) -> (written: Result<usize, Error>)
        ensures
            match written {
                Ok(n) => n == 64 && old(buf)@.len() >= 64 && final(buf)@ == cypher_encoding(self@)
                    + old(buf)@.skip(64),
                Err(e) => e == Error::Generic && old(buf)@.len() < 64 && final(buf)@ == old(buf)@,
            },
    {
        if buf.len() < 64 {
            return Err(Error::Generic);
        }
        let ghost before = buf@;
        let gamma: [u8; 32] = self.gamma.to_bytes();
        let delta: [u8; 32] = self.delta.to_bytes();
        put32(buf, 0, &gamma);
        put32(buf, 32, &delta);
        assert(buf@ =~= gamma@ + delta@ + before.skip(64));
        Ok(64)
    }

    /// Streams a ciphertext in: decodes the first 64 bytes of `buf` as
    /// `from_bytes` does, takes their place, and says how many bytes were
    /// used. With fewer than 64 bytes the error is `Generic`; where either
    /// half encodes no point of the curve it is `InvalidData`. On an error
    /// the ciphertext stays as it was.
    pub fn write(&mut self, buf: &[u8]) -> (used: Result<usize, Error>)
        ensures
            match used {
                Ok(n) => n == 64 && buf@.len() >= 64 && cypher_decoded(buf@) == Some(final(self)@)
                    && final(self)@.wf(),
                Err(e) => *final(self) == *old(self) && if buf@.len() < 64 {
                    e == Error::Generic
                } else {
                    e == Error::InvalidData && cypher_decoded(buf@) is None
                },
            },
    {
        if buf.len() < 64 {
            return Err(Error::Generic);
        }
        match Cypher::decode(buf) {
            Ok(cypher) => {
                *self = cypher;
                Ok(64)
            },
            Err(e) => Err(e),
        }
    }

    /// Nothing is held back by `write`, so there is nothing to flush.
    pub fn flush(&mut self) -> (done: Result<(), Error>)
        ensures
            done is Ok,
            *final(self) == *old(self),
    {
        Ok(())
    }

    /// The sum of two ciphertexts. Under one key this is a ciphertext of the
    /// sum of the two messages.
    pub fn add(&self, other: &Cypher) -> (sum: Cypher)
        ensures
            sum@ == cypher_sum(self@, other@),
            sum@.wf(),
    {
        Cypher { gamma: self.gamma.add(&other.gamma), delta: self.delta.add(&other.delta) }
    }

    /// Adds `other` to this ciphertext in place.
    pub fn add_assign(&mut self, other: Cypher)
        ensures
            final(self)@ == cypher_sum(old(self)@, other@),
            final(self)@.wf(),
    {
        *self = self.add(&other);
    }

    /// The difference of two ciphertexts. Under one key this is a ciphertext
    /// of the difference of the two messages.
    pub fn sub(&self, other: &Cypher) -> (diff: Cypher)
        ensures
            diff@ == cypher_diff(self@, other@),
            diff@.wf(),
    {
        Cypher { gamma: self.gamma.sub(&other.gamma), delta: self.delta.sub(&other.delta) }
    }

    /// Takes `other` away from this ciphertext in place.
    pub fn sub_assign(&mut self, other: Cypher)
        ensures
            final(self)@ == cypher_diff(old(self)@, other@),
            final(self)@.wf(),
    {
        *self = self.sub(&other);
    }

    /// The ciphertext times a scalar. This is a ciphertext of the message
    /// times the scalar.
    pub fn mul(&self, rhs: &JubJubScalar) -> (product: Cypher)
        ensures
            product@ == cypher_scaled(self@, scalar_value(*rhs)),
            product@.wf(),
    {
        Cypher { gamma: self.gamma.mul(rhs), delta: self.delta.mul(rhs) }
    }

    /// The ciphertext times a scalar that is handed over by value.
    pub fn mul_by(&self, rhs: JubJubScalar) -> (product: Cypher)
        ensures
            product@ == cypher_scaled(self@, scalar_value(rhs)),
            product@.wf(),
    {
        self.mul(&rhs)
    }

    /// Multiplies this ciphertext by a scalar in place.
    pub fn mul_assign(&mut self, rhs: &JubJubScalar)
        ensures
            final(self)@ == cypher_scaled(old(self)@, scalar_value(*rhs)),
            final(self)@.wf(),
    {
        *self = self.mul(rhs);
    }

    /// Multiplies this ciphertext in place by a scalar that is handed over by
    /// value.
    pub fn mul_assign_by(&mut self, rhs: JubJubScalar)
        ensures
            final(self)@ == cypher_scaled(old(self)@, scalar_value(rhs)),
            final(self)@.wf(),
    {
        *self = self.mul(&rhs);
    }
}

} // verus!
