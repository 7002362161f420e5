//! What holds of the scheme as a whole: the codecs round-trip, decryption
//! undoes encryption, and the algebra of ciphertexts is that of their
//! messages. Each law is stated over the models that the functions'
//! contracts speak of, and proved from the laws of the curve group.

use crate::curve::{
    generator_encoding, is_point, lemma_diff_in_group, lemma_diff_of_sum, lemma_generator_in_group,
    lemma_scaled_in_group, lemma_scaled_sum, lemma_scaled_twice, lemma_sum_associates,
    lemma_sum_commutes, lemma_sum_in_group, lemma_sum_of_diff, point_diff, point_scaled,
    point_sum, scalar_order,
};
use crate::cypher::{
    cypher_decoded, cypher_diff, cypher_encoding, cypher_scaled, cypher_sum, decrypted, encrypted,
    CypherView,
};
use crate::encoding::{byte_range, lemma_le_bytes_len, lemma_le_value_of_bytes};
use crate::keys::{public_of, scalar_bytes, scalar_decoded};
use vstd::calc;
use vstd::prelude::*;

verus! {

/// Every scalar fits in 32 bytes.
pub proof fn lemma_scalar_fits()
    ensures
        scalar_order() < byte_range(32),
{
    reveal_with_fuel(byte_range, 33);
}

/// A private scalar's 32 bytes are 32 bytes, and decode to the scalar.
pub proof fn lemma_scalar_round_trip(private: nat)
    requires
        private < scalar_order(),
    ensures
        scalar_bytes(private).len() == 32,
        scalar_decoded(scalar_bytes(private)) == Some(private),
{
    lemma_scalar_fits();
    lemma_le_bytes_len(private, 32);
    lemma_le_value_of_bytes(private, 32);
}

/// A ciphertext's 64 bytes are 64 bytes, and decode to the ciphertext.
pub proof fn lemma_cypher_round_trip(cypher: CypherView)
    requires
        cypher.wf(),
    ensures
        cypher_encoding(cypher).len() == 64,
        cypher_decoded(cypher_encoding(cypher)) == Some(cypher),
{
    let bytes = cypher_encoding(cypher);
    assert(bytes.subrange(0, 32) =~= cypher.gamma);
    assert(bytes.subrange(32, 64) =~= cypher.delta);
}

/// Two sums added are the sums of the first and of the second operands,
/// added.
pub proof fn lemma_sum_of_sums(a: Seq<u8>, b: Seq<u8>, c: Seq<u8>, d: Seq<u8>)
    requires
        is_point(a),
        is_point(b),
        is_point(c),
        is_point(d),
    ensures
        point_sum(point_sum(a, b), point_sum(c, d)) == point_sum(point_sum(a, c), point_sum(b, d)),
{
    lemma_sum_in_group(c, d);
    lemma_sum_in_group(b, c);
    lemma_sum_in_group(c, b);
    lemma_sum_in_group(b, d);
    calc! {
        (==)
        point_sum(point_sum(a, b), point_sum(c, d)); {
            lemma_sum_associates(a, b, point_sum(c, d));
        }
        point_sum(a, point_sum(b, point_sum(c, d))); {
            lemma_sum_associates(b, c, d);
        }
        point_sum(a, point_sum(point_sum(b, c), d)); {
            lemma_sum_commutes(b, c);
        }
        point_sum(a, point_sum(point_sum(c, b), d)); {
            lemma_sum_associates(c, b, d);
        }
        point_sum(a, point_sum(c, point_sum(b, d))); {
            lemma_sum_associates(a, c, point_sum(b, d));
        }
        point_sum(point_sum(a, c), point_sum(b, d));
    }
}

/// A sum less a sum is the sum of the two differences.
pub proof fn lemma_diff_of_sums(a: Seq<u8>, b: Seq<u8>, c: Seq<u8>, d: Seq<u8>)
    requires
        is_point(a),
        is_point(b),
        is_point(c),
        is_point(d),
    ensures
        point_diff(point_sum(a, b), point_sum(c, d)) == point_sum(point_diff(a, c), point_diff(b, d)),
{
    let x = point_diff(a, c);
    let y = point_diff(b, d);
    lemma_diff_in_group(a, c);
    lemma_diff_in_group(b, d);
    lemma_sum_of_diff(a, c);
    lemma_sum_of_diff(b, d);
    lemma_sum_of_sums(x, c, y, d);
    lemma_sum_in_group(x, y);
    lemma_sum_in_group(c, d);
    lemma_diff_of_sum(point_sum(x, y), point_sum(c, d));
}

/// A difference less a difference is the difference of the two differences
/// taken the other way.
pub proof fn lemma_diff_of_diffs(a: Seq<u8>, b: Seq<u8>, c: Seq<u8>, d: Seq<u8>)
    requires
        is_point(a),
        is_point(b),
        is_point(c),
        is_point(d),
    ensures
        point_diff(point_diff(a, b), point_diff(c, d)) == point_diff(
            point_diff(a, c),
            point_diff(b, d),
        ),
{
    let x = point_diff(a, c);
    let y = point_diff(b, d);
    let z = point_diff(x, y);
    let w = point_diff(c, d);
    lemma_diff_in_group(a, c);
    lemma_diff_in_group(b, d);
    lemma_diff_in_group(x, y);
    lemma_diff_in_group(c, d);
    lemma_sum_of_diff(a, c);
    lemma_sum_of_diff(b, d);
    lemma_sum_of_diff(x, y);
    lemma_sum_of_diff(c, d);
    // a = (z + y) + (w + d) = (z + w) + (y + d) = (z + w) + b
    lemma_sum_of_sums(z, y, w, d);
    lemma_sum_in_group(z, w);
    lemma_diff_of_sum(point_sum(z, w), b);
    lemma_diff_of_sum(z, w);
}

/// A multiple of a difference is the difference of the multiples.
pub proof fn lemma_scaled_diff(a: Seq<u8>, b: Seq<u8>, k: nat)
    requires
        is_point(a),
        is_point(b),
    ensures
        point_scaled(point_diff(a, b), k) == point_diff(point_scaled(a, k), point_scaled(b, k)),
{
    let x = point_diff(a, b);
    lemma_diff_in_group(a, b);
    lemma_sum_of_diff(a, b);
    lemma_scaled_sum(x, b, k);
    lemma_scaled_in_group(x, k);
    lemma_scaled_in_group(b, k);
    lemma_diff_of_sum(point_scaled(x, k), point_scaled(b, k));
}

/// The mask that encryption adds under a public key is the mask that
/// decryption takes away with the private key.
pub proof fn lemma_masks_agree(private: nat, secret: nat)
    requires
        is_point(generator_encoding()),
    ensures
        point_scaled(public_of(private), secret) == point_scaled(
            point_scaled(generator_encoding(), secret),
            private,
        ),
        is_point(point_scaled(public_of(private), secret)),
{
    lemma_scaled_twice(generator_encoding(), private, secret);
    lemma_scaled_in_group(generator_encoding(), private);
    lemma_scaled_in_group(public_of(private), secret);
}

/// Decryption correctness: what was encrypted under the public key of a
/// private key, with whatever ephemeral scalar, decrypts with that private key
/// to the message.
pub proof fn lemma_decrypt_encrypt(private: nat, message: Seq<u8>, secret: nat)
    requires
        is_point(message),
    ensures
        decrypted(encrypted(public_of(private), message, secret), private) == message,
{
    lemma_generator_in_group();
    lemma_masks_agree(private, secret);
    lemma_diff_of_sum(message, point_scaled(public_of(private), secret));
}

/// Decrypting a sum of ciphertexts gives the sum of what each decrypts to.
pub proof fn lemma_decrypt_sum(a: CypherView, b: CypherView, private: nat)
    requires
        a.wf(),
        b.wf(),
    ensures
        decrypted(cypher_sum(a, b), private) == point_sum(
            decrypted(a, private),
            decrypted(b, private),
        ),
{
    lemma_scaled_sum(a.gamma, b.gamma, private);
    lemma_scaled_in_group(a.gamma, private);
    lemma_scaled_in_group(b.gamma, private);
    lemma_diff_of_sums(
        a.delta,
        b.delta,
        point_scaled(a.gamma, private),
        point_scaled(b.gamma, private),
    );
}

/// Decrypting a difference of ciphertexts gives the difference of what each
/// decrypts to.
pub proof fn lemma_decrypt_diff(a: CypherView, b: CypherView, private: nat)
    requires
        a.wf(),
        b.wf(),
    ensures
        decrypted(cypher_diff(a, b), private) == point_diff(
            decrypted(a, private),
            decrypted(b, private),
        ),
{
    lemma_scaled_diff(a.gamma, b.gamma, private);
    lemma_scaled_in_group(a.gamma, private);
    lemma_scaled_in_group(b.gamma, private);
    lemma_diff_of_diffs(
        a.delta,
        b.delta,
        point_scaled(a.gamma, private),
        point_scaled(b.gamma, private),
    );
}

/// Decrypting a multiple of a ciphertext gives that multiple of what the
/// ciphertext decrypts to.
pub proof fn lemma_decrypt_scaled(cypher: CypherView, k: nat, private: nat)
    requires
        cypher.wf(),
    ensures
        decrypted(cypher_scaled(cypher, k), private) == point_scaled(
            decrypted(cypher, private),
            k,
        ),
{
    lemma_scaled_twice(cypher.gamma, k, private);
    lemma_scaled_in_group(cypher.gamma, private);
    lemma_scaled_diff(cypher.delta, point_scaled(cypher.gamma, private), k);
}

/// What encryption gives is a ciphertext of two points of the group.
pub proof fn lemma_encrypted_wf(private: nat, message: Seq<u8>, secret: nat)
    requires
        is_point(message),
    ensures
        encrypted(public_of(private), message, secret).wf(),
{
    lemma_generator_in_group();
    lemma_masks_agree(private, secret);
    lemma_scaled_in_group(generator_encoding(), secret);
    lemma_sum_in_group(message, point_scaled(public_of(private), secret));
}

/// Homomorphic addition: the sum of two ciphertexts made under one public
/// key, whether their ephemeral scalars differ or not, decrypts to the sum of
/// the two messages.
pub proof fn lemma_add_homomorphic(
    private: nat,
    message1: Seq<u8>,
    message2: Seq<u8>,
    secret1: nat,
    secret2: nat,
)
    requires
        is_point(message1),
        is_point(message2),
    ensures
        decrypted(
            cypher_sum(
                encrypted(public_of(private), message1, secret1),
                encrypted(public_of(private), message2, secret2),
            ),
            private,
        ) == point_sum(message1, message2),
{
    let a = encrypted(public_of(private), message1, secret1);
    let b = encrypted(public_of(private), message2, secret2);
    lemma_encrypted_wf(private, message1, secret1);
    lemma_encrypted_wf(private, message2, secret2);
    lemma_decrypt_sum(a, b, private);
    lemma_decrypt_encrypt(private, message1, secret1);
    lemma_decrypt_encrypt(private, message2, secret2);
}

/// Homomorphic subtraction: the difference of two ciphertexts made under one
/// public key decrypts to the difference of the two messages.
pub proof fn lemma_sub_homomorphic(
    private: nat,
    message1: Seq<u8>,
    message2: Seq<u8>,
    secret1: nat,
    secret2: nat,
)
    requires
        is_point(message1),
        is_point(message2),
    ensures
        decrypted(
            cypher_diff(
                encrypted(public_of(private), message1, secret1),
                encrypted(public_of(private), message2, secret2),
            ),
            private,
        ) == point_diff(message1, message2),
{
    let a = encrypted(public_of(private), message1, secret1);
    let b = encrypted(public_of(private), message2, secret2);
    lemma_encrypted_wf(private, message1, secret1);
    lemma_encrypted_wf(private, message2, secret2);
    lemma_decrypt_diff(a, b, private);
    lemma_decrypt_encrypt(private, message1, secret1);
    lemma_decrypt_encrypt(private, message2, secret2);
}

/// Homomorphic scalar multiplication: a ciphertext times a scalar decrypts to
/// the message times that scalar.
pub proof fn lemma_mul_homomorphic(private: nat, message: Seq<u8>, secret: nat, k: nat)
    requires
        is_point(message),
    ensures
        decrypted(cypher_scaled(encrypted(public_of(private), message, secret), k), private)
            == point_scaled(message, k),
{
    lemma_encrypted_wf(private, message, secret);
    lemma_decrypt_scaled(encrypted(public_of(private), message, secret), k, private);
    lemma_decrypt_encrypt(private, message, secret);
}

} // verus!
