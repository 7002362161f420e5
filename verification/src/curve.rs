//! The JubJub curve group as the scheme uses it.
//!
//! The curve's arithmetic is not verified: it is called. This file holds
//! what is believed of it without proof. A point is modelled by its canonical
//! 32-byte encoding, a scalar by the number that its 32 bytes spell, and what
//! the curve computes from them is given a name. The laws that those names
//! are taken to obey are collected in [`group_laws`].

use crate::encoding::le_value;
use crate::error::Error;
use dusk_plonk::jubjub::{JubJubAffine, JubJubExtended, JubJubScalar, GENERATOR_EXTENDED};
use vstd::prelude::*;

verus! {

/// `JubJubExtended`, the curve's type of a point in extended coordinates.
/// Nothing of what is inside a value is seen here.
#[verifier::external_type_specification]
#[verifier::external_body]
pub struct ExJubJubExtended(JubJubExtended);

/// `JubJubScalar`, the curve's type of a scalar. Nothing of what is inside a
/// value is seen here.
#[verifier::external_type_specification]
#[verifier::external_body]
pub struct ExJubJubScalar(JubJubScalar);

/// The 32 bytes that `JubJubAffine::to_bytes` gives for the point that `p`
/// stands for: its canonical encoding.
pub uninterp spec fn point_encoding(p: JubJubExtended) -> Seq<u8>;

/// The 32 bytes that `JubJubScalar::to_bytes` gives for `k`.
pub uninterp spec fn scalar_encoding(k: JubJubScalar) -> Seq<u8>;

/// What `JubJubAffine::from_bytes` makes of `bytes`: the canonical encoding of
/// the point that they decode to, or `None` where it rejects them.
pub uninterp spec fn decoded(bytes: Seq<u8>) -> Option<Seq<u8>>;

/// The encoding of the point that `+` gives for the points encoded by `a` and `b`.
pub uninterp spec fn point_sum(a: Seq<u8>, b: Seq<u8>) -> Seq<u8>;

/// The encoding of the point that `-` gives for the points encoded by `a` and `b`.
pub uninterp spec fn point_diff(a: Seq<u8>, b: Seq<u8>) -> Seq<u8>;

/// The encoding of the point that `*` gives for the point encoded by `p` and
/// the scalar `k`: the point added to itself `k` times.
pub uninterp spec fn point_scaled(p: Seq<u8>, k: nat) -> Seq<u8>;

/// The order of the scalar field: scalars are the numbers below it.
pub open spec fn scalar_order() -> nat {
    0x0e7db4ea6533afa906673b0101343b00a6682093ccc81082d0970e5ed6f72cb7nat
}

/// The number that a scalar stands for.
pub open spec fn scalar_value(k: JubJubScalar) -> nat {
    le_value(scalar_encoding(k))
}

/// The encoding of the group's fixed generator: the point with `y = 18` and
/// an even `x`.
pub open spec fn generator_encoding() -> Seq<u8> {
    Seq::new(32, |i: int| if i == 0 { 18u8 } else { 0u8 })
}

/// The encoding of the neutral element, the point `(0, 1)`.
pub open spec fn identity_encoding() -> Seq<u8> {
    Seq::new(32, |i: int| if i == 0 { 1u8 } else { 0u8 })
}

/// `e` is the canonical encoding of a point of the curve: 32 bytes that
/// decode to themselves.
pub open spec fn on_curve(e: Seq<u8>) -> bool {
    e.len() == 32 && decoded(e) == Some(e)
}

/// The laws of the curve group, over the encodings of its points. Nothing
/// here is proved. The curve's documentation gives `JubJubExtended` as the
/// arithmetic of the JubJub group: the generator is a point of the curve, the
/// points of the curve form a commutative group under `+`, `-` takes away
/// what `+` added, and `*` adds a point to itself. Of the laws that follow
/// from that, the ones listed are those that the scheme's own laws are proved
/// from.
#[verifier::opaque]
pub open spec fn group_laws() -> bool {
    &&& on_curve(generator_encoding())
    &&& forall|a: Seq<u8>, b: Seq<u8>|
        on_curve(a) && on_curve(b) ==> on_curve(#[trigger] point_sum(a, b))
    &&& forall|a: Seq<u8>, b: Seq<u8>|
        on_curve(a) && on_curve(b) ==> on_curve(#[trigger] point_diff(a, b))
    &&& forall|p: Seq<u8>, k: nat| on_curve(p) ==> on_curve(#[trigger] point_scaled(p, k))
    &&& forall|a: Seq<u8>, b: Seq<u8>|
        on_curve(a) && on_curve(b) ==> #[trigger] point_sum(a, b) == point_sum(b, a)
    &&& forall|a: Seq<u8>, b: Seq<u8>, c: Seq<u8>|
        on_curve(a) && on_curve(b) && on_curve(c) ==> #[trigger] point_sum(point_sum(a, b), c)
            == point_sum(a, point_sum(b, c))
    &&& forall|a: Seq<u8>, b: Seq<u8>|
        on_curve(a) && on_curve(b) ==> point_diff(#[trigger] point_sum(a, b), b) == a
    &&& forall|a: Seq<u8>, b: Seq<u8>|
        on_curve(a) && on_curve(b) ==> point_sum(#[trigger] point_diff(a, b), b) == a
    &&& forall|a: Seq<u8>, b: Seq<u8>, k: nat|
        on_curve(a) && on_curve(b) ==> #[trigger] point_scaled(point_sum(a, b), k) == point_sum(
            point_scaled(a, k),
            point_scaled(b, k),
        )
    &&& forall|p: Seq<u8>, k: nat, j: nat|
        on_curve(p) ==> #[trigger] point_scaled(point_scaled(p, k), j) == point_scaled(
            point_scaled(p, j),
            k,
        )
}

/// `e` encodes an element of the curve group: a point of the curve, of which
/// the group's laws hold.
pub open spec fn is_point(e: Seq<u8>) -> bool {
    on_curve(e) && group_laws()
}

/// A point of the curve. One is only ever made by the curve's own functions
/// from points of the curve, so each is an element of the group.
#[derive(Clone, Copy, Debug)]
pub struct Point {
    inner: JubJubExtended,
}

impl View for Point {
    type V = Seq<u8>;

    closed spec fn view(&self) -> Seq<u8> {
        point_encoding(self.inner)
    }
}

/// `GENERATOR_EXTENDED`, the fixed generator of the group. Believed: it
/// encodes as 18 followed by 31 zero bytes, and is a point of the group.
#[verifier::external_body]
fn curve_generator() -> (g: Point)
    ensures
        point_encoding(g.inner) == generator_encoding(),
        is_point(g@),
{
    Point { inner: GENERATOR_EXTENDED }
}

/// `JubJubExtended::identity`, the neutral element. Believed: it encodes as 1
/// followed by 31 zero bytes, and is a point of the group.
#[verifier::external_body]
fn curve_identity() -> (o: Point)
    ensures
        point_encoding(o.inner) == identity_encoding(),
        is_point(o@),
{
    Point { inner: JubJubExtended::identity() }
}

/// `+` on `JubJubExtended`. Believed: the sum's encoding depends on the
/// operands' encodings alone, and the sum is a point of the group.
#[verifier::external_body]
fn curve_add(a: &Point, b: &Point) -> (sum: Point)
    ensures
        point_encoding(sum.inner) == point_sum(a@, b@),
        is_point(sum@),
{
    Point { inner: a.inner + b.inner }
}

/// `-` on `JubJubExtended`. Believed: the difference's encoding depends on the
/// operands' encodings alone, and the difference is a point of the group.
#[verifier::external_body]
fn curve_sub(a: &Point, b: &Point) -> (diff: Point)
    ensures
        point_encoding(diff.inner) == point_diff(a@, b@),
        is_point(diff@),
{
    Point { inner: a.inner - b.inner }
}

/// `*` of a `JubJubExtended` by a `JubJubScalar`, which multiplies by the
/// number that the scalar's bytes spell. Believed: the product's encoding
/// depends on the point's encoding and that number alone, and the product is
/// a point of the group.
#[verifier::external_body]
fn curve_mul(p: &Point, k: &JubJubScalar) -> (product: Point)
    ensures
        point_encoding(product.inner) == point_scaled(p@, scalar_value(*k)),
        is_point(product@),
{
    Point { inner: p.inner * k }
}

/// `==` on `JubJubExtended`, which compares the points that two values stand
/// for. Believed: it holds exactly where the encodings are the same.
#[verifier::external_body]
fn curve_eq(a: &Point, b: &Point) -> (same: bool)
    ensures
        same == (a@ == b@),
{
    a.inner == b.inner
}

/// `JubJubAffine::from` and `JubJubAffine::to_bytes`. Believed: they give the
/// point's canonical encoding.
#[verifier::external_body]
fn curve_encode(p: &Point) -> (bytes: [u8; 32])
    ensures
        bytes@ == point_encoding(p.inner),
{
    JubJubAffine::from(&p.inner).to_bytes()
}

/// `JubJubAffine::from_bytes` and `JubJubExtended::from`. Believed: the bytes
/// are rejected exactly where `decoded` is `None`; what is decoded is a point
/// of the group, with the encoding that `decoded` names.
#[verifier::external_body]
fn curve_decode(bytes: &[u8; 32]) -> (point: Option<Point>)
    ensures
        match point {
            Some(p) => decoded(bytes@) == Some(p@) && is_point(p@),
            None => decoded(bytes@) is None,
        },
{
    match Option::<JubJubAffine>::from(JubJubAffine::from_bytes(*bytes)) {
        Some(affine) => Some(Point { inner: JubJubExtended::from(affine) }),
        None => None,
    }
}

/// `JubJubScalar::to_bytes`. Believed: the 32 bytes spell, least significant
/// byte first, a number below the order of the scalar field.
#[verifier::external_body]
pub(crate) fn scalar_to_bytes(k: &JubJubScalar) -> (bytes: [u8; 32])
    ensures
        bytes@ == scalar_encoding(*k),
        le_value(bytes@) < scalar_order(),
{
    k.to_bytes()
}

/// `JubJubScalar::from_bytes`. Believed: it accepts 32 bytes exactly where the
/// number that they spell is below the order of the scalar field, and the
/// scalar then encodes as those bytes.
#[verifier::external_body]
pub(crate) fn scalar_from_bytes(bytes: &[u8; 32]) -> (scalar: Option<JubJubScalar>)
    ensures
        scalar is Some <==> le_value(bytes@) < scalar_order(),
        scalar matches Some(k) ==> scalar_encoding(k) == bytes@,
{
    Option::<JubJubScalar>::from(JubJubScalar::from_bytes(bytes))
}

impl Point {
    /// Every `Point` is an element of the group.
    #[verifier::type_invariant]
    pub open spec fn in_group(self) -> bool {
        is_point(self@)
    }

    /// The fixed generator of the group.
    pub fn generator() -> (g: Point)
        ensures
            g@ == generator_encoding(),
            is_point(g@),
    {
        curve_generator()
    }

    /// The sum of two points.
    pub fn add(&self, other: &Point) -> (sum: Point)
        ensures
            sum@ == point_sum(self@, other@),
            is_point(sum@),
    {
        curve_add(self, other)
    }

    /// The difference of two points.
    pub fn sub(&self, other: &Point) -> (diff: Point)
        ensures
            diff@ == point_diff(self@, other@),
            is_point(diff@),
    {
        curve_sub(self, other)
    }

    /// The point added to itself as many times as the scalar says.
    pub fn mul(&self, k: &JubJubScalar) -> (product: Point)
        ensures
            product@ == point_scaled(self@, scalar_value(*k)),
            is_point(product@),
    {
        curve_mul(self, k)
    }

    /// The canonical encoding of the point.
    pub fn to_bytes(&self) -> (bytes: [u8; 32])
        ensures
            bytes@ == self@,
            is_point(self@),
    {
        proof {
            use_type_invariant(self);
        }
        curve_encode(self)
    }

    /// The point that 32 bytes encode, or `InvalidData` where they encode
    /// none.
    pub fn from_bytes(bytes: &[u8; 32]) -> (point: Result<Point, Error>)
        ensures
            match point {
                Ok(p) => decoded(bytes@) == Some(p@) && is_point(p@),
                Err(e) => decoded(bytes@) is None && e == Error::InvalidData,
            },
    {
        match curve_decode(bytes) {
            Some(p) => Ok(p),
            None => Err(Error::InvalidData),
        }
    }
}

impl Default for Point {
    /// The neutral element of the group.
    fn default() -> (o: Point)
        ensures
            o@ == identity_encoding(),
            is_point(o@),
    {
        curve_identity()
    }
}

impl PartialEq for Point {
    fn eq(&self, other: &Point) -> (same: bool) {
        curve_eq(self, other)
    }
}

impl vstd::std_specs::cmp::PartialEqSpecImpl for Point {
    open spec fn obeys_eq_spec() -> bool {
        true
    }

    open spec fn eq_spec(&self, other: &Point) -> bool {
        self@ == other@
    }
}

/// The generator is a point of the group: the group's laws say so.
pub proof fn lemma_generator_in_group()
    requires
        group_laws(),
    ensures
        is_point(generator_encoding()),
{
    reveal(group_laws);
}

/// The sum of two points of the group is a point of the group.
pub proof fn lemma_sum_in_group(a: Seq<u8>, b: Seq<u8>)
    requires
        is_point(a),
        is_point(b),
    ensures
        is_point(point_sum(a, b)),
{
    reveal(group_laws);
}

/// The difference of two points of the group is a point of the group.
pub proof fn lemma_diff_in_group(a: Seq<u8>, b: Seq<u8>)
    requires
        is_point(a),
        is_point(b),
    ensures
        is_point(point_diff(a, b)),
{
    reveal(group_laws);
}

/// A multiple of a point of the group is a point of the group.
pub proof fn lemma_scaled_in_group(p: Seq<u8>, k: nat)
    requires
        is_point(p),
    ensures
        is_point(point_scaled(p, k)),
{
    reveal(group_laws);
}

/// Addition does not mind the order of its operands.
pub proof fn lemma_sum_commutes(a: Seq<u8>, b: Seq<u8>)
    requires
        is_point(a),
        is_point(b),
    ensures
        point_sum(a, b) == point_sum(b, a),
{
    reveal(group_laws);
}

/// Addition does not mind how its operands are grouped.
pub proof fn lemma_sum_associates(a: Seq<u8>, b: Seq<u8>, c: Seq<u8>)
    requires
        is_point(a),
        is_point(b),
        is_point(c),
    ensures
        point_sum(point_sum(a, b), c) == point_sum(a, point_sum(b, c)),
{
    reveal(group_laws);
}

/// Taking away what was added gives the first operand back.
pub proof fn lemma_diff_of_sum(a: Seq<u8>, b: Seq<u8>)
    requires
        is_point(a),
        is_point(b),
    ensures
        point_diff(point_sum(a, b), b) == a,
{
    reveal(group_laws);
}

/// Adding what was taken away gives the first operand back.
pub proof fn lemma_sum_of_diff(a: Seq<u8>, b: Seq<u8>)
    requires
        is_point(a),
        is_point(b),
    ensures
        point_sum(point_diff(a, b), b) == a,
{
    reveal(group_laws);
}

/// A multiple of a sum is the sum of the multiples.
pub proof fn lemma_scaled_sum(a: Seq<u8>, b: Seq<u8>, k: nat)
    requires
        is_point(a),
        is_point(b),
    ensures
        point_scaled(point_sum(a, b), k) == point_sum(point_scaled(a, k), point_scaled(b, k)),
{
    reveal(group_laws);
}

/// Multiplying twice does not mind the order of the two scalars.
pub proof fn lemma_scaled_twice(p: Seq<u8>, k: nat, j: nat)
    requires
        is_point(p),
    ensures
        point_scaled(point_scaled(p, k), j) == point_scaled(point_scaled(p, j), k),
{
    reveal(group_laws);
}

} // verus!
