use dusk_plonk::jubjub::{JubJubAffine, JubJubExtended, JubJubScalar, GENERATOR_EXTENDED};
use elgamal::{Cypher, Error, Point, PrivateKey, PublicKey};
use rand::SeedableRng;

fn encoding_of(point: JubJubExtended) -> [u8; 32] {
    JubJubAffine::from(point).to_bytes()
}

fn point_of(point: JubJubExtended) -> Point {
    Point::from_bytes(&encoding_of(point)).unwrap()
}

fn private_of(value: u64) -> PrivateKey {
    PrivateKey::from_bytes(&JubJubScalar::from(value).to_bytes()).unwrap()
}

fn generator_bytes() -> [u8; 32] {
    let mut bytes = [0u8; 32];
    bytes[0] = 18;
    bytes
}

fn order_bytes() -> [u8; 32] {
    [
        183, 44, 247, 214, 94, 14, 151, 208, 130, 16, 200, 204, 147, 32, 104, 166, 0, 59, 52, 1, 1,
        59, 103, 6, 169, 175, 51, 101, 234, 180, 125, 14,
    ]
}

#[test]
fn test_cypher_encrypt_decrypt() {
    let private = PrivateKey::new(&mut rand::thread_rng());

    let public = PublicKey::from(private);

    let message = point_of(GENERATOR_EXTENDED * JubJubScalar::random(&mut rand::thread_rng()));

    let y = JubJubScalar::random(&mut rand::thread_rng());
    let a = public.encrypt(message, y);
    let b = a.decrypt(private);

    assert_eq!(message, b);
}

#[test]
fn test_wrong_message() {
    let private = PrivateKey::new(&mut rand::thread_rng());

    let public = PublicKey::from(private);

    let message = point_of(GENERATOR_EXTENDED * JubJubScalar::random(&mut rand::thread_rng()));
    let m_1 = point_of(GENERATOR_EXTENDED * JubJubScalar::random(&mut rand::thread_rng()));
    let y = JubJubScalar::random(&mut rand::thread_rng());
    let a = public.encrypt(message, y);
    let b = a.decrypt(private);

    assert_ne!(m_1, b);
}

#[test]
fn test_generator_encoding() {
    assert_eq!(Point::generator().to_bytes(), generator_bytes());
    assert_eq!(Point::generator().to_bytes(), encoding_of(GENERATOR_EXTENDED));
}

#[test]
fn test_identity_encoding() {
    let mut identity = [0u8; 32];
    identity[0] = 1;
    assert_eq!(Point::default().to_bytes(), identity);
    assert_eq!(Point::default().to_bytes(), encoding_of(JubJubExtended::identity()));
}

#[test]
fn test_point_arithmetic_is_the_curves() {
    let p = GENERATOR_EXTENDED * JubJubScalar::from(7u64);
    let q = GENERATOR_EXTENDED * JubJubScalar::from(11u64);
    let k = JubJubScalar::from(5u64);
    assert_eq!(point_of(p).add(&point_of(q)).to_bytes(), encoding_of(p + q));
    assert_eq!(point_of(p).sub(&point_of(q)).to_bytes(), encoding_of(p - q));
    assert_eq!(point_of(p).mul(&k).to_bytes(), encoding_of(p * k));
    assert_eq!(
        point_of(p).add(&point_of(q)).to_bytes(),
        encoding_of(GENERATOR_EXTENDED * JubJubScalar::from(18u64))
    );
    assert_eq!(
        point_of(p).mul(&k).to_bytes(),
        encoding_of(GENERATOR_EXTENDED * JubJubScalar::from(35u64))
    );
    assert_ne!(point_of(p).add(&point_of(q)).to_bytes(), encoding_of(p));
    assert_ne!(point_of(p).sub(&point_of(q)).to_bytes(), encoding_of(p));
    assert_ne!(point_of(p).mul(&k).to_bytes(), encoding_of(p));
}

#[test]
fn test_point_equality_is_of_points() {
    let seven = point_of(GENERATOR_EXTENDED * JubJubScalar::from(7u64));
    let three = point_of(GENERATOR_EXTENDED * JubJubScalar::from(3u64));
    let four = point_of(GENERATOR_EXTENDED * JubJubScalar::from(4u64));
    assert!(three.add(&four) == seven);
    assert!(three != seven);
    assert!(three != four);
}

#[test]
fn test_point_round_trip() {
    let bytes = encoding_of(GENERATOR_EXTENDED * JubJubScalar::from(1234567u64));
    assert_ne!(bytes, [0u8; 32]);
    assert_eq!(Point::from_bytes(&bytes).unwrap().to_bytes(), bytes);
}

#[test]
fn test_point_from_bytes_rejects_what_is_no_point() {
    // y is not below the modulus of the base field
    assert_eq!(Point::from_bytes(&[0xffu8; 32]).err(), Some(Error::InvalidData));
}

#[test]
fn test_point_from_bytes_rejects_a_y_off_the_curve() {
    // y = 2 is in range, and no point of the curve has it
    let mut bytes = [0u8; 32];
    bytes[0] = 2;
    assert_eq!(Point::from_bytes(&bytes).err(), Some(Error::InvalidData));
    // y = 3 is next to it, and on the curve
    bytes[0] = 3;
    assert_eq!(Point::from_bytes(&bytes).unwrap().to_bytes(), bytes);
}

#[test]
fn test_point_from_bytes_settles_the_sign_of_zero() {
    // The neutral element has x = 0: with the sign bit set the bytes still
    // decode to it, and it encodes without the bit.
    let mut bytes = [0u8; 32];
    bytes[0] = 1;
    bytes[31] = 0x80;
    let point = Point::from_bytes(&bytes).unwrap();
    assert_eq!(point, Point::default());
    assert_eq!(point.to_bytes()[31], 0);
}

#[test]
fn test_private_key_round_trip() {
    let mut bytes = [0u8; 32];
    bytes[0] = 2;
    bytes[1] = 1;
    let private = PrivateKey::from_bytes(&bytes).unwrap();
    assert_eq!(private.to_bytes(), bytes);
    assert_eq!(PrivateKey::from_bytes(&private.to_bytes()).unwrap(), private);
}

#[test]
fn test_private_key_round_trip_of_a_drawn_key() {
    let mut rng = rand::rngs::StdRng::seed_from_u64(42);
    let private = PrivateKey::new(&mut rng);
    let bytes = private.to_bytes();
    let again = PrivateKey::from_bytes(&bytes).unwrap();
    assert_eq!(again, private);
    assert_eq!(again.to_bytes(), bytes);
}

#[test]
fn test_private_key_is_drawn_from_the_source() {
    let first = PrivateKey::new(&mut rand::rngs::StdRng::seed_from_u64(1));
    let again = PrivateKey::new(&mut rand::rngs::StdRng::seed_from_u64(1));
    let other = PrivateKey::new(&mut rand::rngs::StdRng::seed_from_u64(2));
    assert_eq!(first, again);
    assert_ne!(first, other);
    assert_ne!(first.to_bytes(), [0u8; 32]);
}

#[test]
fn test_private_key_bytes_are_little_endian() {
    // 2 + 1 * 256 = 258
    let mut bytes = [0u8; 32];
    bytes[0] = 2;
    bytes[1] = 1;
    let private = PrivateKey::from_bytes(&bytes).unwrap();
    let public = PublicKey::from(private);
    let message = Point::generator();
    let cypher = public.encrypt(message, JubJubScalar::one());
    // delta = message + public * 1
    let public_point = cypher.delta().sub(&message);
    assert_eq!(
        public_point.to_bytes(),
        encoding_of(GENERATOR_EXTENDED * JubJubScalar::from(258u64))
    );
}

#[test]
fn test_private_key_largest_scalar() {
    let mut bytes = order_bytes();
    bytes[0] -= 1;
    let private = PrivateKey::from_bytes(&bytes).unwrap();
    assert_eq!(private.to_bytes(), bytes);
}

#[test]
fn test_private_key_rejects_the_order() {
    assert_eq!(PrivateKey::from_bytes(&order_bytes()).err(), Some(Error::SerialisationError));
}

#[test]
fn test_private_key_rejects_above_the_order() {
    let mut bytes = order_bytes();
    bytes[0] += 1;
    assert_eq!(PrivateKey::from_bytes(&bytes).err(), Some(Error::SerialisationError));
    assert_eq!(PrivateKey::from_bytes(&[0xffu8; 32]).err(), Some(Error::SerialisationError));
}

#[test]
fn test_encrypt_is_the_elgamal_relation() {
    let private = private_of(77);
    let public = PublicKey::from(private);
    let message = GENERATOR_EXTENDED * JubJubScalar::from(1000u64);
    let secret = JubJubScalar::from(31u64);
    let cypher = public.encrypt(point_of(message), secret);
    let public_point = GENERATOR_EXTENDED * JubJubScalar::from(77u64);
    assert_eq!(cypher.gamma().to_bytes(), encoding_of(GENERATOR_EXTENDED * secret));
    assert_eq!(cypher.delta().to_bytes(), encoding_of(message + public_point * secret));
}

#[test]
fn test_decrypt_is_delta_less_gamma_times_key() {
    let gamma = GENERATOR_EXTENDED * JubJubScalar::from(5u64);
    let delta = GENERATOR_EXTENDED * JubJubScalar::from(100u64);
    let mut bytes = [0u8; 64];
    bytes[..32].copy_from_slice(&encoding_of(gamma));
    bytes[32..].copy_from_slice(&encoding_of(delta));
    let cypher = Cypher::from_bytes(bytes).unwrap();
    // 100 - 5 * 3 = 85
    assert_eq!(
        cypher.decrypt(private_of(3)).to_bytes(),
        encoding_of(GENERATOR_EXTENDED * JubJubScalar::from(85u64))
    );
}

#[test]
fn test_decryption_correctness() {
    let private = private_of(123456789);
    let public = PublicKey::from(private);
    let message = point_of(GENERATOR_EXTENDED * JubJubScalar::from(42u64));
    let cypher = public.encrypt(message, JubJubScalar::from(987654321u64));
    assert_eq!(cypher.decrypt(private), message);
}

#[test]
fn test_decryption_with_secret_zero() {
    let private = private_of(5);
    let public = PublicKey::from(private);
    let message = point_of(GENERATOR_EXTENDED * JubJubScalar::from(42u64));
    let cypher = public.encrypt(message, JubJubScalar::zero());
    assert_eq!(cypher.gamma(), Point::default());
    assert_eq!(cypher.delta(), message);
    assert_eq!(cypher.decrypt(private), message);
}

#[test]
fn test_homomorphic_addition() {
    let private = private_of(1111);
    let public = PublicKey::from(private);
    let m1 = GENERATOR_EXTENDED * JubJubScalar::from(20u64);
    let m2 = GENERATOR_EXTENDED * JubJubScalar::from(22u64);
    let c1 = public.encrypt(point_of(m1), JubJubScalar::from(3u64));
    let c2 = public.encrypt(point_of(m2), JubJubScalar::from(4u64));
    let sum = c1.add(&c2);
    assert_eq!(sum.decrypt(private).to_bytes(), encoding_of(m1 + m2));
    assert_eq!(
        sum.decrypt(private).to_bytes(),
        encoding_of(GENERATOR_EXTENDED * JubJubScalar::from(42u64))
    );
    assert_eq!(sum.gamma().to_bytes(), c1.gamma().add(&c2.gamma()).to_bytes());
    assert_eq!(sum.delta().to_bytes(), c1.delta().add(&c2.delta()).to_bytes());
}

#[test]
fn test_homomorphic_addition_with_one_secret() {
    let private = private_of(1111);
    let public = PublicKey::from(private);
    let m1 = GENERATOR_EXTENDED * JubJubScalar::from(20u64);
    let m2 = GENERATOR_EXTENDED * JubJubScalar::from(22u64);
    let c1 = public.encrypt(point_of(m1), JubJubScalar::from(3u64));
    let c2 = public.encrypt(point_of(m2), JubJubScalar::from(3u64));
    assert_eq!(c1.add(&c2).decrypt(private).to_bytes(), encoding_of(m1 + m2));
}

#[test]
fn test_homomorphic_subtraction() {
    let private = private_of(2222);
    let public = PublicKey::from(private);
    let m1 = GENERATOR_EXTENDED * JubJubScalar::from(50u64);
    let m2 = GENERATOR_EXTENDED * JubJubScalar::from(8u64);
    let c1 = public.encrypt(point_of(m1), JubJubScalar::from(13u64));
    let c2 = public.encrypt(point_of(m2), JubJubScalar::from(17u64));
    let diff = c1.sub(&c2);
    assert_eq!(diff.decrypt(private).to_bytes(), encoding_of(m1 - m2));
    assert_eq!(
        diff.decrypt(private).to_bytes(),
        encoding_of(GENERATOR_EXTENDED * JubJubScalar::from(42u64))
    );
}

#[test]
fn test_homomorphic_scalar_multiplication() {
    let private = private_of(3333);
    let public = PublicKey::from(private);
    let message = GENERATOR_EXTENDED * JubJubScalar::from(6u64);
    let k = JubJubScalar::from(7u64);
    let cypher = public.encrypt(point_of(message), JubJubScalar::from(19u64));
    let product = cypher.mul(&k);
    assert_eq!(product.decrypt(private).to_bytes(), encoding_of(message * k));
    assert_eq!(
        product.decrypt(private).to_bytes(),
        encoding_of(GENERATOR_EXTENDED * JubJubScalar::from(42u64))
    );
    assert_eq!(cypher.mul_by(k).to_bytes(), product.to_bytes());
}

#[test]
fn test_in_place_forms_agree() {
    let public = PublicKey::from(private_of(9));
    let c1 = public.encrypt(Point::generator(), JubJubScalar::from(3u64));
    let c2 = public.encrypt(Point::default(), JubJubScalar::from(4u64));
    let k = JubJubScalar::from(6u64);

    let mut sum = c1;
    sum.add_assign(c2);
    assert_eq!(sum.to_bytes(), c1.add(&c2).to_bytes());
    assert_ne!(sum.to_bytes(), c1.to_bytes());

    let mut diff = c1;
    diff.sub_assign(c2);
    assert_eq!(diff.to_bytes(), c1.sub(&c2).to_bytes());
    assert_ne!(diff.to_bytes(), c1.to_bytes());

    let mut product = c1;
    product.mul_assign(&k);
    assert_eq!(product.to_bytes(), c1.mul(&k).to_bytes());
    assert_ne!(product.to_bytes(), c1.to_bytes());

    let mut product_by = c1;
    product_by.mul_assign_by(k);
    assert_eq!(product_by.to_bytes(), c1.mul(&k).to_bytes());
}

#[test]
fn test_wrong_key() {
    let private = private_of(1000);
    let other = private_of(1001);
    let public = PublicKey::from(private);
    let message = point_of(GENERATOR_EXTENDED * JubJubScalar::from(42u64));
    let cypher = public.encrypt(message, JubJubScalar::from(5u64));
    assert_ne!(cypher.decrypt(other), message);
    assert_eq!(cypher.decrypt(private), message);
}

#[test]
fn test_generator_with_secret_one() {
    let mut rng = rand::rngs::StdRng::seed_from_u64(7);
    let private = PrivateKey::new(&mut rng);
    let public = PublicKey::from(private);
    let cypher = public.encrypt(Point::generator(), JubJubScalar::one());
    assert_eq!(cypher.gamma(), Point::generator());
    assert_eq!(cypher.gamma().to_bytes(), generator_bytes());
    assert_eq!(cypher.decrypt(private), Point::generator());
}

#[test]
fn test_cypher_bytes_are_gamma_then_delta() {
    let public = PublicKey::from(private_of(31337));
    let message = point_of(GENERATOR_EXTENDED * JubJubScalar::from(9u64));
    let cypher = public.encrypt(message, JubJubScalar::from(17u64));
    let bytes = cypher.to_bytes();
    assert_eq!(bytes[..32], cypher.gamma().to_bytes());
    assert_eq!(bytes[32..], cypher.delta().to_bytes());
    assert_ne!(bytes[..32], bytes[32..]);
}

#[test]
fn test_cypher_round_trip() {
    let public = PublicKey::from(private_of(31337));
    let message = point_of(GENERATOR_EXTENDED * JubJubScalar::from(9u64));
    let cypher = public.encrypt(message, JubJubScalar::from(17u64));
    let again = Cypher::from_bytes(cypher.to_bytes()).unwrap();
    assert_eq!(again.gamma(), cypher.gamma());
    assert_eq!(again.delta(), cypher.delta());
    assert_eq!(again.to_bytes(), cypher.to_bytes());
}

#[test]
fn test_default_cypher() {
    let mut bytes = [0u8; 64];
    bytes[0] = 1;
    bytes[32] = 1;
    assert_eq!(Cypher::default().to_bytes(), bytes);
}

#[test]
fn test_cypher_from_bytes_rejects_an_invalid_first_half() {
    let mut bytes = [0u8; 64];
    bytes[..32].copy_from_slice(&[0xffu8; 32]);
    bytes[32..].copy_from_slice(&generator_bytes());
    assert_eq!(Cypher::from_bytes(bytes).err(), Some(Error::InvalidData));
}

#[test]
fn test_cypher_from_bytes_rejects_an_invalid_second_half() {
    let mut bytes = [0u8; 64];
    bytes[..32].copy_from_slice(&generator_bytes());
    bytes[32..].copy_from_slice(&[0xffu8; 32]);
    assert_eq!(Cypher::from_bytes(bytes).err(), Some(Error::InvalidData));
}

#[test]
fn test_cypher_from_bytes_rejects_a_half_off_the_curve() {
    let mut off_curve = [0u8; 32];
    off_curve[0] = 2;
    let mut bytes = [0u8; 64];
    bytes[..32].copy_from_slice(&generator_bytes());
    bytes[32..].copy_from_slice(&off_curve);
    assert_eq!(Cypher::from_bytes(bytes).err(), Some(Error::InvalidData));
    bytes[..32].copy_from_slice(&off_curve);
    bytes[32..].copy_from_slice(&generator_bytes());
    assert_eq!(Cypher::from_bytes(bytes).err(), Some(Error::InvalidData));
}

#[test]
fn test_cypher_from_bytes_rejects_two_invalid_halves() {
    assert_eq!(Cypher::from_bytes([0xffu8; 64]).err(), Some(Error::InvalidData));
}

#[test]
fn test_streaming_agrees_with_to_bytes() {
    let public = PublicKey::from(private_of(5));
    let message = point_of(GENERATOR_EXTENDED * JubJubScalar::from(9u64));
    let cypher = public.encrypt(message, JubJubScalar::from(17u64));
    let mut buf = [0u8; 64];
    assert_eq!(cypher.read(&mut buf), Ok(64));
    assert_eq!(buf, cypher.to_bytes());
}

#[test]
fn test_read_leaves_the_rest_of_the_buffer() {
    let cypher = Cypher::default();
    let mut buf = [7u8; 70];
    assert_eq!(cypher.read(&mut buf), Ok(64));
    assert_eq!(buf[..64], cypher.to_bytes());
    assert_eq!(buf[64..], [7u8; 6]);
}

#[test]
fn test_read_into_a_short_buffer() {
    let cypher = Cypher::default();
    let mut buf = [7u8; 63];
    assert_eq!(cypher.read(&mut buf), Err(Error::Generic));
    assert_eq!(buf, [7u8; 63]);
    let mut empty = [0u8; 0];
    assert_eq!(cypher.read(&mut empty), Err(Error::Generic));
}

#[test]
fn test_write_round_trip() {
    let public = PublicKey::from(private_of(5));
    let message = point_of(GENERATOR_EXTENDED * JubJubScalar::from(9u64));
    let cypher = public.encrypt(message, JubJubScalar::from(17u64));
    let mut buf = [0u8; 80];
    assert_eq!(cypher.read(&mut buf), Ok(64));
    let mut again = Cypher::default();
    assert_eq!(again.write(&buf), Ok(64));
    assert_eq!(again.gamma(), cypher.gamma());
    assert_eq!(again.delta(), cypher.delta());
    assert_ne!(again.gamma(), again.delta());
}

#[test]
fn test_write_agrees_with_from_bytes() {
    let mut bytes = [0u8; 64];
    bytes[..32].copy_from_slice(&encoding_of(GENERATOR_EXTENDED * JubJubScalar::from(2u64)));
    bytes[32..].copy_from_slice(&encoding_of(GENERATOR_EXTENDED * JubJubScalar::from(3u64)));
    let mut written = Cypher::default();
    assert_eq!(written.write(&bytes), Ok(64));
    assert_eq!(written.to_bytes(), Cypher::from_bytes(bytes).unwrap().to_bytes());
    assert_eq!(written.to_bytes(), bytes);
}

#[test]
fn test_write_from_a_short_buffer() {
    let public = PublicKey::from(private_of(5));
    let mut cypher = public.encrypt(Point::generator(), JubJubScalar::from(17u64));
    let before = cypher.to_bytes();
    assert_eq!(cypher.write(&[0u8; 63]), Err(Error::Generic));
    assert_eq!(cypher.write(&[]), Err(Error::Generic));
    assert_eq!(cypher.to_bytes(), before);
}

#[test]
fn test_write_rejects_what_is_no_point() {
    let public = PublicKey::from(private_of(5));
    let mut cypher = public.encrypt(Point::generator(), JubJubScalar::from(17u64));
    let before = cypher.to_bytes();

    let mut first = [0u8; 64];
    first[..32].copy_from_slice(&[0xffu8; 32]);
    first[32..].copy_from_slice(&generator_bytes());
    assert_eq!(cypher.write(&first), Err(Error::InvalidData));
    assert_eq!(cypher.to_bytes(), before);

    let mut second = [0u8; 64];
    second[..32].copy_from_slice(&generator_bytes());
    second[32..].copy_from_slice(&[0xffu8; 32]);
    assert_eq!(cypher.write(&second), Err(Error::InvalidData));
    assert_eq!(cypher.to_bytes(), before);
}

#[test]
fn test_flush() {
    let mut cypher = Cypher::default();
    let before = cypher.to_bytes();
    assert_eq!(cypher.flush(), Ok(()));
    assert_eq!(cypher.to_bytes(), before);
}

#[test]
fn test_error_generic() {
    assert_eq!(Error::generic(5u8), Error::Generic);
    assert_eq!(Error::generic("anything"), Error::Generic);
    assert_eq!(Error::generic(Error::InvalidData), Error::Generic);
}

#[test]
fn test_error_messages() {
    assert_eq!(Error::Generic.message(), "Generic Error in Encryption scheme");
    assert_eq!(Error::InvalidData.message(), "Invalid data given for encryption scheme");
    assert_eq!(Error::SerialisationError.message(), "Byte serialisation performed incorrectly");
}
