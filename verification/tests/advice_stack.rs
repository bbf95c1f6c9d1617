use miden_clob::falcon::{
    assemble_advice_stack, generate_advice_stack_from_signature,
    try_generate_advice_stack_from_signature, Polynomial, N,
};
use miden_clob::field::FIELD_MODULUS;
use miden_crypto::dsa::rpo_falcon512::{Polynomial as FalconPolynomial, SecretKey};
use miden_crypto::hash::rpo::Rpo256;
use miden_crypto::{Felt, Word};

fn padded(values: &[u64]) -> Polynomial {
    let mut coefficients = values.to_vec();
    coefficients.resize(N, 0);
    Polynomial { coefficients }
}

fn reference_challenge(polynomials: &[u64]) -> [u64; 4] {
    let felts: Vec<Felt> = polynomials.iter().map(|v| Felt::new(*v)).collect();
    Rpo256::hash_elements(&felts).into()
}

#[test]
fn advice_stack_lays_out_h_s2_and_their_product() {
    // (1 + 2x) * (3 + 4x) = 3 + 10x + 8x^2
    let h = padded(&[1, 2]);
    let s2 = padded(&[3, 4]);
    let stack = generate_advice_stack_from_signature(h, s2);
    assert_eq!(stack.len(), 2 + N + N + 2 * N);
    let polynomials = &stack[2..];
    assert_eq!(&polynomials[0..2], &[1, 2]);
    assert!(polynomials[2..N].iter().all(|v| *v == 0));
    assert_eq!(&polynomials[N..N + 2], &[3, 4]);
    assert_eq!(&polynomials[2 * N..2 * N + 4], &[3, 10, 8, 0]);
    assert!(polynomials[2 * N + 3..].iter().all(|v| *v == 0));
    let digest = reference_challenge(polynomials);
    assert_eq!(&stack[0..2], &digest[0..2]);
}

#[test]
fn product_coefficients_are_reduced_into_the_field() {
    // (2^32 + x) * (1 + (2^32 - 1) x): the x coefficient is 2^32 (2^32 - 1) + 1 = p, which
    // reduces to 0; the constant 2^32 and the x^2 coefficient 2^32 - 1 stay as they are.
    let h = padded(&[1 << 32, 1]);
    let s2 = padded(&[1, (1 << 32) - 1]);
    let stack = generate_advice_stack_from_signature(h, s2);
    let product = &stack[2 + 2 * N..];
    assert_eq!(&product[0..3], &[1 << 32, 0, (1 << 32) - 1]);
    assert_eq!(2u64.pow(32) * (2u64.pow(32) - 1) + 1, FIELD_MODULUS);
}

#[test]
fn advice_stack_of_a_real_falcon_signature() {
    let key = SecretKey::new();
    let message: Word = [Felt::new(1), Felt::new(2), Felt::new(3), Felt::new(4)];
    let signature = key.sign(message);
    let s2: FalconPolynomial<Felt> = signature.sig_poly().into();
    let h: FalconPolynomial<Felt> = key.compute_pub_key_poly().0.clone().into();
    let h_values: Vec<u64> = h.coefficients.iter().map(|c| c.as_int()).collect();
    let s2_values: Vec<u64> = s2.coefficients.iter().map(|c| c.as_int()).collect();

    // The product as miden-crypto computes it.
    let expected_product = FalconPolynomial::mul_modulo_p(&key.compute_pub_key_poly().0, signature.sig_poly());

    let stack = generate_advice_stack_from_signature(
        Polynomial { coefficients: h_values.clone() },
        Polynomial { coefficients: s2_values.clone() },
    );
    let mut polynomials = h_values.clone();
    polynomials.extend(&s2_values);
    polynomials.extend(expected_product.iter().map(|v| Felt::new(*v).as_int()));
    assert_eq!(&stack[2..], &polynomials[..]);
    let digest = reference_challenge(&polynomials);
    assert_eq!(&stack[0..2], &digest[0..2]);
}

#[test]
fn assembled_stack_puts_the_challenge_first() {
    let stack = assemble_advice_stack([9, 8, 7, 6], &vec![1, 2, 3]);
    assert_eq!(stack, vec![9, 8, 1, 2, 3]);
}

#[test]
fn checked_variant_refuses_what_the_plain_one_does_not_take() {
    // Too few coefficients.
    assert!(try_generate_advice_stack_from_signature(Polynomial { coefficients: vec![1; N - 1] }, padded(&[1])).is_none());
    // A coefficient that is not a canonical field element.
    assert!(try_generate_advice_stack_from_signature(padded(&[FIELD_MODULUS]), padded(&[1])).is_none());
    // A product coefficient above u64::MAX: (2^33) * (2^32) = 2^65.
    assert!(try_generate_advice_stack_from_signature(padded(&[1 << 33]), padded(&[1 << 32])).is_none());
    // Two terms that each fit but whose sum does not: 2 * (2^32 * 2^31) = 2^64.
    assert!(try_generate_advice_stack_from_signature(padded(&[1 << 32, 1 << 32]), padded(&[1 << 31, 1 << 31])).is_none());
    // Otherwise it agrees with the plain function.
    let checked = try_generate_advice_stack_from_signature(padded(&[5, 6, 7]), padded(&[8, 9])).unwrap();
    assert_eq!(checked, generate_advice_stack_from_signature(padded(&[5, 6, 7]), padded(&[8, 9])));
}
