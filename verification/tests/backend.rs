use halo2curves::bn256::Fr;
use poseidon_bench::backend::{proof_generator, proof_seed, scalar, scalar_checks, scalar_inputs};
use poseidon_bench::table::{FieldElement, HashTable, HashTableRow};
use rand_chacha::rand_core::{RngCore, SeedableRng};
use rand_chacha::ChaCha8Rng;

const MODULUS: [u64; 4] =
    [0x43e1f593f0000001, 0x2833e84879b97091, 0xb85045b68181585d, 0x30644e72e131a029];

fn draw(generator: &mut ChaCha8Rng) -> Vec<u64> {
    (0..16).map(|_| generator.next_u64()).collect()
}

#[test]
fn scalar_of_a_small_integer_is_that_integer() {
    assert_eq!(scalar(&FieldElement::from_u64(0)), Fr::from(0));
    assert_eq!(scalar(&FieldElement::from_u64(1)), Fr::from(1));
    assert_eq!(scalar(&FieldElement::from_u64(30)), Fr::from(30));
    assert_eq!(scalar(&FieldElement::from_u64(65536)), Fr::from(65536));
    assert_eq!(scalar(&FieldElement::from_u64(u64::MAX)), Fr::from(u64::MAX));
    assert_ne!(scalar(&FieldElement::from_u64(5)), Fr::from(6));
}

#[test]
fn scalar_takes_the_words_least_significant_first() {
    let two_to_64 = Fr::from(u64::MAX) + Fr::from(1);
    assert_eq!(scalar(&FieldElement { limbs: [0, 1, 0, 0] }), two_to_64);
    assert_eq!(scalar(&FieldElement { limbs: [7, 3, 0, 0] }), two_to_64 * Fr::from(3) + Fr::from(7));
    assert_eq!(scalar(&FieldElement { limbs: [0, 0, 1, 0] }), two_to_64 * two_to_64);
    assert_eq!(scalar(&FieldElement { limbs: [0, 0, 0, 1] }), two_to_64 * two_to_64 * two_to_64);
}

#[test]
fn scalar_reduces_modulo_the_order_of_the_field() {
    assert_eq!(scalar(&FieldElement { limbs: MODULUS }), Fr::from(0));
    let mut above = MODULUS;
    above[0] += 41;
    assert_eq!(scalar(&FieldElement { limbs: above }), Fr::from(41));
    let mut below = MODULUS;
    below[0] -= 1;
    assert_eq!(scalar(&FieldElement { limbs: below }), -Fr::from(1));
}

#[test]
fn scalar_inputs_follow_the_rows() {
    let table = HashTable::from_rows(vec![
        HashTableRow::from_words(1, 2, 0),
        HashTableRow::from_words(30, 1, 46),
        HashTableRow::from_words(65536, 0, 14),
    ]);
    assert_eq!(
        scalar_inputs(&table),
        vec![
            [Fr::from(1), Fr::from(2)],
            [Fr::from(30), Fr::from(1)],
            [Fr::from(65536), Fr::from(0)],
        ]
    );
    assert!(scalar_inputs(&HashTable::empty()).is_empty());
}

#[test]
fn scalar_inputs_of_generated_rows_count_upwards() {
    let inputs = scalar_inputs(&HashTable::sequential(100, 13));
    assert_eq!(inputs.len(), 100);
    for (i, pair) in inputs.iter().enumerate() {
        assert_eq!(pair, &[Fr::from(i as u64), Fr::from(i as u64 + 1)]);
    }
}

#[test]
fn scalar_checks_keep_what_is_absent() {
    let table = HashTable::sequential(3, 0).with_checks(vec![
        None,
        Some(FieldElement::from_u64(9)),
        Some(FieldElement { limbs: MODULUS }),
    ]);
    assert_eq!(scalar_checks(&table), vec![None, Some(Fr::from(9)), Some(Fr::from(0))]);
    assert!(scalar_checks(&HashTable::sequential(3, 0)).is_empty());
}

#[test]
fn proof_seed_is_the_byte_101_thirty_two_times() {
    let seed = proof_seed();
    assert_eq!(seed.len(), 32);
    assert!(seed.iter().all(|byte| *byte == 101));
}

#[test]
fn proof_generator_is_seeded_with_the_proof_seed() {
    let mut expected = ChaCha8Rng::from_seed([101u8; 32]);
    assert_eq!(draw(&mut proof_generator()), draw(&mut expected));
}

#[test]
fn proof_generators_draw_the_same_numbers() {
    let mut first = proof_generator();
    let mut second = proof_generator();
    assert_eq!(first, second);
    assert_eq!(draw(&mut first), draw(&mut second));
    assert_eq!(draw(&mut first), draw(&mut second));
}

#[test]
fn proof_generator_differs_from_one_with_another_seed() {
    let mut other = ChaCha8Rng::from_seed([0u8; 32]);
    assert_ne!(draw(&mut proof_generator()), draw(&mut other));
    let mut other = ChaCha8Rng::from_seed([100u8; 32]);
    assert_ne!(draw(&mut proof_generator()), draw(&mut other));
}
