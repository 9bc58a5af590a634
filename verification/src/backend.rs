//! What the library hands to the proof system in the proof system's own
//! types: the scalars of a hash table, and the generator that the prover
//! draws from.

use crate::table::FieldElement;
use crate::table::HashTable;
use halo2curves::bn256::Fr;
use rand_chacha::rand_core::SeedableRng;
use rand_chacha::ChaCha8Rng;
use vstd::prelude::*;

verus! {

/// Makes `halo2curves::bn256::Fr`, the scalar of the proof system, known to
/// the verifier, as a type that it does not see into.
#[verifier::external_type_specification]
#[verifier::external_body]
pub struct ExScalar(Fr);

/// Makes `rand_chacha::ChaCha8Rng` known to the verifier, as a type that it
/// does not see into.
#[verifier::external_type_specification]
#[verifier::external_body]
pub struct ExGenerator(ChaCha8Rng);

/// The scalar that `halo2curves::bn256::Fr::from_raw` makes of the four
/// words, least significant first, of the integer `value`: the element of
/// the field that is congruent to it.
pub uninterp spec fn scalar_of(value: nat) -> Fr;

/// The generator that `rand_chacha::ChaCha8Rng::from_seed` makes of a seed.
/// Its state, and so all that is drawn from it, depends on the seed alone.
pub uninterp spec fn generator_of(seed: Seq<u8>) -> ChaCha8Rng;

/// The seed of the generator that the prover draws from, as a sequence.
pub open spec fn proof_seed_bytes() -> Seq<u8> {
    Seq::new(32, |i: int| 101u8)
}

/// Calls `halo2curves::bn256::Fr::from_raw`, which accepts any four words and
/// reduces the integer they stand for. The contract names its result, which
/// depends on that integer alone.
#[verifier::external_body]
fn scalar_from_raw(element: &FieldElement) -> (scalar: Fr)
    ensures
        scalar == scalar_of(element@),
{
    Fr::from_raw(element.limbs)
}

/// Calls `rand_chacha::ChaCha8Rng::from_seed`, which accepts any seed. The
/// contract names its result.
#[verifier::external_body]
fn generator_from_seed(seed: [u8; 32]) -> (generator: ChaCha8Rng)
    ensures
        generator == generator_of(seed@),
{
    ChaCha8Rng::from_seed(seed)
}

/// The seed of the generator that the prover draws from: the byte 101,
/// thirty-two times. Every run uses it, so that a run can be repeated.
pub fn proof_seed() -> (seed: [u8; 32])
    ensures
        seed@ == proof_seed_bytes(),
{
    let seed = [101u8; 32];
    assert(seed@ =~= proof_seed_bytes());
    seed
}

/// The generator that the prover draws from, freshly seeded with
/// [`proof_seed`]. Two calls give generators in the same state.
pub fn proof_generator() -> (generator: ChaCha8Rng)
    ensures
        generator == generator_of(proof_seed_bytes()),
{
    generator_from_seed(proof_seed())
}

/// The scalar that stands for `element` in the proof system.
pub fn scalar(element: &FieldElement) -> (scalar: Fr)
    ensures
        scalar == scalar_of(element@),
{
    scalar_from_raw(element)
}

/// The input pairs of `table` as scalars, in the order of the rows.
pub fn scalar_inputs(table: &HashTable) -> (inputs: Vec<[Fr; 2]>)
    ensures
        inputs.len() == table@.len(),
        forall|i: int|
            0 <= i < table@.len() ==> inputs[i]@ == seq![
                scalar_of(table@[i].left@),
                scalar_of(table@[i].right@),
            ],
{
    let rows = table.rows();
    let mut inputs: Vec<[Fr; 2]> = Vec::new();
    let mut i: usize = 0;
    while i < rows.len()
        invariant
            i <= rows.len(),
            rows@ == table@,
            inputs.len() == i,
            forall|j: int|
                0 <= j < i ==> inputs[j]@ == seq![
                    scalar_of(table@[j].left@),
                    scalar_of(table@[j].right@),
                ],
        decreases rows.len() - i,
    {
        let row = rows[i];
        let pair = [scalar(&row.left), scalar(&row.right)];
        assert(pair@ =~= seq![scalar_of(row.left@), scalar_of(row.right@)]);
        inputs.push(pair);
        i = i + 1;
    }
    inputs
}

/// The expected outputs that `table` carries, as scalars.
pub fn scalar_checks(table: &HashTable) -> (checks: Vec<Option<Fr>>)
    ensures
        checks.len() == table.spec_checks().len(),
        forall|i: int|
            0 <= i < table.spec_checks().len() ==> checks[i] == match table.spec_checks()[i] {
                Some(element) => Some(scalar_of(element@)),
                None => None::<Fr>,
            },
{
    let given = table.checks();
    let mut checks: Vec<Option<Fr>> = Vec::new();
    let mut i: usize = 0;
    while i < given.len()
        invariant
            i <= given.len(),
            given@ == table.spec_checks(),
            checks.len() == i,
            forall|j: int|
                0 <= j < i ==> checks[j] == match table.spec_checks()[j] {
                    Some(element) => Some(scalar_of(element@)),
                    None => None::<Fr>,
                },
        decreases given.len() - i,
    {
        let check = match given[i] {
            Some(element) => Some(scalar(&element)),
            None => None,
        };
        checks.push(check);
        i = i + 1;
    }
    checks
}

} // verus!
