//! The hashing statement: a constraint system that takes field elements as
//! private witnesses and hashes them with Poseidon.

use crate::config::elements_view;
use crate::field::FieldElement;
use crate::hash::allocated;
use crate::hash::canonical_config;
use crate::hash::lemma_allocated;
use crate::hash::PoseidonHashVar;
use crate::r1cs::all_belong_to;
use crate::r1cs::all_carry_values;
use crate::r1cs::belongs_to;
use crate::r1cs::is_missing_system;
use crate::r1cs::system_in_setup;
use crate::r1cs::system_missing;
use crate::r1cs::values_of;
use crate::r1cs::var_value;
use crate::r1cs::ConstraintSystemHandle;
use crate::r1cs::FieldVar;
use crate::sponge::SpongeView;
use ark_bn254::Fr;
use ark_ff::PrimeField;
use ark_ff::UniformRand;
use ark_relations::r1cs::SynthesisError;
use ark_std::rand::rngs::StdRng;
use ark_std::rand::SeedableRng;
use vstd::prelude::*;

verus! {

/// The seed of the generator that the statement draws its witnesses from.
pub const WITNESS_SEED: u64 = 42;

/// `rand::rngs::StdRng`, carried through as it comes.
#[verifier::external_type_specification]
#[verifier::external_body]
pub struct ExStdRng(StdRng);

/// The field element that the generator gives at its draw number `index`,
/// counted from the next one: the generator is a machine that runs the same
/// from the same state.
pub uninterp spec fn generator_output(generator: StdRng, index: nat) -> nat;

/// The field element that a generator made of the seed gives at its draw
/// number `index`.
pub uninterp spec fn seeded_output(seed: u64, index: nat) -> nat;

/// Calls `SeedableRng::seed_from_u64` of `StdRng`.
///
/// Trusted: what the generator will give depends on the seed alone.
#[verifier::external_body]
fn seeded_generator(seed: u64) -> (r: StdRng)
    ensures
        forall|index: nat| #[trigger] generator_output(r, index) == seeded_output(seed, index),
{
    StdRng::seed_from_u64(seed)
}

/// Calls `UniformRand::rand` of the field on the generator.
///
/// Trusted: the element is the next that the generator gives, and what was
/// to come after it is what comes next.
#[verifier::external_body]
fn random_element(generator: &mut StdRng) -> (r: FieldElement)
    ensures
        r@ == generator_output(*old(generator), 0),
        forall|index: nat| #[trigger]
            generator_output(*final(generator), index) == generator_output(
                *old(generator),
                index + 1,
            ),
{
    FieldElement { limbs: Fr::rand(generator).into_bigint().0 }
}

/// One private witness of the constraint system for each element, in order.
/// The first allocation that fails ends the run with its error; one fails
/// where the handle holds no constraint system, so the run succeeds where
/// there is a system or nothing to allocate.
pub fn allocate_witnesses(cs: &ConstraintSystemHandle, elements: &[FieldElement]) -> (r: Result<
    Vec<FieldVar>,
    SynthesisError,
>)
    ensures
        r is Ok <==> elements@.len() == 0 || !system_missing(*cs),
        r is Err ==> is_missing_system(r->Err_0),
        r is Ok ==> allocated(r->Ok_0@, *cs, elements@),
{
    let mut witnesses: Vec<FieldVar> = Vec::new();
    let mut i: usize = 0;
    while i < elements.len()
        invariant
            i <= elements.len(),
            allocated(witnesses@, *cs, elements@.take(i as int)),
            i > 0 ==> !system_missing(*cs),
        decreases elements.len() - i,
    {
        match FieldVar::new_witness(cs, &elements[i]) {
            Ok(witness) => witnesses.push(witness),
            Err(e) => {
                return Err(e);
            },
        }
        i += 1;
    }
    assert(elements@.take(elements.len() as int) == elements@);
    Ok(witnesses)
}

/// Absorbs the witnesses into the sponge and squeezes one variable, the
/// digest. The witnesses are to be constants or to belong to the sponge's
/// system. Where the sponge works on values and the witnesses carry values,
/// the digest carries what the sponge evaluated directly gives after
/// absorbing those values. The result passes on what arkworks reports, which
/// on these inputs is never an error.
pub fn absorb_and_squeeze(sponge: &mut PoseidonHashVar, witnesses: &[FieldVar]) -> (r: Result<
    FieldVar,
    SynthesisError,
>)
    requires
        old(sponge).wf(),
        all_belong_to(witnesses@, old(sponge).view().system),
    ensures
        r is Ok,
        belongs_to(r->Ok_0, old(sponge).view().system),
        final(sponge).wf(),
        final(sponge).view().config == old(sponge).view().config,
        final(sponge).view().system == old(sponge).view().system,
        final(sponge).view().mode == old(sponge).view().mode.after_absorbing(
            old(sponge).view().config.rate,
            witnesses@.len(),
        ).after_squeeze(old(sponge).view().config.rate),
        old(sponge).view().evaluates() && all_carry_values(witnesses@) ==> final(sponge).view().carries_values() && final(sponge).view().native() == old(sponge).view().native().absorb_all(values_of(witnesses@)).squeeze() && var_value(r->Ok_0)
            == Some(old(sponge).view().native().absorb_all(values_of(witnesses@)).squeezed()),
{
    match sponge.absorb_many(witnesses) {
        Ok(()) => {},
        Err(e) => {
            return Err(e);
        },
    }
    sponge.squeeze()
}

/// Populates the constraint system with the statement that the given
/// elements, as private witnesses, were hashed: allocates them in order,
/// absorbs them into a fresh sponge with the canonical configuration and
/// squeezes one variable, the digest, which it hands out. Succeeds where the
/// handle holds a constraint system or there is nothing to allocate; where a
/// witness cannot be allocated, fails with the error of that allocation.
/// Where the system gives variables their values, the digest carries the
/// digest of the elements.
pub fn hash_witnesses(cs: ConstraintSystemHandle, elements: &[FieldElement]) -> (r: Result<
    FieldVar,
    SynthesisError,
>)
    ensures
        r is Ok <==> elements@.len() == 0 || !system_missing(cs),
        r is Err ==> is_missing_system(r->Err_0),
        r is Ok ==> belongs_to(r->Ok_0, cs),
        r is Ok && !system_in_setup(cs) ==> var_value(r->Ok_0) == Some(
            SpongeView::digest(canonical_config(), elements_view(elements@)),
        ),
{
    let witnesses = match allocate_witnesses(&cs, elements) {
        Ok(witnesses) => witnesses,
        Err(e) => {
            return Err(e);
        },
    };
    proof {
        lemma_allocated(witnesses@, cs, elements@);
    }
    let mut sponge = PoseidonHashVar::new(cs);
    absorb_and_squeeze(&mut sponge, witnesses.as_slice())
}

/// The statement that `n` field elements, drawn from a generator with a fixed
/// seed, were hashed.
#[derive(Clone, Copy, Debug)]
pub struct PoseidonCircuit {
    n: u32,
}

impl PoseidonCircuit {
    /// The statement for `n` elements.
    pub fn new(n: u32) -> (r: Self)
        ensures
            r.len() == n,
    {
        Self { n }
    }

    /// The number of elements hashed.
    pub closed spec fn len(self) -> u32 {
        self.n
    }

    /// The elements that the statement hashes.
    pub open spec fn witnesses(self) -> Seq<nat> {
        Seq::new(self.len() as nat, |i: int| seeded_output(WITNESS_SEED, i as nat))
    }

    /// The number of elements hashed.
    pub fn n(&self) -> (r: u32)
        ensures
            r == self.len(),
    {
        self.n
    }

    /// The elements that the statement hashes: the first `n` draws from a
    /// generator seeded with `WITNESS_SEED`.
    pub fn witness_values(&self) -> (r: Vec<FieldElement>)
        ensures
            r@.len() == self.len(),
            elements_view(r@) == self.witnesses(),
    {
        let mut rng = seeded_generator(WITNESS_SEED);
        let mut random_inputs: Vec<FieldElement> = Vec::new();
        let mut i: u32 = 0;
        while i < self.n
            invariant
                i <= self.n,
                random_inputs@.len() == i,
                forall|k: int|
                    0 <= k < i ==> (#[trigger] random_inputs@[k])@ == seeded_output(
                        WITNESS_SEED,
                        k as nat,
                    ),
                forall|index: nat| #[trigger]
                    generator_output(rng, index) == seeded_output(WITNESS_SEED, index + i as nat),
            decreases self.n - i,
        {
            let ghost before = rng;
            let element = random_element(&mut rng);
            proof {
                assert(element@ == generator_output(before, 0));
                assert forall|index: nat| #[trigger]
                    generator_output(rng, index) == seeded_output(
                        WITNESS_SEED,
                        index + (i + 1) as nat,
                    ) by {
                    assert(generator_output(rng, index) == generator_output(before, index + 1));
                }
            }
            random_inputs.push(element);
            i += 1;
        }
        assert(elements_view(random_inputs@) =~= self.witnesses());
        random_inputs
    }

    /// Populates the constraint system with the statement. The digest is
    /// left in the system and not handed out. Succeeds where the handle holds
    /// a constraint system or the statement is over no elements; where a
    /// witness cannot be allocated, fails with the error of that allocation.
    pub fn generate_constraints(self, cs: ConstraintSystemHandle) -> (r: Result<
        (),
        SynthesisError,
    >)
        ensures
            r is Ok <==> self.len() == 0 || !system_missing(cs),
            r is Err ==> is_missing_system(r->Err_0),
    {
        let random_inputs = self.witness_values();
        match hash_witnesses(cs, random_inputs.as_slice()) {
            Ok(_hash) => Ok(()),
            Err(e) => Err(e),
        }
    }
}

} // verus!
