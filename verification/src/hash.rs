//! A Poseidon hash over the BN254 scalar field on top of the arkworks sponge,
//! with the canonical configuration: a state of five elements, rate four, and
//! round numbers for 120-bit security.

use crate::config::elements_view;
use crate::config::rows_have_width;
use crate::config::table_view;
use crate::config::SpongeConfig;
use crate::config::SpongeConfigView;
use crate::field::FieldElement;
use crate::field::MODULUS_BIT_SIZE;
use crate::field::lemma_five_is_coprime;
use crate::field::modulus;
use crate::r1cs::all_belong_to;
use crate::r1cs::all_carry_values;
use crate::r1cs::belongs_to;
use crate::r1cs::is_missing_system;
use crate::r1cs::system_in_setup;
use crate::r1cs::system_missing;
use crate::r1cs::values_of;
use crate::r1cs::var_system;
use crate::r1cs::var_value;
use crate::r1cs::ConstraintSystemHandle;
use crate::r1cs::FieldVar;
use crate::sponge::lemma_after_absorb_in_range;
use crate::sponge::lemma_after_squeeze_in_range;
use crate::sponge::poseidon_absorb;
use crate::sponge::poseidon_squeeze;
use crate::sponge::SpongeMode;
use crate::sponge::SpongeView;
use ark_bn254::Fr;
use ark_crypto_primitives::sponge::constraints::CryptographicSpongeVar;
use ark_crypto_primitives::sponge::poseidon::constraints::PoseidonSpongeVar;
use ark_crypto_primitives::sponge::poseidon::find_poseidon_ark_and_mds;
use ark_crypto_primitives::sponge::poseidon::PoseidonConfig;
use ark_crypto_primitives::sponge::poseidon::PoseidonSponge;
use ark_crypto_primitives::sponge::CryptographicSponge;
use ark_crypto_primitives::sponge::DuplexSpongeMode;
use ark_ff::BigInt;
use ark_ff::PrimeField;
use ark_relations::r1cs::SynthesisError;
use vstd::prelude::*;

verus! {

/// Number of full rounds of the canonical configuration.
pub const FULL_ROUNDS: u64 = 8;

/// Number of partial rounds of the canonical configuration.
pub const PARTIAL_ROUNDS: u64 = 60;

/// S-box exponent of the canonical configuration.
pub const ALPHA: u64 = 5;

/// Rate of the canonical configuration; with capacity one the state has five
/// elements.
pub const RATE: usize = 4;

/// Capacity of the canonical configuration.
pub const CAPACITY: usize = 1;

/// The round constants and the diffusion matrix that the Grain LFSR of the
/// Poseidon reference derives for a prime field of `prime_bits` bits, a state
/// of `rate + 1` elements and the given round numbers, after passing over
/// `skip_matrices` candidate matrices: the round constants first, then the
/// matrix, each field element as its canonical representative.
pub uninterp spec fn grain_ark_and_mds(
    prime_bits: u64,
    rate: usize,
    full_rounds: u64,
    partial_rounds: u64,
    skip_matrices: u64,
) -> (Seq<Seq<nat>>, Seq<Seq<nat>>);

/// Calls `ark_crypto_primitives::sponge::poseidon::find_poseidon_ark_and_mds`
/// for the BN254 scalar field and hands back its two tables limb by limb.
///
/// Trusted: the tables are the ones named `grain_ark_and_mds` of the same
/// arguments; there is one vector of round constants for each round; every
/// vector, and every row of the square matrix, has `rate + 1` entries. The
/// arguments are held to the canonical ones, for which the call is known to
/// return: it inverts sums of generated elements and unwinds where one is
/// zero.
#[verifier::external_body]
fn find_ark_and_mds(
    prime_bits: u64,
    rate: usize,
    full_rounds: u64,
    partial_rounds: u64,
    skip_matrices: u64,
) -> (r: (Vec<Vec<FieldElement>>, Vec<Vec<FieldElement>>))
    requires
        prime_bits == MODULUS_BIT_SIZE,
        rate == RATE,
        full_rounds == FULL_ROUNDS,
        partial_rounds == PARTIAL_ROUNDS,
        skip_matrices == 0,
    ensures
        (table_view(r.0@), table_view(r.1@)) == grain_ark_and_mds(
            prime_bits,
            rate,
            full_rounds,
            partial_rounds,
            skip_matrices,
        ),
        rows_have_width(table_view(r.0@), (full_rounds + partial_rounds) as nat, (rate + 1) as nat),
        rows_have_width(table_view(r.1@), (rate + 1) as nat, (rate + 1) as nat),
{
    let (ark, mds) = find_poseidon_ark_and_mds::<Fr>(
        prime_bits,
        rate,
        full_rounds,
        partial_rounds,
        skip_matrices,
    );
    let limbs = |row: &Vec<Fr>| row.iter().map(|f| FieldElement { limbs: f.into_bigint().0 }).collect();
    (ark.iter().map(limbs).collect(), mds.iter().map(limbs).collect())
}

/// The canonical configuration as mathematics.
pub open spec fn canonical_config() -> SpongeConfigView {
    let tables = grain_ark_and_mds(MODULUS_BIT_SIZE, RATE, FULL_ROUNDS, PARTIAL_ROUNDS, 0);
    SpongeConfigView {
        full_rounds: FULL_ROUNDS as nat,
        partial_rounds: PARTIAL_ROUNDS as nat,
        alpha: ALPHA as nat,
        ark: tables.0,
        mds: tables.1,
        rate: RATE as nat,
        capacity: CAPACITY as nat,
    }
}

/// The canonical Poseidon configuration for the BN254 scalar field: rate 4,
/// capacity 1, 8 full and 60 partial rounds, S-box `x^5`, and the round
/// constants and matrix that the reference generator derives for them. Every
/// call gives the same configuration.
#[inline]
pub fn get_poseidon_config() -> (config: SpongeConfig)
    ensures
        config@ == canonical_config(),
        config@.wf(),
{
    let (ark, mds) = find_ark_and_mds(MODULUS_BIT_SIZE, RATE, FULL_ROUNDS, PARTIAL_ROUNDS, 0);
    proof {
        lemma_five_is_coprime();
    }
    SpongeConfig::new(
        FULL_ROUNDS as usize,
        PARTIAL_ROUNDS as usize,
        ALPHA,
        mds,
        ark,
        RATE,
        CAPACITY,
    ).unwrap()
}

/// An arkworks Poseidon sponge over the BN254 scalar field. What it holds is
/// named by `native_config`, `native_state` and `native_mode`.
#[verifier::external_body]
pub struct NativeSponge {
    inner: PoseidonSponge<Fr>,
}

/// The parameters that the sponge was made with.
pub uninterp spec fn native_config(sponge: NativeSponge) -> SpongeConfigView;

/// The permutation state of the sponge, each element as its canonical
/// representative.
pub uninterp spec fn native_state(sponge: NativeSponge) -> Seq<nat>;

/// The mode of the sponge.
pub uninterp spec fn native_mode(sponge: NativeSponge) -> SpongeMode;

/// All that the sponge holds.
pub open spec fn native_view(sponge: NativeSponge) -> SpongeView {
    SpongeView {
        config: native_config(sponge),
        state: native_state(sponge),
        mode: native_mode(sponge),
    }
}

impl NativeSponge {
    /// Calls `PoseidonSponge::new` on the configuration.
    ///
    /// Trusted: the new sponge holds the configuration, a state of
    /// `rate + capacity` zeros, and absorbs at index 0.
    #[verifier::external_body]
    fn new(config: &SpongeConfig) -> (r: NativeSponge)
        ensures
            native_config(r) == config@,
            native_state(r) == SpongeView::initial(config@).state,
            native_mode(r) == (SpongeMode::Absorbing { next_absorb_index: 0 }),
    {
        let lift = |row: &Vec<FieldElement>| row.iter().map(|e| Fr::from(BigInt(e.limbs))).collect();
        let parameters = PoseidonConfig {
            full_rounds: config.full_rounds,
            partial_rounds: config.partial_rounds,
            alpha: config.alpha,
            ark: config.ark.iter().map(lift).collect(),
            mds: config.mds.iter().map(lift).collect(),
            rate: config.rate,
            capacity: config.capacity,
        };
        NativeSponge { inner: PoseidonSponge::new(&parameters) }
    }

    /// Calls `CryptographicSponge::absorb` of the sponge on one field element.
    ///
    /// Trusted: the parameters stay and the state keeps its length. While
    /// the rate part has room the element is added, in the field, to the
    /// state at the absorb slot and the rest of the state stays; where the
    /// rate part is full the state becomes the one named `poseidon_absorb`.
    /// The sponge then absorbs, its cursor one behind the slot.
    #[verifier::external_body]
    fn absorb(&mut self, element: &FieldElement)
        requires
            native_view(*old(self)).wf(),
        ensures
            native_config(*final(self)) == native_config(*old(self)),
            native_state(*final(self)).len() == native_state(*old(self)).len(),
            native_state(*final(self)) == if native_mode(*old(self)).absorb_permutes(
                native_config(*old(self)).rate,
            ) {
                poseidon_absorb(
                    native_config(*old(self)),
                    native_state(*old(self)),
                    native_mode(*old(self)),
                    element@,
                )
            } else {
                native_state(*old(self)).update(
                    native_view(*old(self)).absorb_slot(),
                    (native_state(*old(self))[native_view(*old(self)).absorb_slot()] + element@)
                        % modulus(),
                )
            },
            native_mode(*final(self)) == native_mode(*old(self)).after_absorb(
                native_config(*old(self)).rate,
            ),
        no_unwind
    {
        self.inner.absorb(&Fr::from(BigInt(element.limbs)));
    }

    /// Calls `CryptographicSponge::squeeze_field_elements` of the sponge for
    /// one element of its own field.
    ///
    /// Trusted: one element comes out; the parameters stay and the state
    /// keeps its length. While the rate part has elements left the state
    /// stays; else element and state are the ones named `poseidon_squeeze`.
    /// Either way the element is the one at the squeeze slot of the state
    /// that is left. The sponge then squeezes, its cursor one behind the
    /// slot.
    #[verifier::external_body]
    fn squeeze_field_elements(&mut self, count: usize) -> (r: Vec<FieldElement>)
        requires
            native_view(*old(self)).wf(),
            count == 1,
        ensures
            r.len() == count,
            native_config(*final(self)) == native_config(*old(self)),
            native_state(*final(self)).len() == native_state(*old(self)).len(),
            native_mode(*old(self)).squeeze_permutes(native_config(*old(self)).rate) ==> (
                elements_view(r@),
                native_state(*final(self)),
            ) == poseidon_squeeze(
                native_config(*old(self)),
                native_state(*old(self)),
                native_mode(*old(self)),
                count as nat,
            ),
            !native_mode(*old(self)).squeeze_permutes(native_config(*old(self)).rate)
                ==> native_state(*final(self)) == native_state(*old(self)),
            r@[0]@ == native_state(*final(self))[native_view(*old(self)).squeeze_slot()],
            native_mode(*final(self)) == native_mode(*old(self)).after_squeeze(
                native_config(*old(self)).rate,
            ),
        no_unwind
    {
        let out: Vec<Fr> = self.inner.squeeze_field_elements(count);
        out.iter().map(|f| FieldElement { limbs: f.into_bigint().0 }).collect()
    }

    /// Reads the field `state` of the sponge.
    ///
    /// Trusted: the elements are the ones named `native_state`.
    #[verifier::external_body]
    fn state(&self) -> (r: Vec<FieldElement>)
        ensures
            elements_view(r@) == native_state(*self),
    {
        self.inner.state.iter().map(|f| FieldElement { limbs: f.into_bigint().0 }).collect()
    }

    /// Reads the field `mode` of the sponge.
    ///
    /// Trusted: the mode is the one named `native_mode`.
    #[verifier::external_body]
    fn mode(&self) -> (r: SpongeMode)
        ensures
            r == native_mode(*self),
    {
        match self.inner.mode {
            DuplexSpongeMode::Absorbing { next_absorb_index } => SpongeMode::Absorbing {
                next_absorb_index,
            },
            DuplexSpongeMode::Squeezing { next_squeeze_index } => SpongeMode::Squeezing {
                next_squeeze_index,
            },
        }
    }

    /// Calls `Clone::clone` of the sponge.
    ///
    /// Trusted: the copy holds what the sponge holds.
    #[verifier::external_body]
    fn duplicate(&self) -> (r: NativeSponge)
        ensures
            native_config(r) == native_config(*self),
            native_state(r) == native_state(*self),
            native_mode(r) == native_mode(*self),
    {
        NativeSponge { inner: self.inner.clone() }
    }
}

/// A Poseidon hash over field elements, evaluated directly.
pub struct PoseidonHash {
    sponge: NativeSponge,
}

impl View for PoseidonHash {
    type V = SpongeView;

    closed spec fn view(&self) -> SpongeView {
        native_view(self.sponge)
    }
}

impl Clone for PoseidonHash {
    fn clone(&self) -> (r: Self)
        ensures
            r@ == self@,
    {
        proof {
            use_type_invariant(self);
        }
        PoseidonHash { sponge: self.sponge.duplicate() }
    }
}

impl PoseidonHash {
    /// Every sponge is well formed.
    #[verifier::type_invariant]
    pub open spec fn inv(self) -> bool {
        self@.wf()
    }

    /// A fresh sponge with the canonical configuration.
    pub fn new() -> (r: Self)
        ensures
            r@ == SpongeView::initial(canonical_config()),
            r@.wf(),
    {
        let config = get_poseidon_config();
        PoseidonHash::with_config(&config)
    }

    /// A fresh sponge with the given configuration: an all-zero state,
    /// absorbing at the start of the rate part.
    pub fn with_config(config: &SpongeConfig) -> (r: Self)
        ensures
            r@ == SpongeView::initial(config@),
            r@.wf(),
    {
        proof {
            use_type_invariant(config);
        }
        PoseidonHash { sponge: NativeSponge::new(config) }
    }

    /// Absorbs the elements one by one, in order. Absorbing none leaves the
    /// sponge as it is.
    pub fn absorb_many(&mut self, elements: &[FieldElement])
        ensures
            final(self)@ == old(self)@.absorb_all(elements_view(elements@)),
            final(self)@.wf(),
    {
        proof {
            use_type_invariant(&*self);
        }
        let mut i: usize = 0;
        while i < elements.len()
            invariant
                i <= elements.len(),
                native_view(self.sponge).wf(),
                self@ == old(self)@.absorb_all(elements_view(elements@.take(i as int))),
            decreases elements.len() - i,
        {
            proof {
                lemma_after_absorb_in_range(native_mode(self.sponge), native_config(self.sponge).rate);
                assert(elements@.take(i + 1).drop_last() == elements@.take(i as int));
                assert(elements_view(elements@.take(i + 1)).drop_last() == elements_view(
                    elements@.take(i as int),
                ));
            }
            self.sponge.absorb(&elements[i]);
            i += 1;
        }
        assert(elements@.take(elements.len() as int) == elements@);
    }

    /// Absorbs the elements of the vector; the older name of `absorb_many`.
    pub fn update_sponge(&mut self, v: Vec<FieldElement>)
        ensures
            final(self)@ == old(self)@.absorb_all(elements_view(v@)),
            final(self)@.wf(),
    {
        self.absorb_many(v.as_slice());
    }

    /// Squeezes one element out of the sponge.
    pub fn squeeze(&mut self) -> (r: FieldElement)
        ensures
            r@ == old(self)@.squeezed(),
            final(self)@ == old(self)@.squeeze(),
            final(self)@.wf(),
    {
        proof {
            use_type_invariant(&*self);
            lemma_after_squeeze_in_range(native_mode(self.sponge), native_config(self.sponge).rate);
        }
        let squeezed_field_element = self.sponge.squeeze_field_elements(1);
        squeezed_field_element[0]
    }

    /// Squeezes `count` elements out of the sponge, one by one. Asking for
    /// none leaves the sponge as it is.
    pub fn squeeze_many(&mut self, count: usize) -> (r: Vec<FieldElement>)
        ensures
            r.len() == count,
            elements_view(r@) == old(self)@.squeeze_output(count as nat),
            final(self)@ == old(self)@.squeezing(count as nat),
            final(self)@.wf(),
    {
        proof {
            use_type_invariant(&*self);
        }
        let mut squeezed: Vec<FieldElement> = Vec::new();
        let mut i: usize = 0;
        while i < count
            invariant
                i <= count,
                squeezed.len() == i,
                self@.wf(),
                self@ == old(self)@.squeezing(i as nat),
                elements_view(squeezed@) == old(self)@.squeeze_output(i as nat),
            decreases count - i,
        {
            let ghost before = squeezed@;
            let element = self.squeeze();
            squeezed.push(element);
            proof {
                assert(element@ == old(self)@.squeezing(i as nat).squeezed());
                assert(elements_view(squeezed@) =~= elements_view(before).push(element@));
                assert(old(self)@.squeeze_output((i + 1) as nat) =~= old(self)@.squeeze_output(
                    i as nat,
                ).push(old(self)@.squeezing(i as nat).squeezed()));
            }
            i += 1;
        }
        squeezed
    }

    /// The permutation state.
    pub fn state(&self) -> (r: Vec<FieldElement>)
        ensures
            elements_view(r@) == self@.state,
            r.len() == self@.config.width(),
            self@.wf(),
    {
        proof {
            use_type_invariant(self);
        }
        self.sponge.state()
    }

    /// The mode, with the cursor.
    pub fn mode(&self) -> (r: SpongeMode)
        ensures
            r == self@.mode,
            r.cursor() <= self@.config.rate,
            self@.wf(),
    {
        proof {
            use_type_invariant(self);
        }
        self.sponge.mode()
    }
}

/// A sponge inside a constraint system as mathematics: its parameters, the
/// variables of its state, its mode and the system it works in.
pub struct GadgetView {
    pub config: SpongeConfigView,
    pub state: Seq<FieldVar>,
    pub mode: SpongeMode,
    pub system: ConstraintSystemHandle,
}

impl GadgetView {
    /// The state has the configuration's width, the cursor lies within the
    /// rate part or just behind it, and every state variable is a constant
    /// or belongs to the sponge's system.
    pub open spec fn wf(self) -> bool {
        &&& self.config.wf()
        &&& self.state.len() == self.config.width()
        &&& self.mode.cursor() <= self.config.rate
        &&& all_belong_to(self.state, self.system)
    }

    /// Every state variable carries a value.
    pub open spec fn carries_values(self) -> bool {
        all_carry_values(self.state)
    }

    /// The sponge over the values that the state variables carry.
    pub open spec fn native(self) -> SpongeView {
        SpongeView { config: self.config, state: values_of(self.state), mode: self.mode }
    }

    /// The sponge works on values: its system gives variables their values
    /// and every state variable carries one.
    pub open spec fn evaluates(self) -> bool {
        !system_in_setup(self.system) && self.carries_values()
    }
}

/// An arkworks Poseidon sponge over variables of a constraint system. What
/// it holds is named by `gadget_config`, `gadget_state`, `gadget_mode` and
/// `gadget_system`.
#[verifier::external_body]
pub struct GadgetSponge {
    inner: PoseidonSpongeVar<Fr>,
}

/// The parameters that the sponge was made with.
pub uninterp spec fn gadget_config(sponge: GadgetSponge) -> SpongeConfigView;

/// The variables of the permutation state of the sponge.
pub uninterp spec fn gadget_state(sponge: GadgetSponge) -> Seq<FieldVar>;

/// The mode of the sponge.
pub uninterp spec fn gadget_mode(sponge: GadgetSponge) -> SpongeMode;

/// The constraint system that the sponge was made in.
pub uninterp spec fn gadget_system(sponge: GadgetSponge) -> ConstraintSystemHandle;

/// All that the sponge holds.
pub open spec fn gadget_view(sponge: GadgetSponge) -> GadgetView {
    GadgetView {
        config: gadget_config(sponge),
        state: gadget_state(sponge),
        mode: gadget_mode(sponge),
        system: gadget_system(sponge),
    }
}

impl GadgetSponge {
    /// Calls `CryptographicSpongeVar::new` of `PoseidonSpongeVar` on the
    /// constraint system and the configuration.
    ///
    /// Trusted: the new sponge holds the system and the configuration, has a
    /// state of `rate + capacity` constants zero, and absorbs at index 0.
    #[verifier::external_body]
    fn new(cs: ConstraintSystemHandle, config: &SpongeConfig) -> (r: GadgetSponge)
        ensures
            gadget_config(r) == config@,
            gadget_system(r) == cs,
            gadget_mode(r) == (SpongeMode::Absorbing { next_absorb_index: 0 }),
            gadget_state(r).len() == config@.width(),
            forall|i: int|
                0 <= i < gadget_state(r).len() ==> system_missing(
                    var_system(#[trigger] gadget_state(r)[i]),
                ) && var_value(gadget_state(r)[i]) == Some(0nat),
    {
        let lift = |row: &Vec<FieldElement>| row.iter().map(|e| Fr::from(BigInt(e.limbs))).collect();
        let parameters = PoseidonConfig {
            full_rounds: config.full_rounds,
            partial_rounds: config.partial_rounds,
            alpha: config.alpha,
            ark: config.ark.iter().map(lift).collect(),
            mds: config.mds.iter().map(lift).collect(),
            rate: config.rate,
            capacity: config.capacity,
        };
        GadgetSponge { inner: PoseidonSpongeVar::new(cs.inner, &parameters) }
    }

    /// Puts a `PoseidonSpongeVar` together from the constraint system, the
    /// parameters and the mode of a sponge evaluated directly, and the given
    /// variables as its state.
    ///
    /// Trusted: the sponge holds that system, those parameters, those
    /// variables and that mode.
    #[verifier::external_body]
    fn from_native(cs: ConstraintSystemHandle, native: &NativeSponge, state: Vec<FieldVar>) -> (r:
        GadgetSponge)
        ensures
            gadget_config(r) == native_config(*native),
            gadget_system(r) == cs,
            gadget_state(r) == state@,
            gadget_mode(r) == native_mode(*native),
    {
        GadgetSponge {
            inner: PoseidonSpongeVar {
                cs: cs.inner,
                parameters: native.inner.parameters.clone(),
                state: state.into_iter().map(|v| v.inner).collect(),
                mode: native.inner.mode.clone(),
            },
        }
    }

    /// Calls `CryptographicSpongeVar::absorb` of the sponge on one variable.
    ///
    /// Trusted: the call reports no error, since the additions, products
    /// and powers of `FpVar` that it is made of report none, and it does not
    /// unwind, since all its variables are constants or of one system, whose
    /// mode stays. System and parameters stay, the state keeps its length and
    /// its variables stay constants or variables of the system. The sponge
    /// then absorbs, its cursor one behind the absorb slot. Where the sponge
    /// works on values and the variable carries one, so does the sponge
    /// after, and the values of its state are those that the sponge
    /// evaluated directly has after absorbing that value: arkworks builds the
    /// two sponges to agree.
    #[verifier::external_body]
    fn absorb(&mut self, element: &FieldVar) -> (r: Result<(), SynthesisError>)
        requires
            gadget_view(*old(self)).wf(),
            belongs_to(*element, gadget_system(*old(self))),
        ensures
            r is Ok,
            gadget_config(*final(self)) == gadget_config(*old(self)),
            gadget_system(*final(self)) == gadget_system(*old(self)),
            gadget_state(*final(self)).len() == gadget_state(*old(self)).len(),
            all_belong_to(gadget_state(*final(self)), gadget_system(*old(self))),
            gadget_mode(*final(self)) == gadget_mode(*old(self)).after_absorb(
                gadget_config(*old(self)).rate,
            ),
            gadget_view(*old(self)).evaluates() && var_value(*element) is Some ==> all_carry_values(
                gadget_state(*final(self)),
            ) && values_of(gadget_state(*final(self))) == gadget_view(*old(self)).native().absorb(
                var_value(*element).unwrap(),
            ).state,
    {
        self.inner.absorb(&element.inner)
    }

    /// Calls `CryptographicSpongeVar::squeeze_field_elements` of the sponge
    /// for one variable.
    ///
    /// Trusted: the call reports no error and does not unwind, for the
    /// reasons given at `absorb`. One variable comes out, a constant or a
    /// variable of the system. System and parameters stay, the state keeps
    /// its length and its variables stay constants or variables of the
    /// system. The sponge then squeezes, its cursor one behind the squeeze
    /// slot. Where the sponge works on values, so does the sponge after, and
    /// the value that comes out and the values of the state are those of the
    /// sponge evaluated directly: arkworks builds the two sponges to agree.
    #[verifier::external_body]
    fn squeeze_field_elements(&mut self, count: usize) -> (r: Result<Vec<FieldVar>, SynthesisError>)
        requires
            gadget_view(*old(self)).wf(),
            count == 1,
        ensures
            r is Ok,
            r->Ok_0@.len() == count,
            belongs_to(r->Ok_0@[0], gadget_system(*old(self))),
            gadget_config(*final(self)) == gadget_config(*old(self)),
            gadget_system(*final(self)) == gadget_system(*old(self)),
            gadget_state(*final(self)).len() == gadget_state(*old(self)).len(),
            all_belong_to(gadget_state(*final(self)), gadget_system(*old(self))),
            gadget_mode(*final(self)) == gadget_mode(*old(self)).after_squeeze(
                gadget_config(*old(self)).rate,
            ),
            gadget_view(*old(self)).evaluates() ==> all_carry_values(gadget_state(*final(self)))
                && values_of(gadget_state(*final(self))) == gadget_view(*old(self)).native().squeeze().state && var_value(r->Ok_0@[0]) == Some(
                gadget_view(*old(self)).native().squeezed(),
            ),
    {
        let out = self.inner.squeeze_field_elements(count)?;
        Ok(out.into_iter().map(|inner| FieldVar { inner }).collect())
    }

    /// Reads the field `mode` of the sponge.
    ///
    /// Trusted: the mode is the one named `gadget_mode`.
    #[verifier::external_body]
    fn mode(&self) -> (r: SpongeMode)
        ensures
            r == gadget_mode(*self),
    {
        match self.inner.mode {
            DuplexSpongeMode::Absorbing { next_absorb_index } => SpongeMode::Absorbing {
                next_absorb_index,
            },
            DuplexSpongeMode::Squeezing { next_squeeze_index } => SpongeMode::Squeezing {
                next_squeeze_index,
            },
        }
    }
}

/// What allocating the elements in the system gives for variables: each a
/// variable of the system that carries its element, or nothing where the
/// system is in setup mode.
pub open spec fn allocated(
    variables: Seq<FieldVar>,
    cs: ConstraintSystemHandle,
    elements: Seq<FieldElement>,
) -> bool {
    &&& variables.len() == elements.len()
    &&& forall|i: int|
        0 <= i < variables.len() ==> var_system(#[trigger] variables[i]) == cs && var_value(
            variables[i],
        ) == if system_in_setup(cs) {
            None::<nat>
        } else {
            Some(elements[i]@)
        }
}

/// Variables allocated in a system belong to it, and carry the elements
/// where the system is not in setup mode.
pub proof fn lemma_allocated(
    variables: Seq<FieldVar>,
    cs: ConstraintSystemHandle,
    elements: Seq<FieldElement>,
)
    requires
        allocated(variables, cs, elements),
    ensures
        all_belong_to(variables, cs),
        !system_in_setup(cs) ==> all_carry_values(variables) && values_of(variables)
            == elements_view(elements),
{
    if !system_in_setup(cs) {
        assert(values_of(variables) =~= elements_view(elements));
    }
}

/// The variables that stand for the elements: one public input of the
/// constraint system for each, in order. The first allocation that fails ends
/// the run with its error; one fails where the handle holds no constraint
/// system, so the run succeeds where there is a system or nothing to
/// allocate.
pub fn allocate_inputs(cs: &ConstraintSystemHandle, elements: &[FieldElement]) -> (r: Result<
    Vec<FieldVar>,
    SynthesisError,
>)
    ensures
        r is Ok <==> elements@.len() == 0 || !system_missing(*cs),
        r is Err ==> is_missing_system(r->Err_0),
        r is Ok ==> allocated(r->Ok_0@, *cs, elements@),
{
    let mut variables: Vec<FieldVar> = Vec::new();
    let mut i: usize = 0;
    while i < elements.len()
        invariant
            i <= elements.len(),
            allocated(variables@, *cs, elements@.take(i as int)),
            i > 0 ==> !system_missing(*cs),
        decreases elements.len() - i,
    {
        match FieldVar::new_input(cs, &elements[i]) {
            Ok(variable) => variables.push(variable),
            Err(e) => {
                return Err(e);
            },
        }
        i += 1;
    }
    assert(elements@.take(elements.len() as int) == elements@);
    Ok(variables)
}

/// The one variable of a squeeze of one.
pub fn sole_element(squeezed: Vec<FieldVar>) -> (r: FieldVar)
    requires
        squeezed@.len() == 1,
    ensures
        r == squeezed@[0],
{
    let mut squeezed = squeezed;
    squeezed.remove(0)
}

/// A Poseidon hash over variables of a constraint system. Its well-formedness
/// is a precondition of its methods.
pub struct PoseidonHashVar {
    sponge: GadgetSponge,
}

impl PoseidonHashVar {
    /// All that the sponge holds.
    pub closed spec fn view(&self) -> GadgetView {
        gadget_view(self.sponge)
    }

    /// The state has the configuration's width, the cursor lies within the
    /// rate part or just behind it, and every state variable is a constant
    /// or belongs to the sponge's system.
    pub open spec fn wf(&self) -> bool {
        self.view().wf()
    }

    /// A fresh sponge with the canonical configuration inside the given
    /// constraint system: a state of constants zero, absorbing at the start
    /// of the rate part.
    pub fn new(cs: ConstraintSystemHandle) -> (r: Self)
        ensures
            r.wf(),
            r.view().system == cs,
            r.view().carries_values(),
            r.view().native() == SpongeView::initial(canonical_config()),
    {
        let config = get_poseidon_config();
        PoseidonHashVar::with_config(cs, &config)
    }

    /// A fresh sponge with the given configuration inside the given
    /// constraint system: a state of constants zero, absorbing at the start
    /// of the rate part.
    pub fn with_config(cs: ConstraintSystemHandle, config: &SpongeConfig) -> (r: Self)
        ensures
            r.wf(),
            r.view().system == cs,
            r.view().carries_values(),
            r.view().native() == SpongeView::initial(config@),
    {
        proof {
            use_type_invariant(config);
        }
        let sponge = GadgetSponge::new(cs, config);
        assert(values_of(gadget_state(sponge)) =~= SpongeView::initial(config@).state);
        PoseidonHashVar { sponge }
    }

    /// The sponge inside the constraint system that stands for one evaluated
    /// directly: each element of the native state becomes a public input of
    /// the system, in order, and parameters and mode are taken over. Succeeds
    /// where the handle holds a constraint system, and fails with the error
    /// of the first allocation where it holds none. Where the system gives
    /// variables their values, the new sponge holds what the native one holds.
    pub fn from_poseidon_hash(cs: ConstraintSystemHandle, native: PoseidonHash) -> (r: Result<
        Self,
        SynthesisError,
    >)
        ensures
            r is Ok <==> !system_missing(cs),
            r is Err ==> is_missing_system(r->Err_0),
            r is Ok ==> r->Ok_0.wf() && r->Ok_0.view().system == cs && r->Ok_0.view().config
                == native@.config && r->Ok_0.view().mode == native@.mode,
            r is Ok && !system_in_setup(cs) ==> r->Ok_0.view().carries_values()
                && r->Ok_0.view().native() == native@,
    {
        proof {
            use_type_invariant(&native);
        }
        let elements = native.sponge.state();
        match allocate_inputs(&cs, elements.as_slice()) {
            Ok(state) => {
                proof {
                    lemma_allocated(state@, cs, elements@);
                }
                Ok(PoseidonHashVar { sponge: GadgetSponge::from_native(cs, &native.sponge, state) })
            },
            Err(e) => Err(e),
        }
    }

    /// Absorbs the variables one by one, in order; absorbing none leaves the
    /// sponge as it is. The variables are to be constants or to belong to the
    /// sponge's system. The sponge then absorbs, its cursor where that many
    /// absorptions leave it. Where the sponge works on values and the
    /// variables carry values, it holds after what the sponge evaluated
    /// directly holds after absorbing those values. The result passes on what
    /// arkworks reports, which on these inputs is never an error.
    pub fn absorb_many(&mut self, elements: &[FieldVar]) -> (r: Result<(), SynthesisError>)
        requires
            old(self).wf(),
            all_belong_to(elements@, old(self).view().system),
        ensures
            r is Ok,
            final(self).wf(),
            final(self).view().config == old(self).view().config,
            final(self).view().system == old(self).view().system,
            final(self).view().mode == old(self).view().mode.after_absorbing(
                old(self).view().config.rate,
                elements@.len(),
            ),
            old(self).view().evaluates() && all_carry_values(elements@) ==> final(self).view().carries_values() && final(self).view().native() == old(self).view().native().absorb_all(values_of(elements@)),
            elements@.len() == 0 ==> *final(self) == *old(self),
    {
        let ghost rate = self.view().config.rate;
        let ghost start = self.view();
        let mut i: usize = 0;
        while i < elements.len()
            invariant
                i <= elements.len(),
                self.wf(),
                start == old(self).view(),
                rate == start.config.rate,
                all_belong_to(elements@, start.system),
                self.view().config == start.config,
                self.view().system == start.system,
                self.view().mode == start.mode.after_absorbing(rate, i as nat),
                i == 0 ==> *self == *old(self),
                start.evaluates() && all_carry_values(elements@) ==> self.view().carries_values()
                    && self.view().native() == start.native().absorb_all(
                    values_of(elements@.take(i as int)),
                ),
            decreases elements.len() - i,
        {
            proof {
                lemma_after_absorb_in_range(self.view().mode, rate);
                assert(belongs_to(elements@[i as int], start.system));
                assert(elements@.take(i + 1).drop_last() == elements@.take(i as int));
                assert(values_of(elements@.take(i + 1)).drop_last() == values_of(
                    elements@.take(i as int),
                ));
                assert(values_of(elements@.take(i + 1)).last() == var_value(
                    elements@[i as int],
                ).unwrap());
            }
            match self.sponge.absorb(&elements[i]) {
                Ok(()) => {},
                Err(e) => {
                    return Err(e);
                },
            }
            i += 1;
        }
        assert(elements@.take(elements.len() as int) == elements@);
        Ok(())
    }

    /// Squeezes one variable out of the sponge, a constant or a variable of
    /// the sponge's system. The sponge then squeezes, its cursor behind the
    /// place where the variable came from. Where the sponge works on values,
    /// the variable carries what the sponge evaluated directly gives, and the
    /// sponge holds after what that one holds. The result passes on what
    /// arkworks reports, which on these inputs is never an error.
    pub fn squeeze(&mut self) -> (r: Result<FieldVar, SynthesisError>)
        requires
            old(self).wf(),
        ensures
            r is Ok,
            belongs_to(r->Ok_0, old(self).view().system),
            final(self).wf(),
            final(self).view().config == old(self).view().config,
            final(self).view().system == old(self).view().system,
            final(self).view().mode == old(self).view().mode.after_squeeze(
                old(self).view().config.rate,
            ),
            old(self).view().evaluates() ==> final(self).view().carries_values() && final(self).view().native() == old(self).view().native().squeeze() && var_value(r->Ok_0) == Some(
                old(self).view().native().squeezed(),
            ),
    {
        proof {
            lemma_after_squeeze_in_range(self.view().mode, self.view().config.rate);
        }
        match self.sponge.squeeze_field_elements(1) {
            Ok(squeezed_field_element) => Ok(sole_element(squeezed_field_element)),
            Err(e) => Err(e),
        }
    }

    /// Squeezes `count` variables out of the sponge, one by one; asking for
    /// none leaves the sponge as it is. Where the sponge works on values,
    /// the variables carry what the sponge evaluated directly gives.
    pub fn squeeze_many(&mut self, count: usize) -> (r: Result<Vec<FieldVar>, SynthesisError>)
        requires
            old(self).wf(),
        ensures
            r is Ok,
            r->Ok_0@.len() == count,
            all_belong_to(r->Ok_0@, old(self).view().system),
            final(self).wf(),
            final(self).view().config == old(self).view().config,
            final(self).view().system == old(self).view().system,
            final(self).view().mode == old(self).view().mode.after_squeezing(
                old(self).view().config.rate,
                count as nat,
            ),
            old(self).view().evaluates() ==> final(self).view().carries_values() && final(self).view().native() == old(self).view().native().squeezing(count as nat)
                && all_carry_values(r->Ok_0@) && values_of(r->Ok_0@) == old(self).view().native().squeeze_output(count as nat),
            count == 0 ==> *final(self) == *old(self),
    {
        let ghost start = self.view();
        let mut squeezed: Vec<FieldVar> = Vec::new();
        let mut i: usize = 0;
        while i < count
            invariant
                i <= count,
                squeezed@.len() == i,
                self.wf(),
                start == old(self).view(),
                all_belong_to(squeezed@, start.system),
                self.view().config == start.config,
                self.view().system == start.system,
                self.view().mode == start.mode.after_squeezing(start.config.rate, i as nat),
                i == 0 ==> *self == *old(self),
                start.evaluates() ==> self.view().carries_values() && self.view().native()
                    == start.native().squeezing(i as nat) && all_carry_values(squeezed@)
                    && values_of(squeezed@) == start.native().squeeze_output(i as nat),
            decreases count - i,
        {
            let ghost before = squeezed@;
            match self.squeeze() {
                Ok(variable) => {
                    squeezed.push(variable);
                    proof {
                        assert(values_of(squeezed@) =~= values_of(before).push(
                            var_value(variable).unwrap(),
                        ));
                        assert(start.native().squeeze_output((i + 1) as nat)
                            =~= start.native().squeeze_output(i as nat).push(
                            start.native().squeezing(i as nat).squeezed(),
                        ));
                    }
                },
                Err(e) => {
                    return Err(e);
                },
            }
            i += 1;
        }
        Ok(squeezed)
    }

    /// The mode, with the cursor.
    pub fn mode(&self) -> (r: SpongeMode)
        ensures
            r == self.view().mode,
    {
        self.sponge.mode()
    }
}

} // verus!
