use ark_bn254::Fr;
use ark_crypto_primitives::sponge::poseidon::find_poseidon_ark_and_mds;
use ark_crypto_primitives::sponge::poseidon::PoseidonConfig;
use ark_crypto_primitives::sponge::poseidon::PoseidonSponge;
use ark_crypto_primitives::sponge::CryptographicSponge;
use ark_ff::BigInt;
use ark_ff::PrimeField;
use zksnark_reporting_system::config::ConfigError;
use zksnark_reporting_system::config::SpongeConfig;
use zksnark_reporting_system::field::FieldElement;
use zksnark_reporting_system::hash::allocate_inputs;
use zksnark_reporting_system::hash::get_poseidon_config;
use zksnark_reporting_system::hash::PoseidonHash;
use zksnark_reporting_system::hash::PoseidonHashVar;
use zksnark_reporting_system::r1cs::ConstraintSystemHandle;
use zksnark_reporting_system::r1cs::FieldVar;
use zksnark_reporting_system::sponge::SpongeMode;

fn element(f: Fr) -> FieldElement {
    FieldElement::from_limbs(f.into_bigint().0).unwrap()
}

fn fr(e: &FieldElement) -> Fr {
    Fr::from(BigInt(e.to_limbs()))
}

fn handle() -> ConstraintSystemHandle {
    ConstraintSystemHandle::new_ref()
}

fn constant(e: FieldElement) -> FieldVar {
    FieldVar::constant(&e)
}

#[test]
fn poseidon_native_vs_r1cs() {
    let mut native = PoseidonHash::new();

    let mut gadget = PoseidonHashVar::new(handle());

    native.absorb_many(&[FieldElement::one(), FieldElement::one()]);
    let one_on_first_curve_var = constant(FieldElement::one());
    gadget.absorb_many(&[constant(FieldElement::one()), one_on_first_curve_var]).unwrap();

    assert_eq!(gadget.squeeze().unwrap().value().unwrap(), native.squeeze());

    let mut new_gadget = PoseidonHashVar::from_poseidon_hash(handle(), native.clone()).unwrap();

    assert_eq!(
        new_gadget.squeeze().unwrap().value().unwrap(),
        gadget.squeeze().unwrap().value().unwrap()
    );
}

#[test]
fn digest_matches_the_sponge_called_directly() {
    let (ark, mds) = find_poseidon_ark_and_mds::<Fr>(254, 4, 8, 60, 0);
    let config = PoseidonConfig::new(8, 60, 5, mds, ark, 4, 1);
    let mut reference = PoseidonSponge::<Fr>::new(&config);
    reference.absorb(&Fr::from(1u64));
    reference.absorb(&Fr::from(1u64));
    let expected: Vec<Fr> = reference.squeeze_field_elements(1);

    let mut native = PoseidonHash::new();
    native.absorb_many(&[FieldElement::one(), FieldElement::one()]);
    let digest = native.squeeze();
    assert_eq!(fr(&digest), expected[0]);
    assert_ne!(digest, FieldElement::one());
    assert_ne!(digest, FieldElement::zero());
}

#[test]
fn digest_is_stable_across_runs() {
    let mut first = PoseidonHash::new();
    first.absorb_many(&[FieldElement::one(), FieldElement::one()]);
    let mut second = PoseidonHash::new();
    second.absorb_many(&[FieldElement::one(), FieldElement::one()]);
    assert_eq!(first.squeeze(), second.squeeze());
    assert_eq!(first.state(), second.state());
}

#[test]
fn absorbing_in_parts_equals_absorbing_at_once() {
    let a = FieldElement::from_u64(7);
    let b = FieldElement::from_u64(11);
    let c = FieldElement::from_u64(13);
    let mut whole = PoseidonHash::new();
    whole.absorb_many(&[a, b, c]);
    let mut parts = PoseidonHash::new();
    parts.absorb_many(&[a]);
    parts.absorb_many(&[b, c]);
    assert_eq!(whole.state(), parts.state());
    assert_eq!(whole.mode(), parts.mode());
    assert_eq!(whole.squeeze(), parts.squeeze());
}

#[test]
fn absorbing_changes_the_state() {
    let mut sponge = PoseidonHash::new();
    let before = sponge.state();
    assert_eq!(before, vec![FieldElement::zero(); 5]);
    sponge.absorb_many(&[FieldElement::from_u64(9)]);
    let after = sponge.state();
    assert_ne!(before, after);
    assert_eq!(after[1], FieldElement::from_u64(9));
    assert_eq!(after.len(), 5);
}

#[test]
fn update_sponge_is_absorb_many() {
    let mut old_name = PoseidonHash::new();
    old_name.update_sponge(vec![FieldElement::from_u64(3), FieldElement::from_u64(4)]);
    let mut new_name = PoseidonHash::new();
    new_name.absorb_many(&[FieldElement::from_u64(3), FieldElement::from_u64(4)]);
    assert_eq!(old_name.state(), new_name.state());
    assert_eq!(old_name.squeeze(), new_name.squeeze());
}

#[test]
fn cursor_moves_as_stated() {
    let mut sponge = PoseidonHash::new();
    assert_eq!(sponge.mode(), SpongeMode::Absorbing { next_absorb_index: 0 });
    sponge.absorb_many(&[FieldElement::one(); 4]);
    assert_eq!(sponge.mode(), SpongeMode::Absorbing { next_absorb_index: 4 });
    sponge.absorb_many(&[FieldElement::one()]);
    assert_eq!(sponge.mode(), SpongeMode::Absorbing { next_absorb_index: 1 });
    sponge.absorb_many(&[]);
    assert_eq!(sponge.mode(), SpongeMode::Absorbing { next_absorb_index: 1 });
    let out = sponge.squeeze_many(6);
    assert_eq!(out.len(), 6);
    assert_eq!(sponge.mode(), SpongeMode::Squeezing { next_squeeze_index: 2 });
    let none = sponge.squeeze_many(0);
    assert!(none.is_empty());
    assert_eq!(sponge.mode(), SpongeMode::Squeezing { next_squeeze_index: 2 });
    assert_eq!(sponge.squeeze_many(1).len(), 1);
    assert_eq!(sponge.mode(), SpongeMode::Squeezing { next_squeeze_index: 3 });
    sponge.squeeze_many(1);
    assert_eq!(sponge.mode(), SpongeMode::Squeezing { next_squeeze_index: 4 });
    sponge.squeeze();
    assert_eq!(sponge.mode(), SpongeMode::Squeezing { next_squeeze_index: 1 });
    sponge.absorb_many(&[FieldElement::one()]);
    assert_eq!(sponge.mode(), SpongeMode::Absorbing { next_absorb_index: 1 });
}

#[test]
fn squeezing_nothing_is_a_no_op() {
    let mut sponge = PoseidonHash::new();
    sponge.absorb_many(&[FieldElement::from_u64(6)]);
    let state = sponge.state();
    let out = sponge.squeeze_many(0);
    assert!(out.is_empty());
    assert_eq!(sponge.mode(), SpongeMode::Absorbing { next_absorb_index: 1 });
    assert_eq!(sponge.state(), state);
    let mut gadget = PoseidonHashVar::new(handle());
    assert!(gadget.squeeze_many(0).unwrap().is_empty());
    assert_eq!(gadget.mode(), SpongeMode::Absorbing { next_absorb_index: 0 });
}

#[test]
fn squeeze_reads_the_rate_part() {
    let mut sponge = PoseidonHash::new();
    sponge.absorb_many(&[FieldElement::from_u64(6)]);
    let first = sponge.squeeze();
    let state = sponge.state();
    assert_eq!(first, state[1]);
    assert_eq!(sponge.squeeze(), state[2]);
    assert_eq!(sponge.squeeze(), state[3]);
    assert_eq!(sponge.squeeze(), state[4]);
    assert_eq!(sponge.state(), state);
    let fifth = sponge.squeeze();
    assert_ne!(sponge.state(), state);
    assert_eq!(fifth, sponge.state()[1]);
}

#[test]
fn absorbing_adds_to_the_rate_part() {
    let mut sponge = PoseidonHash::new();
    sponge.absorb_many(&[FieldElement::one(), FieldElement::one()]);
    let z = FieldElement::zero();
    let o = FieldElement::one();
    assert_eq!(sponge.state(), vec![z, o, o, z, z]);
    sponge.squeeze();
    let before = sponge.state();
    sponge.absorb_many(&[FieldElement::from_u64(2)]);
    let after = sponge.state();
    assert_eq!(fr(&after[1]), fr(&before[1]) + Fr::from(2u64));
    assert_eq!(after[0], before[0]);
    assert_eq!(after[2..], before[2..]);
    assert_eq!(sponge.mode(), SpongeMode::Absorbing { next_absorb_index: 1 });
}

#[test]
fn gadget_squeezes_what_the_native_sponge_squeezes() {
    let cs = handle();
    let values = [FieldElement::from_u64(5), FieldElement::from_u64(6), FieldElement::from_u64(7)];
    let mut native = PoseidonHash::new();
    native.absorb_many(&values);
    let mut gadget = PoseidonHashVar::with_config(cs.share(), &get_poseidon_config());
    let vars: Vec<FieldVar> =
        values.iter().map(|v| FieldVar::new_witness(&cs, v).unwrap()).collect();
    gadget.absorb_many(&vars[..1]).unwrap();
    gadget.absorb_many(&vars[1..]).unwrap();
    let out = gadget.squeeze_many(6).unwrap();
    let expected = native.squeeze_many(6);
    let got: Vec<FieldElement> = out.iter().map(|v| v.value().unwrap()).collect();
    assert_eq!(got, expected);
    assert_eq!(gadget.mode(), native.mode());
    assert_eq!(cs.is_satisfied().ok(), Some(true));
}

#[test]
fn squeeze_many_starts_with_the_single_squeeze() {
    let mut one = PoseidonHash::new();
    one.absorb_many(&[FieldElement::from_u64(5)]);
    let mut many = one.clone();
    let first = one.squeeze();
    let several = many.squeeze_many(3);
    assert_eq!(several[0], first);
    assert_eq!(one.squeeze(), several[1]);
}

#[test]
fn gadget_cursor_moves_as_the_native_one() {
    let mut gadget = PoseidonHashVar::new(handle());
    assert_eq!(gadget.mode(), SpongeMode::Absorbing { next_absorb_index: 0 });
    let vars: Vec<FieldVar> = (0..5).map(|i| constant(FieldElement::from_u64(i))).collect();
    gadget.absorb_many(&vars).unwrap();
    assert_eq!(gadget.mode(), SpongeMode::Absorbing { next_absorb_index: 1 });
    gadget.squeeze().unwrap();
    assert_eq!(gadget.mode(), SpongeMode::Squeezing { next_squeeze_index: 1 });
}

#[test]
fn gadget_from_native_takes_state_and_mode_over() {
    let mut native = PoseidonHash::new();
    native.absorb_many(&[FieldElement::from_u64(21), FieldElement::from_u64(22)]);
    let cs = handle();
    let mut gadget = PoseidonHashVar::from_poseidon_hash(cs.share(), native.clone()).unwrap();
    assert_eq!(cs.num_instance_variables(), 6);
    assert_eq!(gadget.mode(), native.mode());
    let digest = gadget.squeeze().unwrap();
    assert_eq!(digest.value().unwrap(), native.squeeze());
    gadget.absorb_many(&[constant(FieldElement::from_u64(9))]).unwrap();
    native.absorb_many(&[FieldElement::from_u64(9)]);
    assert_eq!(gadget.squeeze().unwrap().value().unwrap(), native.squeeze());
    assert!(cs.is_satisfied().unwrap());
}

#[test]
fn gadget_without_a_system_fails_cleanly() {
    let native = PoseidonHash::new();
    assert!(PoseidonHashVar::from_poseidon_hash(ConstraintSystemHandle::none(), native).is_err());
}

#[test]
fn canonical_configuration() {
    let config = get_poseidon_config();
    assert_eq!(config.rate(), 4);
    assert_eq!(config.capacity(), 1);
    assert_eq!(config.full_rounds(), 8);
    assert_eq!(config.partial_rounds(), 60);
    assert_eq!(config.alpha(), 5);
    assert_eq!(config.ark().len(), 68);
    assert_eq!(config.mds().len(), 5);
    let (ark, mds) = find_poseidon_ark_and_mds::<Fr>(254, 4, 8, 60, 0);
    for (row, expected) in config.ark().iter().zip(ark.iter()) {
        assert_eq!(row.iter().map(fr).collect::<Vec<Fr>>(), *expected);
    }
    for (row, expected) in config.mds().iter().zip(mds.iter()) {
        assert_eq!(row.iter().map(fr).collect::<Vec<Fr>>(), *expected);
    }
}

#[test]
fn configuration_is_reproducible() {
    let first = get_poseidon_config();
    let second = get_poseidon_config();
    assert_eq!(first.ark(), second.ark());
    assert_eq!(first.mds(), second.mds());
    let copy = first.clone();
    assert_eq!(copy.ark(), first.ark());
    assert_eq!(copy.mds(), first.mds());
    assert_eq!(copy.rate(), first.rate());
}

#[test]
fn configuration_errors() {
    let z = FieldElement::zero();
    let square = |n: usize| vec![vec![z; n]; n];
    let rounds = |r: usize, n: usize| vec![vec![z; n]; r];
    assert!(SpongeConfig::new(2, 1, 5, square(3), rounds(3, 3), 2, 1).is_ok());
    assert_eq!(
        SpongeConfig::new(2, 1, 5, square(1), rounds(3, 1), 0, 1).err(),
        Some(ConfigError::ZeroRate)
    );
    assert_eq!(
        SpongeConfig::new(2, 1, 5, square(3), rounds(3, 3), usize::MAX, 1).err(),
        Some(ConfigError::TooLarge)
    );
    assert_eq!(
        SpongeConfig::new(usize::MAX, 1, 5, square(3), rounds(3, 3), 2, 1).err(),
        Some(ConfigError::TooLarge)
    );
    for alpha in [0u64, 2, 3, 6, 13, 29, 983, 1 << 28] {
        assert_eq!(
            SpongeConfig::new(2, 1, alpha, square(3), rounds(3, 3), 2, 1).err(),
            Some(ConfigError::Exponent)
        );
    }
    for alpha in [1u64, 5, 7, 11, 17, 35] {
        assert!(SpongeConfig::new(2, 1, alpha, square(3), rounds(3, 3), 2, 1).is_ok());
    }
    assert_eq!(
        SpongeConfig::new(2, 1, 4, square(3), rounds(2, 3), 2, 1).err(),
        Some(ConfigError::Exponent)
    );
    assert_eq!(
        SpongeConfig::new(2, 1, 5, square(3), rounds(2, 3), 2, 1).err(),
        Some(ConfigError::RoundConstantShape)
    );
    assert_eq!(
        SpongeConfig::new(2, 1, 5, square(3), rounds(3, 2), 2, 1).err(),
        Some(ConfigError::RoundConstantShape)
    );
    assert_eq!(
        SpongeConfig::new(2, 1, 5, square(2), rounds(3, 3), 2, 1).err(),
        Some(ConfigError::MatrixShape)
    );
    assert_eq!(
        SpongeConfig::new(2, 1, 5, rounds(3, 2), rounds(3, 3), 2, 1).err(),
        Some(ConfigError::MatrixShape)
    );
}

#[test]
fn sponge_with_a_small_configuration() {
    let (ark, mds) = find_poseidon_ark_and_mds::<Fr>(254, 2, 8, 31, 0);
    let plain = |m: &Vec<Vec<Fr>>| -> Vec<Vec<FieldElement>> {
        m.iter().map(|r| r.iter().map(|f| element(*f)).collect()).collect()
    };
    let config = SpongeConfig::new(8, 31, 5, plain(&mds), plain(&ark), 2, 1).unwrap();
    let mut reference = PoseidonSponge::<Fr>::new(&PoseidonConfig::new(8, 31, 5, mds, ark, 2, 1));
    reference.absorb(&vec![Fr::from(0u8), Fr::from(1u8), Fr::from(2u8)]);
    let expected: Vec<Fr> = reference.squeeze_field_elements(3);

    let mut sponge = PoseidonHash::with_config(&config);
    sponge.absorb_many(&[
        FieldElement::from_u64(0),
        FieldElement::from_u64(1),
        FieldElement::from_u64(2),
    ]);
    assert_eq!(sponge.mode(), SpongeMode::Absorbing { next_absorb_index: 1 });
    let out = sponge.squeeze_many(3);
    assert_eq!(out.iter().map(fr).collect::<Vec<Fr>>(), expected);
    assert_eq!(sponge.mode(), SpongeMode::Squeezing { next_squeeze_index: 1 });
}

#[test]
fn inputs_are_allocated_exactly_with_a_system() {
    let values = [FieldElement::from_u64(3), FieldElement::from_u64(4)];
    let none = ConstraintSystemHandle::none();
    assert!(allocate_inputs(&none, &values).is_err());
    assert!(allocate_inputs(&none, &[]).unwrap().is_empty());
    let cs = handle();
    let inputs = allocate_inputs(&cs, &values).unwrap();
    assert_eq!(inputs.len(), 2);
    assert_eq!(cs.num_instance_variables(), 3);
    assert_eq!(inputs[0].value(), Some(FieldElement::from_u64(3)));
    assert_eq!(inputs[1].value(), Some(FieldElement::from_u64(4)));
    let setup = ConstraintSystemHandle::new_setup();
    let in_setup = allocate_inputs(&setup, &values).unwrap();
    assert_eq!(in_setup[0].value(), None);
    let native = PoseidonHash::new();
    let mut gadget = PoseidonHashVar::from_poseidon_hash(setup.share(), native).unwrap();
    assert!(gadget.absorb_many(&in_setup).is_ok());
    assert!(gadget.squeeze().is_ok());
    assert_eq!(setup.num_constraints(), handle_constraints_of_one_permutation());
}

fn handle_constraints_of_one_permutation() -> usize {
    let cs = handle();
    let mut gadget = PoseidonHashVar::from_poseidon_hash(cs.share(), PoseidonHash::new()).unwrap();
    gadget.squeeze().unwrap();
    cs.num_constraints()
}
