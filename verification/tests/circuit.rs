use ark_bn254::Fr;
use ark_ff::BigInt;
use ark_ff::UniformRand;
use ark_relations::r1cs::SynthesisError;
use ark_std::rand::rngs::StdRng;
use ark_std::rand::SeedableRng;
use zksnark_reporting_system::circuit::allocate_witnesses;
use zksnark_reporting_system::circuit::hash_witnesses;
use zksnark_reporting_system::field::FieldElement;
use zksnark_reporting_system::hash::PoseidonHash;
use zksnark_reporting_system::r1cs::ConstraintSystemHandle;
use zksnark_reporting_system::PoseidonCircuit;

#[test]
fn circuit_satisfies() {
    let cs = ConstraintSystemHandle::new_ref();
    PoseidonCircuit::new(10).generate_constraints(cs.share()).unwrap();
    assert!(cs.is_satisfied().unwrap());
}

#[test]
fn circuit_of_no_elements_synthesizes() {
    let cs = ConstraintSystemHandle::new_ref();
    let circuit = PoseidonCircuit::new(0);
    assert_eq!(circuit.n(), 0);
    assert!(circuit.witness_values().is_empty());
    circuit.generate_constraints(cs.share()).unwrap();
    assert!(cs.is_satisfied().unwrap());
    assert_eq!(cs.num_witness_variables(), 0);

    let digest = hash_witnesses(ConstraintSystemHandle::new_ref(), &[]).unwrap();
    let mut native = PoseidonHash::new();
    native.absorb_many(&[]);
    assert_eq!(digest.value().unwrap(), native.squeeze());
}

#[test]
fn circuit_of_1024_elements_agrees_with_native() {
    let circuit = PoseidonCircuit::new(1024);
    let values = circuit.witness_values();
    assert_eq!(values.len(), 1024);
    let cs = ConstraintSystemHandle::new_ref();
    let digest = hash_witnesses(cs.share(), &values).unwrap();
    assert!(cs.is_satisfied().unwrap());
    let mut native = PoseidonHash::new();
    native.absorb_many(&values);
    assert_eq!(digest.value().unwrap(), native.squeeze());

    let again = ConstraintSystemHandle::new_ref();
    circuit.generate_constraints(again.share()).unwrap();
    assert_eq!(again.num_constraints(), cs.num_constraints());
    assert_eq!(again.num_witness_variables(), cs.num_witness_variables());
}

#[test]
fn witnesses_come_from_the_seeded_generator() {
    let mut rng = StdRng::seed_from_u64(42);
    let expected: Vec<Fr> = (0..4).map(|_| Fr::rand(&mut rng)).collect();
    let values = PoseidonCircuit::new(4).witness_values();
    let got: Vec<Fr> = values.iter().map(|e| Fr::from(BigInt(e.to_limbs()))).collect();
    assert_eq!(got, expected);
    assert_eq!(PoseidonCircuit::new(4).witness_values(), values);
    assert_eq!(PoseidonCircuit::new(6).witness_values()[..4], values[..]);
    assert_ne!(values[0], values[1]);
}

#[test]
fn witnesses_are_allocated_one_each() {
    let cs = ConstraintSystemHandle::new_ref();
    let values = [FieldElement::from_u64(3), FieldElement::from_u64(8), FieldElement::one()];
    let witnesses = allocate_witnesses(&cs, &values).unwrap();
    assert_eq!(witnesses.len(), 3);
    assert_eq!(cs.num_witness_variables(), 3);
    assert_eq!(witnesses[0].value(), Some(FieldElement::from_u64(3)));
    assert_eq!(witnesses[1].value(), Some(FieldElement::from_u64(8)));
    assert_eq!(witnesses[2].value(), Some(FieldElement::one()));
}

#[test]
fn caller_supplied_witnesses_are_hashed_in_order() {
    let values = [FieldElement::from_u64(3), FieldElement::from_u64(8)];
    let swapped = [FieldElement::from_u64(8), FieldElement::from_u64(3)];
    let digest = hash_witnesses(ConstraintSystemHandle::new_ref(), &values).unwrap();
    let other = hash_witnesses(ConstraintSystemHandle::new_ref(), &swapped).unwrap();
    let mut native = PoseidonHash::new();
    native.absorb_many(&values);
    assert_eq!(digest.value().unwrap(), native.squeeze());
    assert_ne!(digest.value(), other.value());
}

#[test]
fn synthesis_without_a_system_fails_cleanly() {
    assert_eq!(
        PoseidonCircuit::new(3).generate_constraints(ConstraintSystemHandle::none()).err(),
        Some(SynthesisError::MissingCS)
    );
    assert!(allocate_witnesses(&ConstraintSystemHandle::none(), &[]).unwrap().is_empty());
}

#[test]
fn synthesis_in_setup_mode_builds_the_same_shape() {
    let setup = ConstraintSystemHandle::new_setup();
    PoseidonCircuit::new(4).generate_constraints(setup.share()).unwrap();
    let prove = ConstraintSystemHandle::new_ref();
    PoseidonCircuit::new(4).generate_constraints(prove.share()).unwrap();
    assert_eq!(setup.num_constraints(), prove.num_constraints());
    assert_eq!(setup.num_witness_variables(), prove.num_witness_variables());
    assert!(setup.is_satisfied().is_err());
    let digest = hash_witnesses(setup, &[FieldElement::one()]).unwrap();
    assert_eq!(digest.value(), None);
}

#[test]
fn nothing_to_allocate_needs_no_system() {
    let digest = hash_witnesses(ConstraintSystemHandle::none(), &[]).unwrap();
    let mut native = PoseidonHash::new();
    assert_eq!(digest.value().unwrap(), native.squeeze());
    assert!(PoseidonCircuit::new(0).generate_constraints(ConstraintSystemHandle::none()).is_ok());
}

#[test]
fn allocation_fails_exactly_without_a_system() {
    let values = [FieldElement::from_u64(3)];
    let none = ConstraintSystemHandle::none();
    assert_eq!(allocate_witnesses(&none, &values).err(), Some(SynthesisError::MissingCS));
    assert_eq!(hash_witnesses(none, &values).err(), Some(SynthesisError::MissingCS));
    let setup = ConstraintSystemHandle::new_setup();
    assert!(allocate_witnesses(&setup, &values).is_ok());
    assert!(hash_witnesses(setup, &values).is_ok());
    assert!(hash_witnesses(ConstraintSystemHandle::new_ref(), &values).is_ok());
}
