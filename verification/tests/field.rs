use ark_ff::PrimeField;
use zksnark_reporting_system::field::exponent_is_coprime;
use zksnark_reporting_system::field::FieldElement;
use zksnark_reporting_system::field::MODULUS_BIT_SIZE;
use zksnark_reporting_system::field::MODULUS_LIMB_0;
use zksnark_reporting_system::field::MODULUS_LIMB_1;
use zksnark_reporting_system::field::MODULUS_LIMB_2;
use zksnark_reporting_system::field::MODULUS_LIMB_3;

#[test]
fn modulus_is_the_one_of_the_curve() {
    let modulus = <ark_bn254::Fr as PrimeField>::MODULUS;
    assert_eq!(modulus.0, [MODULUS_LIMB_0, MODULUS_LIMB_1, MODULUS_LIMB_2, MODULUS_LIMB_3]);
    assert_eq!(<ark_bn254::Fr as PrimeField>::MODULUS_BIT_SIZE as u64, MODULUS_BIT_SIZE);
}

#[test]
fn limbs_below_the_modulus_are_accepted() {
    let small = FieldElement::from_limbs([5, 0, 0, 0]).unwrap();
    assert_eq!(small, FieldElement::from_u64(5));
    assert_eq!(small.to_limbs(), [5, 0, 0, 0]);
    let largest = [MODULUS_LIMB_0 - 1, MODULUS_LIMB_1, MODULUS_LIMB_2, MODULUS_LIMB_3];
    assert_eq!(FieldElement::from_limbs(largest).unwrap().to_limbs(), largest);
    assert!(FieldElement::from_limbs([u64::MAX, u64::MAX, u64::MAX, MODULUS_LIMB_3 - 1]).is_some());
    assert!(FieldElement::from_limbs([u64::MAX, u64::MAX, MODULUS_LIMB_2 - 1, MODULUS_LIMB_3]).is_some());
    assert!(FieldElement::from_limbs([u64::MAX, MODULUS_LIMB_1 - 1, MODULUS_LIMB_2, MODULUS_LIMB_3]).is_some());
}

#[test]
fn limbs_from_the_modulus_on_are_refused() {
    let modulus = [MODULUS_LIMB_0, MODULUS_LIMB_1, MODULUS_LIMB_2, MODULUS_LIMB_3];
    assert!(FieldElement::from_limbs(modulus).is_none());
    assert!(FieldElement::from_limbs([0, 0, 0, MODULUS_LIMB_3 + 1]).is_none());
    assert!(FieldElement::from_limbs([0, 0, MODULUS_LIMB_2 + 1, MODULUS_LIMB_3]).is_none());
    assert!(FieldElement::from_limbs([0, MODULUS_LIMB_1 + 1, MODULUS_LIMB_2, MODULUS_LIMB_3]).is_none());
    assert!(FieldElement::from_limbs([u64::MAX; 4]).is_none());
}

#[test]
fn zero_and_one() {
    assert_eq!(FieldElement::zero().to_limbs(), [0, 0, 0, 0]);
    assert_eq!(FieldElement::one().to_limbs(), [1, 0, 0, 0]);
    assert_eq!(FieldElement::from_u64(u64::MAX).to_limbs(), [u64::MAX, 0, 0, 0]);
}

#[test]
fn exponents_coprime_with_the_group_order() {
    let order = [MODULUS_LIMB_0 - 1, MODULUS_LIMB_1, MODULUS_LIMB_2, MODULUS_LIMB_3];
    for alpha in 0u64..500 {
        let expected = alpha != 0 && gcd_with(&order, alpha) == 1;
        assert_eq!(exponent_is_coprime(alpha), expected, "alpha {}", alpha);
    }
    assert!(exponent_is_coprime(5));
    assert!(!exponent_is_coprime(3));
    assert!(!exponent_is_coprime(0));
    assert!(!exponent_is_coprime(u64::MAX - 1));
    assert!(exponent_is_coprime(u64::MAX) == (gcd_with(&order, u64::MAX) == 1));
}

fn gcd_with(order: &[u64; 4], alpha: u64) -> u64 {
    let mut residue: u128 = 0;
    for limb in order.iter().rev() {
        residue = ((residue << 64) | u128::from(*limb)) % u128::from(alpha);
    }
    let mut a = u128::from(alpha);
    let mut b = residue;
    while b != 0 {
        let t = a % b;
        a = b;
        b = t;
    }
    a as u64
}
