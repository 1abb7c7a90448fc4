//! Elements of the BN254 scalar field, held as four little-endian 64-bit limbs
//! of their canonical representative.

use vstd::prelude::*;

verus! {

/// Least significant limb of the field modulus.
pub const MODULUS_LIMB_0: u64 = 0x43e1f593f0000001;

/// Second limb of the field modulus.
pub const MODULUS_LIMB_1: u64 = 0x2833e84879b97091;

/// Third limb of the field modulus.
pub const MODULUS_LIMB_2: u64 = 0xb85045b68181585d;

/// Most significant limb of the field modulus.
pub const MODULUS_LIMB_3: u64 = 0x30644e72e131a029;

/// Number of bits of the field modulus.
pub const MODULUS_BIT_SIZE: u64 = 254;

/// The weight of one limb: 2^64.
pub open spec fn limb_base() -> int {
    0x1_0000_0000_0000_0000
}

/// The number that four limbs spell, least significant limb first.
pub open spec fn limbs_value(limbs: Seq<u64>) -> nat
    recommends
        limbs.len() == 4,
{
    (limbs[0] + limb_base() * (limbs[1] + limb_base() * (limbs[2] + limb_base() * limbs[3]))) as nat
}

/// The field modulus
/// 21888242871839275222246405745257275088548364400416034343698204186575808495617.
pub open spec fn modulus() -> nat {
    (MODULUS_LIMB_0 + limb_base() * (MODULUS_LIMB_1 + limb_base() * (MODULUS_LIMB_2 + limb_base()
        * MODULUS_LIMB_3))) as nat
}

/// Two numbers written as a low digit and a high part compare by the high
/// part first.
pub proof fn lemma_compare_by_high_part(lo_a: int, hi_a: int, lo_b: int, hi_b: int)
    requires
        0 <= lo_a < limb_base(),
        0 <= lo_b < limb_base(),
    ensures
        hi_a < hi_b ==> lo_a + limb_base() * hi_a < lo_b + limb_base() * hi_b,
        hi_a == hi_b ==> (lo_a + limb_base() * hi_a < lo_b + limb_base() * hi_b <==> lo_a < lo_b),
        hi_a > hi_b ==> lo_a + limb_base() * hi_a > lo_b + limb_base() * hi_b,
{
    assert(hi_a < hi_b ==> limb_base() * hi_a + limb_base() <= limb_base() * hi_b)
        by (nonlinear_arith);
    assert(hi_a > hi_b ==> limb_base() * hi_b + limb_base() <= limb_base() * hi_a)
        by (nonlinear_arith);
}

/// The modulus has exactly `MODULUS_BIT_SIZE` bits.
pub proof fn lemma_modulus_bit_size()
    ensures
        0x2000_0000_0000_0000 * limb_base() * limb_base() * limb_base() <= modulus(),
        modulus() < 0x4000_0000_0000_0000 * limb_base() * limb_base() * limb_base(),
{
    let b = limb_base();
    let top: int = MODULUS_LIMB_3 as int;
    let rest: int = MODULUS_LIMB_0 + b * (MODULUS_LIMB_1 + b * MODULUS_LIMB_2);
    assert(0 <= rest < b * b * b) by (nonlinear_arith)
        requires
            b == 0x1_0000_0000_0000_0000,
            rest == 0x43e1f593f0000001 + b * (0x2833e84879b97091 + b * 0xb85045b68181585d),
    ;
    assert(modulus() == rest + b * b * b * top) by (nonlinear_arith)
        requires
            b == 0x1_0000_0000_0000_0000,
            top == 0x30644e72e131a029,
            rest == 0x43e1f593f0000001 + b * (0x2833e84879b97091 + b * 0xb85045b68181585d),
            modulus() == 0x43e1f593f0000001 + b * (0x2833e84879b97091 + b * (0xb85045b68181585d + b
                * 0x30644e72e131a029)),
    ;
    assert(0x2000_0000_0000_0000 * b * b * b <= rest + b * b * b * top < 0x4000_0000_0000_0000 * b
        * b * b) by (nonlinear_arith)
        requires
            0 <= rest < b * b * b,
            top == 0x30644e72e131a029,
            b == 0x1_0000_0000_0000_0000,
    ;
}

/// The order of the multiplicative group of the field: the modulus less one.
pub open spec fn group_order() -> nat {
    (modulus() - 1) as nat
}

/// The greatest common divisor, by Euclid's rule.
pub open spec fn gcd(a: nat, b: nat) -> nat
    decreases b,
{
    if b == 0 {
        a
    } else {
        gcd(b, a % b)
    }
}

/// A number with one more limb behind it has, modulo `a`, the residue of its
/// own residue with that limb behind it.
proof fn lemma_reduce_step(x: int, limb: int, a: int)
    requires
        0 <= x,
        0 <= limb,
        0 < a,
    ensures
        ((x % a) * limb_base() + limb) % a == (x * limb_base() + limb) % a,
{
    vstd::arithmetic::div_mod::lemma_mul_mod_noop_left(x, limb_base(), a);
    vstd::arithmetic::div_mod::lemma_add_mod_noop((x % a) * limb_base(), limb, a);
    vstd::arithmetic::div_mod::lemma_add_mod_noop(x * limb_base(), limb, a);
}

/// The residue of the group order modulo `a`, limb by limb from the top.
pub open spec fn order_residue_by_limbs(a: int) -> int {
    let r3 = (MODULUS_LIMB_3 as int) % a;
    let r2 = (r3 * limb_base() + MODULUS_LIMB_2) % a;
    let r1 = (r2 * limb_base() + MODULUS_LIMB_1) % a;
    (r1 * limb_base() + (MODULUS_LIMB_0 - 1)) % a
}

/// Reducing limb by limb gives the residue of the group order.
pub proof fn lemma_order_residue(a: int)
    requires
        0 < a,
    ensures
        (group_order() as int) % a == order_residue_by_limbs(a),
{
    let b = limb_base();
    let x3 = MODULUS_LIMB_3 as int;
    let x2 = x3 * b + MODULUS_LIMB_2;
    let x1 = x2 * b + MODULUS_LIMB_1;
    let x0 = x1 * b + (MODULUS_LIMB_0 - 1);
    assert(x0 == group_order()) by (nonlinear_arith)
        requires
            b == 0x1_0000_0000_0000_0000,
            x3 == 0x30644e72e131a029,
            x2 == x3 * b + 0xb85045b68181585d,
            x1 == x2 * b + 0x2833e84879b97091,
            x0 == x1 * b + 0x43e1f593f0000000,
            group_order() == 0x43e1f593f0000000 + b * (0x2833e84879b97091 + b * (0xb85045b68181585d
                + b * 0x30644e72e131a029)),
    ;
    assert(0 <= x2 && 0 <= x1) by (nonlinear_arith)
        requires
            b > 0,
            x3 >= 0,
            x2 == x3 * b + 0xb85045b68181585d,
            x1 == x2 * b + 0x2833e84879b97091,
    ;
    lemma_reduce_step(x3, MODULUS_LIMB_2 as int, a);
    lemma_reduce_step(x2, MODULUS_LIMB_1 as int, a);
    lemma_reduce_step(x1, MODULUS_LIMB_0 - 1, a);
}

/// The residue of a number below `a` with one more limb behind it.
fn reduce_limb(high: u64, limb: u64, a: u64) -> (r: u64)
    requires
        0 < a,
        high < a,
    ensures
        r == (high * limb_base() + limb) % (a as int),
{
    assert(high * 0x1_0000_0000_0000_0000 + limb <= u128::MAX) by (nonlinear_arith)
        requires
            high <= 0xffff_ffff_ffff_ffff,
            limb <= 0xffff_ffff_ffff_ffff,
    ;
    let wide: u128 = (high as u128) * 0x1_0000_0000_0000_0000u128 + (limb as u128);
    let r: u128 = wide % (a as u128);
    r as u64
}

/// The greatest common divisor of two numbers.
fn gcd_of(a: u64, b: u64) -> (r: u64)
    ensures
        r == gcd(a as nat, b as nat),
{
    let mut x: u64 = a;
    let mut y: u64 = b;
    while y != 0
        invariant
            gcd(x as nat, y as nat) == gcd(a as nat, b as nat),
        decreases y,
    {
        let t: u64 = x % y;
        x = y;
        y = t;
    }
    x
}

/// Whether the exponent is coprime with the order of the multiplicative
/// group, so that raising to it is a permutation of the field. Such an
/// exponent is odd, the order being even.
pub fn exponent_is_coprime(alpha: u64) -> (r: bool)
    ensures
        r == (gcd(group_order(), alpha as nat) == 1),
{
    if alpha == 0 {
        proof {
            lemma_modulus_bit_size();
            assert(group_order() > 1) by (nonlinear_arith)
                requires
                    0x2000_0000_0000_0000 * limb_base() * limb_base() * limb_base() <= modulus(),
                    limb_base() == 0x1_0000_0000_0000_0000,
                    group_order() == modulus() - 1,
            ;
        }
        return false;
    }
    let r3: u64 = MODULUS_LIMB_3 % alpha;
    let r2: u64 = reduce_limb(r3, MODULUS_LIMB_2, alpha);
    let r1: u64 = reduce_limb(r2, MODULUS_LIMB_1, alpha);
    let r0: u64 = reduce_limb(r1, MODULUS_LIMB_0 - 1, alpha);
    proof {
        lemma_order_residue(alpha as int);
        assert(gcd(group_order(), alpha as nat) == gcd(alpha as nat, group_order() % (alpha as nat)));
    }
    gcd_of(alpha, r0) == 1
}

/// The exponent five is coprime with the order of the multiplicative group.
pub proof fn lemma_five_is_coprime()
    ensures
        gcd(group_order(), 5) == 1,
{
    lemma_order_residue(5);
    assert(order_residue_by_limbs(5) == 1);
    assert(gcd(group_order(), 5) == gcd(5, group_order() % 5));
    assert(gcd(5, 1) == gcd(1, 0)) by {
        assert(5nat % 1nat == 0);
    }
    assert(gcd(1, 0) == 1);
}

/// An element of the BN254 scalar field.
#[derive(Clone, Copy, Debug, PartialEq, Eq, Hash)]
pub struct FieldElement {
    pub(crate) limbs: [u64; 4],
}

impl View for FieldElement {
    type V = nat;

    /// The canonical representative, a number below the modulus.
    closed spec fn view(&self) -> nat {
        limbs_value(self.limbs@)
    }
}

impl FieldElement {
    #[verifier::type_invariant]
    spec fn is_canonical(self) -> bool {
        limbs_value(self.limbs@) < modulus()
    }

    /// The limbs that spell the element.
    pub closed spec fn spec_limbs(self) -> Seq<u64> {
        self.limbs@
    }

    /// The element whose canonical representative the limbs spell, if they
    /// spell a number below the modulus.
    pub fn from_limbs(limbs: [u64; 4]) -> (r: Option<FieldElement>)
        ensures
            r is Some <==> limbs_value(limbs@) < modulus(),
            r is Some ==> r->0@ == limbs_value(limbs@) && r->0.spec_limbs() == limbs@,
    {
        let below = if limbs[3] != MODULUS_LIMB_3 {
            limbs[3] < MODULUS_LIMB_3
        } else if limbs[2] != MODULUS_LIMB_2 {
            limbs[2] < MODULUS_LIMB_2
        } else if limbs[1] != MODULUS_LIMB_1 {
            limbs[1] < MODULUS_LIMB_1
        } else {
            limbs[0] < MODULUS_LIMB_0
        };
        proof {
            let b = limb_base();
            let a2 = limbs[2] + b * limbs[3];
            let m2 = MODULUS_LIMB_2 + b * MODULUS_LIMB_3;
            let a1 = limbs[1] + b * a2;
            let m1 = MODULUS_LIMB_1 + b * m2;
            lemma_compare_by_high_part(limbs[2] as int, limbs[3] as int, MODULUS_LIMB_2 as int,
                MODULUS_LIMB_3 as int);
            lemma_compare_by_high_part(limbs[1] as int, a2, MODULUS_LIMB_1 as int, m2);
            lemma_compare_by_high_part(limbs[0] as int, a1, MODULUS_LIMB_0 as int, m1);
            assert(0 <= a2 && 0 <= a1) by (nonlinear_arith)
                requires
                    a2 == limbs[2] + b * limbs[3],
                    a1 == limbs[1] + b * a2,
                    b > 0,
            ;
        }
        if below {
            Some(FieldElement { limbs })
        } else {
            None
        }
    }

    /// The element of a small number.
    pub fn from_u64(value: u64) -> (r: FieldElement)
        ensures
            r@ == value,
    {
        proof {
            lemma_modulus_bit_size();
            assert(value < 0x2000_0000_0000_0000 * limb_base() * limb_base() * limb_base())
                by (nonlinear_arith)
                requires
                    value < limb_base(),
                    limb_base() > 1,
            ;
        }
        FieldElement { limbs: [value, 0, 0, 0] }
    }

    /// The additive identity.
    pub fn zero() -> (r: FieldElement)
        ensures
            r@ == 0,
    {
        FieldElement::from_u64(0)
    }

    /// The multiplicative identity.
    pub fn one() -> (r: FieldElement)
        ensures
            r@ == 1,
    {
        FieldElement::from_u64(1)
    }

    /// The four limbs of the canonical representative, least significant
    /// first.
    pub fn to_limbs(&self) -> (r: [u64; 4])
        ensures
            r@ == self.spec_limbs(),
            limbs_value(r@) == self@,
            self@ < modulus(),
    {
        proof {
            use_type_invariant(self);
        }
        self.limbs
    }
}

} // verus!
