//! Handles on the arkworks R1CS types that the constraint-system sponge works
//! with: the constraint system, a field variable in it, and the error that
//! synthesis can end with. The handles are made here and nowhere else, so a
//! system keeps the mode it was made in and every variable is one that this
//! library allocated.

use crate::field::FieldElement;
use ark_bn254::Fr;
use ark_ff::BigInt;
use ark_ff::PrimeField;
use ark_r1cs_std::alloc::AllocVar;
use ark_r1cs_std::fields::fp::FpVar;
use ark_r1cs_std::R1CSVar;
use ark_relations::r1cs::ConstraintSystem;
use ark_relations::r1cs::ConstraintSystemRef;
use ark_relations::r1cs::SynthesisError;
use ark_relations::r1cs::SynthesisMode;
use vstd::prelude::*;

verus! {

/// `ark_relations::r1cs::SynthesisError`, carried through as it comes.
#[verifier::external_type_specification]
#[verifier::external_body]
pub struct ExSynthesisError(SynthesisError);

/// A shared reference to an arkworks constraint system over the BN254 scalar
/// field, or to none. Two handles are equal where they refer to the same
/// system.
#[verifier::external_body]
pub struct ConstraintSystemHandle {
    pub(crate) inner: ConstraintSystemRef<Fr>,
}

/// A field element inside a constraint system: a constant or an allocated
/// variable.
#[verifier::external_body]
pub struct FieldVar {
    pub(crate) inner: FpVar<Fr>,
}

/// Whether the handle holds no constraint system: what
/// `ConstraintSystemRef::is_none` says of the reference inside.
pub uninterp spec fn system_missing(cs: ConstraintSystemHandle) -> bool;

/// Whether the system behind the handle is in setup mode, in which variables
/// get no values: what `ConstraintSystemRef::is_in_setup_mode` says of the
/// reference inside. A system keeps its mode, since nothing outside this
/// library holds it.
pub uninterp spec fn system_in_setup(cs: ConstraintSystemHandle) -> bool;

/// The system that the variable was allocated in, none for a constant: what
/// `R1CSVar::cs` gives for the variable.
pub uninterp spec fn var_system(variable: FieldVar) -> ConstraintSystemHandle;

/// The value that the variable carries, as its canonical representative; none
/// where it was allocated, or computed, in a system in setup mode.
pub uninterp spec fn var_value(variable: FieldVar) -> Option<nat>;

/// Whether the error is the one for a missing constraint system,
/// `SynthesisError::MissingCS`.
pub uninterp spec fn is_missing_system(error: SynthesisError) -> bool;

/// The variable is a constant or belongs to the system.
pub open spec fn belongs_to(variable: FieldVar, cs: ConstraintSystemHandle) -> bool {
    system_missing(var_system(variable)) || var_system(variable) == cs
}

/// Every one of the variables is a constant or belongs to the system.
pub open spec fn all_belong_to(variables: Seq<FieldVar>, cs: ConstraintSystemHandle) -> bool {
    forall|i: int| 0 <= i < variables.len() ==> belongs_to(#[trigger] variables[i], cs)
}

/// Every one of the variables carries a value.
pub open spec fn all_carry_values(variables: Seq<FieldVar>) -> bool {
    forall|i: int| 0 <= i < variables.len() ==> var_value(#[trigger] variables[i]) is Some
}

/// The values that the variables carry; where one carries none, an arbitrary
/// number stands for it.
pub open spec fn values_of(variables: Seq<FieldVar>) -> Seq<nat> {
    variables.map_values(|v: FieldVar| var_value(v).unwrap())
}

/// Calls `ConstraintSystem::new_ref`.
///
/// Trusted: the handle holds a system, which is not in setup mode.
#[verifier::external_body]
fn fresh_system() -> (r: ConstraintSystemHandle)
    ensures
        !system_missing(r),
        !system_in_setup(r),
{
    ConstraintSystemHandle { inner: ConstraintSystem::new_ref() }
}

/// Calls `ConstraintSystem::new_ref` and `ConstraintSystemRef::set_mode` with
/// the setup mode.
///
/// Trusted: the handle holds a system, which is in setup mode.
#[verifier::external_body]
fn fresh_setup_system() -> (r: ConstraintSystemHandle)
    ensures
        !system_missing(r),
        system_in_setup(r),
{
    let inner = ConstraintSystem::new_ref();
    inner.set_mode(SynthesisMode::Setup);
    ConstraintSystemHandle { inner }
}

/// Gives `ConstraintSystemRef::None`.
///
/// Trusted: the handle holds no system, and so none in setup mode.
#[verifier::external_body]
fn no_system() -> (r: ConstraintSystemHandle)
    ensures
        system_missing(r),
        !system_in_setup(r),
{
    ConstraintSystemHandle { inner: ConstraintSystemRef::None }
}

/// Calls `Clone::clone` of the reference.
///
/// Trusted: the copy refers to the same system.
#[verifier::external_body]
fn same_system(cs: &ConstraintSystemHandle) -> (r: ConstraintSystemHandle)
    ensures
        r == *cs,
{
    ConstraintSystemHandle { inner: cs.inner.clone() }
}

/// Calls `ConstraintSystemRef::is_satisfied`.
///
/// Trusted: nothing is claimed; the answer depends on all that was put into
/// the system.
#[verifier::external_body]
fn system_is_satisfied(cs: &ConstraintSystemHandle) -> (r: Result<bool, SynthesisError>) {
    cs.inner.is_satisfied()
}

/// Calls `ConstraintSystemRef::num_constraints`, `num_instance_variables` and
/// `num_witness_variables`.
///
/// Trusted: nothing is claimed; the counts depend on all that was put into
/// the system.
#[verifier::external_body]
fn system_counts(cs: &ConstraintSystemHandle) -> (r: (usize, usize, usize)) {
    (cs.inner.num_constraints(), cs.inner.num_instance_variables(), cs.inner.num_witness_variables())
}

/// Makes `FpVar::Constant` of the element.
///
/// Trusted: the variable belongs to no system and carries the element.
#[verifier::external_body]
fn constant_var(value: &FieldElement) -> (r: FieldVar)
    ensures
        system_missing(var_system(r)),
        var_value(r) == Some(value@),
{
    FieldVar { inner: FpVar::Constant(Fr::from(BigInt(value.limbs))) }
}

/// Calls `AllocVar::new_witness` of `FpVar` with the element as the value to
/// assign.
///
/// Trusted: the call fails where the handle holds no constraint system, and
/// there only, with the error for a missing system: the value to assign is
/// at hand, so the system has nothing else to refuse. The variable belongs
/// to the system and carries the element, or nothing where the system is in
/// setup mode.
#[verifier::external_body]
fn witness_var(cs: &ConstraintSystemHandle, value: &FieldElement) -> (r: Result<
    FieldVar,
    SynthesisError,
>)
    ensures
        r is Ok <==> !system_missing(*cs),
        r is Err ==> is_missing_system(r->Err_0),
        r is Ok ==> var_system(r->Ok_0) == *cs,
        r is Ok ==> var_value(r->Ok_0) == if system_in_setup(*cs) {
            None::<nat>
        } else {
            Some(value@)
        },
{
    let value = Fr::from(BigInt(value.limbs));
    FpVar::new_witness(cs.inner.clone(), || Ok(value)).map(|inner| FieldVar { inner })
}

/// Calls `AllocVar::new_input` of `FpVar` with the element as the value to
/// assign.
///
/// Trusted: as for `witness_var`.
#[verifier::external_body]
fn input_var(cs: &ConstraintSystemHandle, value: &FieldElement) -> (r: Result<
    FieldVar,
    SynthesisError,
>)
    ensures
        r is Ok <==> !system_missing(*cs),
        r is Err ==> is_missing_system(r->Err_0),
        r is Ok ==> var_system(r->Ok_0) == *cs,
        r is Ok ==> var_value(r->Ok_0) == if system_in_setup(*cs) {
            None::<nat>
        } else {
            Some(value@)
        },
{
    let value = Fr::from(BigInt(value.limbs));
    FpVar::new_input(cs.inner.clone(), || Ok(value)).map(|inner| FieldVar { inner })
}

/// Calls `R1CSVar::value` of the variable, which reads the assignment out of
/// the variable's system.
///
/// Trusted: where an assignment is read, it is the value that the variable
/// carries.
#[verifier::external_body]
fn assigned_value(variable: &FieldVar) -> (r: Option<FieldElement>)
    ensures
        r is Some ==> var_value(*variable) == Some(r->0@),
{
    variable.inner.value().ok().map(|f| FieldElement { limbs: f.into_bigint().0 })
}

impl ConstraintSystemHandle {
    /// A handle on a fresh constraint system that takes assignments.
    pub fn new_ref() -> (r: Self)
        ensures
            !system_missing(r),
            !system_in_setup(r),
    {
        fresh_system()
    }

    /// A handle on a fresh constraint system in setup mode, which records the
    /// shape of a statement and takes no assignments.
    pub fn new_setup() -> (r: Self)
        ensures
            !system_missing(r),
            system_in_setup(r),
    {
        fresh_setup_system()
    }

    /// A handle that holds no constraint system: only constants can live
    /// with it.
    pub fn none() -> (r: Self)
        ensures
            system_missing(r),
            !system_in_setup(r),
    {
        no_system()
    }

    /// Another handle on the same system.
    pub fn share(&self) -> (r: Self)
        ensures
            r == *self,
    {
        same_system(self)
    }

    /// Whether the assignment in the system satisfies all its constraints;
    /// an error where the system holds no assignment.
    pub fn is_satisfied(&self) -> (r: Result<bool, SynthesisError>) {
        system_is_satisfied(self)
    }

    /// The number of constraints in the system.
    pub fn num_constraints(&self) -> (r: usize) {
        system_counts(self).0
    }

    /// The number of public inputs of the system, the constant one among
    /// them.
    pub fn num_instance_variables(&self) -> (r: usize) {
        system_counts(self).1
    }

    /// The number of private witnesses of the system.
    pub fn num_witness_variables(&self) -> (r: usize) {
        system_counts(self).2
    }
}

impl FieldVar {
    /// The constant variable of the element.
    pub fn constant(value: &FieldElement) -> (r: FieldVar)
        ensures
            system_missing(var_system(r)),
            var_value(r) == Some(value@),
    {
        constant_var(value)
    }

    /// A private witness of the system with the element as its value.
    /// Succeeds where the handle holds a system, and there only.
    pub fn new_witness(cs: &ConstraintSystemHandle, value: &FieldElement) -> (r: Result<
        FieldVar,
        SynthesisError,
    >)
        ensures
            r is Ok <==> !system_missing(*cs),
            r is Err ==> is_missing_system(r->Err_0),
            r is Ok ==> var_system(r->Ok_0) == *cs,
            r is Ok ==> var_value(r->Ok_0) == if system_in_setup(*cs) {
                None::<nat>
            } else {
                Some(value@)
            },
    {
        witness_var(cs, value)
    }

    /// A public input of the system with the element as its value. Succeeds
    /// where the handle holds a system, and there only.
    pub fn new_input(cs: &ConstraintSystemHandle, value: &FieldElement) -> (r: Result<
        FieldVar,
        SynthesisError,
    >)
        ensures
            r is Ok <==> !system_missing(*cs),
            r is Err ==> is_missing_system(r->Err_0),
            r is Ok ==> var_system(r->Ok_0) == *cs,
            r is Ok ==> var_value(r->Ok_0) == if system_in_setup(*cs) {
                None::<nat>
            } else {
                Some(value@)
            },
    {
        input_var(cs, value)
    }

    /// The value assigned to the variable in its system, if one is.
    pub fn value(&self) -> (r: Option<FieldElement>)
        ensures
            r is Some ==> var_value(*self) == Some(r->0@),
    {
        assigned_value(self)
    }
}

} // verus!
