//! The configuration of a Poseidon sponge: round counts, S-box exponent,
//! round constants, diffusion matrix, and the split of the state into rate
//! and capacity.

use crate::field::exponent_is_coprime;
use crate::field::gcd;
use crate::field::group_order;
use crate::field::FieldElement;
use vstd::prelude::*;

verus! {

/// A sponge configuration as mathematics: every field element stands as its
/// canonical representative.
pub struct SpongeConfigView {
    pub full_rounds: nat,
    pub partial_rounds: nat,
    pub alpha: nat,
    pub ark: Seq<Seq<nat>>,
    pub mds: Seq<Seq<nat>>,
    pub rate: nat,
    pub capacity: nat,
}

impl SpongeConfigView {
    /// The number of field elements in the permutation's state.
    pub open spec fn width(self) -> nat {
        self.rate + self.capacity
    }

    /// The configuration describes a sponge that can run: the rate is not
    /// zero, the sizes fit the machine, the exponent is coprime with the
    /// order of the field's multiplicative group, there is one vector of
    /// round constants for each round, and the constants and the matrix have
    /// the state's width.
    pub open spec fn wf(self) -> bool {
        &&& 1 <= self.rate
        &&& self.width() <= usize::MAX
        &&& self.full_rounds + self.partial_rounds <= usize::MAX
        &&& gcd(group_order(), self.alpha) == 1
        &&& rows_have_width(self.ark, self.full_rounds + self.partial_rounds, self.width())
        &&& rows_have_width(self.mds, self.width(), self.width())
    }
}

/// `table` has `rows` rows, each of `width` entries.
pub open spec fn rows_have_width<T>(table: Seq<Seq<T>>, rows: nat, width: nat) -> bool {
    &&& table.len() == rows
    &&& forall|i: int| 0 <= i < table.len() ==> (#[trigger] table[i]).len() == width
}

/// The canonical representatives of a vector of field elements.
pub open spec fn elements_view(elements: Seq<FieldElement>) -> Seq<nat> {
    elements.map_values(|e: FieldElement| e@)
}

/// The canonical representatives of a table of field elements.
pub open spec fn table_view(table: Seq<Vec<FieldElement>>) -> Seq<Seq<nat>> {
    table.map_values(|row: Vec<FieldElement>| elements_view(row@))
}

/// Why a set of parameters is not a sponge configuration.
#[derive(Clone, Copy, Debug, PartialEq, Eq)]
pub enum ConfigError {
    /// The rate is zero: such a sponge could take nothing in and give nothing out.
    ZeroRate,
    /// Rate plus capacity, or the total number of rounds, exceeds the machine's range.
    TooLarge,
    /// The exponent shares a factor with the order of the field's
    /// multiplicative group, so raising to it is no permutation.
    Exponent,
    /// The round constants are not one vector of the state's width per round.
    RoundConstantShape,
    /// The diffusion matrix is not square of the state's width.
    MatrixShape,
}

/// The first reason, in the order of `ConfigError`, for which the parameters
/// are refused; `None` where they are accepted.
pub open spec fn config_defect(
    full_rounds: nat,
    partial_rounds: nat,
    alpha: nat,
    mds: Seq<Seq<nat>>,
    ark: Seq<Seq<nat>>,
    rate: nat,
    capacity: nat,
) -> Option<ConfigError> {
    if rate == 0 {
        Some(ConfigError::ZeroRate)
    } else if rate + capacity > usize::MAX || full_rounds + partial_rounds > usize::MAX {
        Some(ConfigError::TooLarge)
    } else if gcd(group_order(), alpha) != 1 {
        Some(ConfigError::Exponent)
    } else if !rows_have_width(ark, full_rounds + partial_rounds, rate + capacity) {
        Some(ConfigError::RoundConstantShape)
    } else if !rows_have_width(mds, rate + capacity, rate + capacity) {
        Some(ConfigError::MatrixShape)
    } else {
        None
    }
}

/// Whether the table has `rows` rows of `width` entries each.
fn table_has_shape(table: &Vec<Vec<FieldElement>>, rows: usize, width: usize) -> (ok: bool)
    ensures
        ok == rows_have_width(table_view(table@), rows as nat, width as nat),
{
    if table.len() != rows {
        return false;
    }
    let mut i: usize = 0;
    while i < table.len()
        invariant
            i <= table.len(),
            forall|k: int| 0 <= k < i ==> (#[trigger] table_view(table@)[k]).len() == width,
        decreases table.len() - i,
    {
        if table[i].len() != width {
            assert(table_view(table@)[i as int].len() != width);
            return false;
        }
        i += 1;
    }
    true
}

/// A copy of a vector of field elements.
fn copy_elements(elements: &Vec<FieldElement>) -> (r: Vec<FieldElement>)
    ensures
        r@ == elements@,
{
    let mut copy: Vec<FieldElement> = Vec::new();
    let mut i: usize = 0;
    while i < elements.len()
        invariant
            i <= elements.len(),
            copy@ == elements@.take(i as int),
        decreases elements.len() - i,
    {
        copy.push(elements[i]);
        assert(elements@.take(i as int).push(elements@[i as int]) == elements@.take(i + 1));
        i += 1;
    }
    assert(elements@.take(elements.len() as int) == elements@);
    copy
}

/// A copy of a table of field elements.
fn copy_table(table: &Vec<Vec<FieldElement>>) -> (r: Vec<Vec<FieldElement>>)
    ensures
        table_view(r@) == table_view(table@),
{
    let mut copy: Vec<Vec<FieldElement>> = Vec::new();
    let mut i: usize = 0;
    while i < table.len()
        invariant
            i <= table.len(),
            table_view(copy@) == table_view(table@).take(i as int),
        decreases table.len() - i,
    {
        let ghost before = copy@;
        copy.push(copy_elements(&table[i]));
        assert(table_view(copy@) == table_view(table@).take(i + 1)) by {
            assert(table_view(copy@) =~= table_view(before).push(elements_view(table@[i as int]@)));
            assert(table_view(table@).take(i + 1) =~= table_view(table@).take(i as int).push(
                elements_view(table@[i as int]@),
            ));
        }
        i += 1;
    }
    assert(table_view(table@).take(table.len() as int) == table_view(table@));
    copy
}

/// A Poseidon sponge configuration. Once made it does not change.
#[derive(Debug)]
pub struct SpongeConfig {
    pub(crate) full_rounds: usize,
    pub(crate) partial_rounds: usize,
    pub(crate) alpha: u64,
    pub(crate) ark: Vec<Vec<FieldElement>>,
    pub(crate) mds: Vec<Vec<FieldElement>>,
    pub(crate) rate: usize,
    pub(crate) capacity: usize,
}

impl View for SpongeConfig {
    type V = SpongeConfigView;

    closed spec fn view(&self) -> SpongeConfigView {
        SpongeConfigView {
            full_rounds: self.full_rounds as nat,
            partial_rounds: self.partial_rounds as nat,
            alpha: self.alpha as nat,
            ark: table_view(self.ark@),
            mds: table_view(self.mds@),
            rate: self.rate as nat,
            capacity: self.capacity as nat,
        }
    }
}

impl Clone for SpongeConfig {
    fn clone(&self) -> (r: Self)
        ensures
            r@ == self@,
    {
        proof {
            use_type_invariant(self);
        }
        SpongeConfig {
            full_rounds: self.full_rounds,
            partial_rounds: self.partial_rounds,
            alpha: self.alpha,
            ark: copy_table(&self.ark),
            mds: copy_table(&self.mds),
            rate: self.rate,
            capacity: self.capacity,
        }
    }
}

impl SpongeConfig {
    /// Every configuration is well formed.
    #[verifier::type_invariant]
    pub open spec fn inv(self) -> bool {
        self@.wf()
    }

    /// Checks the parameters and makes a configuration of them. The arguments
    /// come in the order full rounds, partial rounds, exponent, matrix, round
    /// constants, rate, capacity.
    pub fn new(
        full_rounds: usize,
        partial_rounds: usize,
        alpha: u64,
        mds: Vec<Vec<FieldElement>>,
        ark: Vec<Vec<FieldElement>>,
        rate: usize,
        capacity: usize,
    ) -> (r: Result<SpongeConfig, ConfigError>)
        ensures
            match config_defect(
                full_rounds as nat,
                partial_rounds as nat,
                alpha as nat,
                table_view(mds@),
                table_view(ark@),
                rate as nat,
                capacity as nat,
            ) {
                Some(e) => r == Err::<SpongeConfig, ConfigError>(e),
                None => r is Ok && r->Ok_0@ == (SpongeConfigView {
                    full_rounds: full_rounds as nat,
                    partial_rounds: partial_rounds as nat,
                    alpha: alpha as nat,
                    ark: table_view(ark@),
                    mds: table_view(mds@),
                    rate: rate as nat,
                    capacity: capacity as nat,
                }) && r->Ok_0@.wf(),
            },
    {
        if rate == 0 {
            return Err(ConfigError::ZeroRate);
        }
        if capacity > usize::MAX - rate || partial_rounds > usize::MAX - full_rounds {
            return Err(ConfigError::TooLarge);
        }
        if !exponent_is_coprime(alpha) {
            return Err(ConfigError::Exponent);
        }
        let width = rate + capacity;
        if !table_has_shape(&ark, full_rounds + partial_rounds, width) {
            return Err(ConfigError::RoundConstantShape);
        }
        if !table_has_shape(&mds, width, width) {
            return Err(ConfigError::MatrixShape);
        }
        Ok(SpongeConfig { full_rounds, partial_rounds, alpha, ark, mds, rate, capacity })
    }

    /// The number of rounds that apply the S-box to the whole state.
    pub fn full_rounds(&self) -> (r: usize)
        ensures
            r == self@.full_rounds,
    {
        self.full_rounds
    }

    /// The number of rounds that apply the S-box to the first element only.
    pub fn partial_rounds(&self) -> (r: usize)
        ensures
            r == self@.partial_rounds,
    {
        self.partial_rounds
    }

    /// The exponent of the S-box.
    pub fn alpha(&self) -> (r: u64)
        ensures
            r == self@.alpha,
    {
        self.alpha
    }

    /// The round constants, one vector per round.
    pub fn ark(&self) -> (r: &Vec<Vec<FieldElement>>)
        ensures
            table_view(r@) == self@.ark,
    {
        &self.ark
    }

    /// The diffusion matrix, row by row.
    pub fn mds(&self) -> (r: &Vec<Vec<FieldElement>>)
        ensures
            table_view(r@) == self@.mds,
    {
        &self.mds
    }

    /// The number of state elements that take input and give output.
    pub fn rate(&self) -> (r: usize)
        ensures
            r == self@.rate,
            1 <= r,
            self@.wf(),
    {
        proof {
            use_type_invariant(self);
        }
        self.rate
    }

    /// The number of state elements held back.
    pub fn capacity(&self) -> (r: usize)
        ensures
            r == self@.capacity,
            self@.rate + r <= usize::MAX,
    {
        proof {
            use_type_invariant(self);
        }
        self.capacity
    }
}

} // verus!
