//! The duplex sponge protocol as mathematics: what a sponge holds, how its
//! cursor moves when it absorbs and squeezes, and what a run of absorptions
//! amounts to.

use crate::config::SpongeConfigView;
use crate::field::modulus;
use vstd::prelude::*;

verus! {

/// Whether a sponge is taking input or giving output, with the place in the
/// rate part of the state where the next element goes or comes from.
#[derive(Clone, Copy, Debug, PartialEq, Eq, Structural)]
pub enum SpongeMode {
    Absorbing { next_absorb_index: usize },
    Squeezing { next_squeeze_index: usize },
}

impl SpongeMode {
    /// The cursor, whichever way the sponge runs.
    pub open spec fn cursor(self) -> nat {
        match self {
            SpongeMode::Absorbing { next_absorb_index } => next_absorb_index as nat,
            SpongeMode::Squeezing { next_squeeze_index } => next_squeeze_index as nat,
        }
    }

    /// The place where the next absorbed element is added: the cursor, or the
    /// start of the rate part after a full block or after squeezing.
    pub open spec fn absorb_start(self, rate: nat) -> nat {
        match self {
            SpongeMode::Absorbing { next_absorb_index } => if next_absorb_index == rate {
                0
            } else {
                next_absorb_index as nat
            },
            SpongeMode::Squeezing { .. } => 0,
        }
    }

    /// The place from which the next squeezed element is read: the cursor, or
    /// the start of the rate part after a full block or after absorbing.
    pub open spec fn squeeze_start(self, rate: nat) -> nat {
        match self {
            SpongeMode::Absorbing { .. } => 0,
            SpongeMode::Squeezing { next_squeeze_index } => if next_squeeze_index == rate {
                0
            } else {
                next_squeeze_index as nat
            },
        }
    }

    /// The mode after one element was absorbed.
    pub open spec fn after_absorb(self, rate: nat) -> SpongeMode {
        SpongeMode::Absorbing { next_absorb_index: (self.absorb_start(rate) + 1) as usize }
    }

    /// The mode after `count` elements were absorbed one by one.
    pub open spec fn after_absorbing(self, rate: nat, count: nat) -> SpongeMode
        decreases count,
    {
        if count == 0 {
            self
        } else {
            self.after_absorbing(rate, (count - 1) as nat).after_absorb(rate)
        }
    }

    /// Whether absorbing the next element runs the permutation first: the
    /// sponge absorbs and its rate part is full.
    pub open spec fn absorb_permutes(self, rate: nat) -> bool {
        match self {
            SpongeMode::Absorbing { next_absorb_index } => next_absorb_index == rate,
            SpongeMode::Squeezing { .. } => false,
        }
    }

    /// Whether squeezing the next element runs the permutation first: the
    /// sponge absorbs, or all of its rate part was squeezed.
    pub open spec fn squeeze_permutes(self, rate: nat) -> bool {
        match self {
            SpongeMode::Absorbing { .. } => true,
            SpongeMode::Squeezing { next_squeeze_index } => next_squeeze_index == rate,
        }
    }

    /// The mode after one element was squeezed.
    pub open spec fn after_squeeze(self, rate: nat) -> SpongeMode {
        SpongeMode::Squeezing { next_squeeze_index: (self.squeeze_start(rate) + 1) as usize }
    }

    /// The mode after `count` elements were squeezed one by one.
    pub open spec fn after_squeezing(self, rate: nat, count: nat) -> SpongeMode
        decreases count,
    {
        if count == 0 {
            self
        } else {
            self.after_squeezing(rate, (count - 1) as nat).after_squeeze(rate)
        }
    }
}

/// The state that absorbing one field element leaves where the permutation
/// runs first, the rate part being full: the permuted state with the element
/// added to the first rate slot. The arguments are the configuration, the
/// state and the mode before, and the element, each field element as its
/// canonical representative. The permutation is the one of arkworks: half of
/// the full rounds, then the partial rounds, then the other half of the full
/// rounds, each round adding its constants, raising to the exponent and
/// multiplying by the matrix.
pub uninterp spec fn poseidon_absorb(
    config: SpongeConfigView,
    state: Seq<nat>,
    mode: SpongeMode,
    element: nat,
) -> Seq<nat>;

/// What squeezing `count` field elements gives where the permutation runs
/// first: the elements that come out, then the permuted state that is left.
/// The permutation is the one that `poseidon_absorb` speaks of.
pub uninterp spec fn poseidon_squeeze(
    config: SpongeConfigView,
    state: Seq<nat>,
    mode: SpongeMode,
    count: nat,
) -> (Seq<nat>, Seq<nat>);

/// A sponge as mathematics.
pub struct SpongeView {
    pub config: SpongeConfigView,
    pub state: Seq<nat>,
    pub mode: SpongeMode,
}

impl SpongeView {
    /// The state has the configuration's width and the cursor lies within the
    /// rate part or just behind it.
    pub open spec fn wf(self) -> bool {
        &&& self.config.wf()
        &&& self.state.len() == self.config.width()
        &&& self.mode.cursor() <= self.config.rate
    }

    /// The sponge before anything was absorbed: an all-zero state, absorbing
    /// at the start of the rate part.
    pub open spec fn initial(config: SpongeConfigView) -> SpongeView {
        SpongeView {
            config,
            state: Seq::new(config.width(), |i: int| 0nat),
            mode: SpongeMode::Absorbing { next_absorb_index: 0 },
        }
    }

    /// The place in the state where the next absorbed element is added.
    pub open spec fn absorb_slot(self) -> int {
        (self.config.capacity + self.mode.absorb_start(self.config.rate)) as int
    }

    /// The place in the state from which the next squeezed element is read.
    pub open spec fn squeeze_slot(self) -> int {
        (self.config.capacity + self.mode.squeeze_start(self.config.rate)) as int
    }

    /// The sponge after it absorbed one element. While the rate part has
    /// room the element is added to its slot and nothing else changes; once
    /// it is full the permutation runs first.
    pub open spec fn absorb(self, element: nat) -> SpongeView {
        SpongeView {
            config: self.config,
            state: if self.mode.absorb_permutes(self.config.rate) {
                poseidon_absorb(self.config, self.state, self.mode, element)
            } else {
                self.state.update(
                    self.absorb_slot(),
                    (self.state[self.absorb_slot()] + element) % modulus(),
                )
            },
            mode: self.mode.after_absorb(self.config.rate),
        }
    }

    /// The sponge after it absorbed the elements one by one, in order.
    pub open spec fn absorb_all(self, elements: Seq<nat>) -> SpongeView
        decreases elements.len(),
    {
        if elements.len() == 0 {
            self
        } else {
            self.absorb_all(elements.drop_last()).absorb(elements.last())
        }
    }

    /// The sponge after one element was squeezed. While the rate part has
    /// elements left the state stays; else the permutation runs first.
    pub open spec fn squeeze(self) -> SpongeView {
        SpongeView {
            config: self.config,
            state: if self.mode.squeeze_permutes(self.config.rate) {
                poseidon_squeeze(self.config, self.state, self.mode, 1).1
            } else {
                self.state
            },
            mode: self.mode.after_squeeze(self.config.rate),
        }
    }

    /// The element that the next squeeze gives: the one in the squeeze slot
    /// of the state that the squeeze leaves.
    pub open spec fn squeezed(self) -> nat {
        self.squeeze().state[self.squeeze_slot()]
    }

    /// The sponge after `count` elements were squeezed one by one.
    pub open spec fn squeezing(self, count: nat) -> SpongeView
        decreases count,
    {
        if count == 0 {
            self
        } else {
            self.squeezing((count - 1) as nat).squeeze()
        }
    }

    /// The elements that squeezing `count` times gives, in order.
    pub open spec fn squeeze_output(self, count: nat) -> Seq<nat> {
        Seq::new(count, |j: int| self.squeezing(j as nat).squeezed())
    }

    /// The digest of a sequence of field elements under a configuration: what
    /// a fresh sponge gives as the first element after absorbing them.
    pub open spec fn digest(config: SpongeConfigView, elements: Seq<nat>) -> nat {
        SpongeView::initial(config).absorb_all(elements).squeezed()
    }
}

/// After one absorption the cursor lies between 1 and the rate.
pub proof fn lemma_after_absorb_in_range(mode: SpongeMode, rate: nat)
    requires
        1 <= rate <= usize::MAX,
        mode.cursor() <= rate,
    ensures
        1 <= mode.after_absorb(rate).cursor() <= rate,
        mode.after_absorb(rate).cursor() == mode.absorb_start(rate) + 1,
{
}

/// After one squeeze the cursor lies between 1 and the rate.
pub proof fn lemma_after_squeeze_in_range(mode: SpongeMode, rate: nat)
    requires
        1 <= rate <= usize::MAX,
        mode.cursor() <= rate,
    ensures
        1 <= mode.after_squeeze(rate).cursor() <= rate,
        mode.after_squeeze(rate).cursor() == mode.squeeze_start(rate) + 1,
{
}

/// One step of a cursor that runs from 1 to `rate` and then starts over.
proof fn lemma_next_residue(x: int, rate: int)
    requires
        0 <= x,
        1 <= rate,
    ensures
        0 <= x % rate < rate,
        (x + 1) % rate == if x % rate == rate - 1 {
            0
        } else {
            x % rate + 1
        },
{
    let q = x / rate;
    let r = x % rate;
    assert(x == rate * q + r && 0 <= r < rate) by (nonlinear_arith)
        requires
            q == x / rate,
            r == x % rate,
            1 <= rate,
    ;
    assert(rate * (q + 1) == rate * q + rate) by (nonlinear_arith);
    if r == rate - 1 {
        assert((x + 1) % rate == 0) by (nonlinear_arith)
            requires
                x + 1 == rate * (q + 1),
                1 <= rate,
        ;
    } else {
        assert((x + 1) % rate == r + 1) by (nonlinear_arith)
            requires
                x + 1 == rate * q + (r + 1),
                0 <= r + 1 < rate,
        ;
    }
}

/// After `count` absorptions, `count` not zero, the sponge absorbs and its
/// cursor is the place of the last element, counted round the rate part from
/// where the first one went, plus one.
pub proof fn lemma_after_absorbing_cursor(mode: SpongeMode, rate: nat, count: nat)
    requires
        1 <= rate <= usize::MAX,
        mode.cursor() <= rate,
        count > 0,
    ensures
        mode.after_absorbing(rate, count) == (SpongeMode::Absorbing {
            next_absorb_index: ((mode.absorb_start(rate) + count - 1) % (rate as int) + 1) as usize,
        }),
        1 <= mode.after_absorbing(rate, count).cursor() <= rate,
    decreases count,
{
    let first = mode.absorb_start(rate) as int;
    if count == 1 {
        assert(mode.after_absorbing(rate, 0) == mode);
        assert(first % (rate as int) == first) by (nonlinear_arith)
            requires
                0 <= first < rate as int,
        ;
    } else {
        lemma_after_absorbing_cursor(mode, rate, (count - 1) as nat);
        lemma_next_residue(first + count - 2, rate as int);
    }
}

/// The mode of a sponge that absorbed `elements` depends on their number
/// alone and is the one that `after_absorbing` gives; the configuration
/// stays. A sponge inside a constraint system and one evaluated directly that
/// start in the same mode therefore stand in the same mode after taking in
/// equally many elements.
pub proof fn lemma_absorb_all_mode(sponge: SpongeView, elements: Seq<nat>)
    requires
        sponge.config.wf(),
        sponge.mode.cursor() <= sponge.config.rate,
    ensures
        sponge.absorb_all(elements).config == sponge.config,
        sponge.absorb_all(elements).mode == sponge.mode.after_absorbing(
            sponge.config.rate,
            elements.len(),
        ),
        sponge.absorb_all(elements).mode.cursor() <= sponge.config.rate,
    decreases elements.len(),
{
    if elements.len() > 0 {
        lemma_absorb_all_mode(sponge, elements.drop_last());
        lemma_after_absorb_in_range(
            sponge.absorb_all(elements.drop_last()).mode,
            sponge.config.rate,
        );
    }
}

/// Absorbing a sequence in one run gives the sponge that absorbing a first
/// part and then the rest gives.
pub proof fn lemma_absorb_all_concat(sponge: SpongeView, first: Seq<nat>, rest: Seq<nat>)
    ensures
        sponge.absorb_all(first + rest) == sponge.absorb_all(first).absorb_all(rest),
    decreases rest.len(),
{
    if rest.len() == 0 {
        assert(first + rest =~= first);
    } else {
        lemma_absorb_all_concat(sponge, first, rest.drop_last());
        assert((first + rest).drop_last() =~= first + rest.drop_last());
        assert((first + rest).last() == rest.last());
    }
}

/// Two sponges that hold the same configuration, state and mode give the same
/// output after absorbing the same elements.
pub proof fn lemma_squeeze_deterministic(
    a: SpongeView,
    b: SpongeView,
    elements: Seq<nat>,
    count: nat,
)
    requires
        a.config == b.config,
        a.state == b.state,
        a.mode == b.mode,
    ensures
        a.absorb_all(elements).squeeze_output(count) == b.absorb_all(elements).squeeze_output(
            count,
        ),
        a.absorb_all(elements).squeezing(count) == b.absorb_all(elements).squeezing(count),
{
    assert(a == b);
}

/// While the rate part has room, an absorbed element is added to its slot,
/// the other elements stay, and the cursor moves on by one. After squeezing
/// the slot is the first of the rate part.
pub proof fn lemma_absorb_below_rate(sponge: SpongeView, element: nat)
    requires
        sponge.wf(),
        !sponge.mode.absorb_permutes(sponge.config.rate),
    ensures
        sponge.absorb(element).wf(),
        sponge.absorb(element).state[sponge.absorb_slot()] == (sponge.state[sponge.absorb_slot()]
            + element) % modulus(),
        forall|i: int|
            0 <= i < sponge.state.len() && i != sponge.absorb_slot() ==> sponge.absorb(
                element,
            ).state[i] == sponge.state[i],
        sponge.absorb(element).mode == (SpongeMode::Absorbing {
            next_absorb_index: (sponge.mode.absorb_start(sponge.config.rate) + 1) as usize,
        }),
        sponge.mode is Squeezing ==> sponge.absorb_slot() == sponge.config.capacity,
{
}

/// While the rate part has elements left, a squeeze reads the one under the
/// cursor and leaves the state; else it reads the first rate slot of the
/// permuted state.
pub proof fn lemma_squeeze_reads_rate_slot(sponge: SpongeView)
    requires
        sponge.wf(),
    ensures
        !sponge.mode.squeeze_permutes(sponge.config.rate) ==> sponge.squeeze().state
            == sponge.state && sponge.squeezed() == sponge.state[(sponge.config.capacity
            + sponge.mode.cursor()) as int],
        sponge.mode.squeeze_permutes(sponge.config.rate) ==> sponge.squeezed()
            == sponge.squeeze().state[sponge.config.capacity as int],
        sponge.squeeze().mode == (SpongeMode::Squeezing {
            next_squeeze_index: (sponge.mode.squeeze_start(sponge.config.rate) + 1) as usize,
        }),
{
}

/// Two elements absorbed by a fresh sponge of rate two or more stand, reduced
/// in the field, in the first two rate slots; the rest of the state is zero
/// and no permutation has run.
pub proof fn lemma_two_elements_on_a_fresh_sponge(config: SpongeConfigView, a: nat, b: nat)
    requires
        config.wf(),
        2 <= config.rate,
    ensures
        SpongeView::initial(config).absorb_all(seq![a, b]).mode == (SpongeMode::Absorbing {
            next_absorb_index: 2,
        }),
        SpongeView::initial(config).absorb_all(seq![a, b]).state == Seq::new(
            config.width(),
            |i: int|
                if i == config.capacity {
                    a % modulus()
                } else if i == config.capacity + 1 {
                    b % modulus()
                } else {
                    0nat
                },
        ),
{
    let fresh = SpongeView::initial(config);
    let one = fresh.absorb(a);
    assert(seq![a, b].drop_last() =~= seq![a]);
    assert(seq![a].drop_last() =~= Seq::<nat>::empty());
    assert(fresh.absorb_all(seq![a]) == fresh.absorb_all(Seq::<nat>::empty()).absorb(a));
    assert(fresh.absorb_all(Seq::<nat>::empty()) == fresh);
    assert(fresh.absorb_all(seq![a, b]) == one.absorb(b));
    assert(one.mode == SpongeMode::Absorbing { next_absorb_index: 1 });
    assert(one.absorb(b).state =~= Seq::new(
        config.width(),
        |i: int|
            if i == config.capacity {
                a % modulus()
            } else if i == config.capacity + 1 {
                b % modulus()
            } else {
                0nat
            },
    ));
}

/// Absorbing nothing leaves the sponge as it is, and so does squeezing
/// nothing.
pub proof fn lemma_nothing_is_a_no_op(sponge: SpongeView)
    ensures
        sponge.absorb_all(Seq::<nat>::empty()) == sponge,
        sponge.squeezing(0) == sponge,
        sponge.squeeze_output(0) == Seq::<nat>::empty(),
{
    assert(sponge.squeeze_output(0) =~= Seq::<nat>::empty());
}

/// The first of several squeezed elements is the one that a single squeeze
/// gives, and the rest are what the sponge left by it goes on to give.
pub proof fn lemma_squeezing_step(sponge: SpongeView, count: nat)
    ensures
        sponge.squeezing(count + 1) == sponge.squeeze().squeezing(count),
    decreases count,
{
    if count > 0 {
        lemma_squeezing_step(sponge, (count - 1) as nat);
    } else {
        assert(sponge.squeezing(1) == sponge.squeezing(0).squeeze());
    }
}

} // verus!
