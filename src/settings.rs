//! The configuration of one calculation and the escape probability it gives.

use vstd::prelude::*;
use crate::math::{
    binomial_coefficient, binomial_pmf, clamp, clamp_spec, lemma_power_base_le, lemma_power_hundred_bound, pmf_numerator,
    power, power_u128, Probability,
};
use crate::tier::{decrement_tier, increment_tier, next_tier, prev_tier, Tier};

verus! {

/// The chance of one escape attempt without any bonus, in hundredths.
pub const BASE_ESCAPE_CHANCE: u8 = 4;

/// The number of escape attempts without Slippery Meat.
pub const BASE_NUM_TRIES: u8 = 3;

/// The attempts that Slippery Meat adds, whatever its tier.
pub const SLIPPERY_MEAT_EXTRA_TRIES: u8 = 3;

/// What one Salty Lips adds to the chance of an attempt, in hundredths.
pub const SALTY_LIPS_BONUS: u8 = 3;

/// What Slippery Meat adds to the chance of an attempt, in hundredths.
pub open spec fn slippery_meat_bonus(t: Option<Tier>) -> nat {
    match t {
        None => 0,
        Some(Tier::I) => 2,
        Some(Tier::II) => 3,
        Some(Tier::III) => 4,
    }
}

/// What one Up the Ante adds to the chance of an attempt, in hundredths,
/// for each survivor alive beside the one on the hook.
pub open spec fn up_the_ante_bonus(t: Option<Tier>) -> nat {
    match t {
        None => 0,
        Some(Tier::I) => 1,
        Some(Tier::II) => 2,
        Some(Tier::III) => 3,
    }
}

/// The sum of `up_the_ante_bonus` over the slots.
pub open spec fn up_the_ante_bonus_sum(slots: Seq<Option<Tier>>) -> nat
    decreases slots.len(),
{
    if slots.len() == 0 {
        0
    } else {
        up_the_ante_bonus_sum(slots.drop_last()) + up_the_ante_bonus(slots.last())
    }
}

/// The perks and counts that decide the chance of escaping the hook.
///
/// Every value of the fields is accepted: the counts are clamped to their
/// valid ranges where they enter the calculation.
#[derive(Debug)]
pub struct HookEscapeChanceSettings {
    /// The hooked survivor's Slippery Meat
    pub slippery_meat: Option<Tier>,
    /// Each survivor's Up the Ante
    pub up_the_ante: [Option<Tier>; 4],
    /// The number of Salty Lips, valid from 0 to 4
    pub num_salty_lips: u8,
    /// The number of survivors alive, valid from 1 to 4
    pub num_alive_survivors: u8,
}

impl HookEscapeChanceSettings {
    /// No perks, no Salty Lips and four survivors alive.
    pub open spec fn spec_is_initial(&self) -> bool {
        &&& self.slippery_meat is None
        &&& self.up_the_ante@ == seq![None::<Tier>, None, None, None]
        &&& self.num_salty_lips == 0
        &&& self.num_alive_survivors == 4
    }

    /// The survivors alive beside the hooked one, from 0 to 3.
    pub open spec fn spec_survivor_multiplier(&self) -> nat {
        (clamp_spec(self.num_alive_survivors as int, 1, 4) - 1) as nat
    }

    /// The chance of one escape attempt, in hundredths.
    pub open spec fn spec_escape_chance(&self) -> nat {
        (BASE_ESCAPE_CHANCE + slippery_meat_bonus(self.slippery_meat) + up_the_ante_bonus_sum(
            self.up_the_ante@,
        ) * self.spec_survivor_multiplier() + SALTY_LIPS_BONUS * clamp_spec(
            self.num_salty_lips as int,
            0,
            4,
        )) as nat
    }

    /// The number of escape attempts.
    pub open spec fn spec_num_tries(&self) -> nat {
        if self.slippery_meat is Some {
            (BASE_NUM_TRIES + SLIPPERY_MEAT_EXTRA_TRIES) as nat
        } else {
            BASE_NUM_TRIES as nat
        }
    }

    /// `self` and `other` hold the same Salty Lips and survivor counts.
    pub open spec fn spec_same_counts(&self, other: &Self) -> bool {
        &&& self.num_salty_lips == other.num_salty_lips
        &&& self.num_alive_survivors == other.num_alive_survivors
    }

    /// Settings with no perks, no Salty Lips and four survivors alive.
    pub fn new() -> (r: Self)
        ensures
            r.spec_is_initial(),
    {
        let r = Self {
            slippery_meat: None,
            up_the_ante: [None, None, None, None],
            num_salty_lips: 0,
            num_alive_survivors: 4,
        };
        assert(r.up_the_ante@ =~= seq![None::<Tier>, None, None, None]);
        r
    }

    /// The survivors alive beside the hooked one, that each Up the Ante
    /// counts: the number alive clamped to 1..=4, less one.
    pub fn survivor_multiplier(&self) -> (r: u8)
        ensures
            r == self.spec_survivor_multiplier(),
            r <= 3,
    {
        clamp(self.num_alive_survivors, 1, 4) - 1
    }

    /// The chance of one escape attempt, in hundredths.
    pub fn escape_chance(&self) -> (r: u8)
        ensures
            r == self.spec_escape_chance(),
            r <= 56,
    {
        let mut chance: u8 = BASE_ESCAPE_CHANCE;
        chance = chance + match self.slippery_meat {
            None => 0,
            Some(Tier::I) => 2,
            Some(Tier::II) => 3,
            Some(Tier::III) => 4,
        };
        let multiplier = self.survivor_multiplier();
        let mut units: u8 = 0;
        let mut i: usize = 0;
        while i < 4
            invariant
                i <= 4,
                self.up_the_ante@.len() == 4,
                units == up_the_ante_bonus_sum(self.up_the_ante@.subrange(0, i as int)),
                units <= 3 * i,
            decreases 4 - i,
        {
            assert(self.up_the_ante@.subrange(0, i + 1).drop_last() =~= self.up_the_ante@.subrange(
                0,
                i as int,
            ));
            units = units + match self.up_the_ante[i] {
                None => 0,
                Some(Tier::I) => 1,
                Some(Tier::II) => 2,
                Some(Tier::III) => 3,
            };
            i = i + 1;
        }
        assert(self.up_the_ante@.subrange(0, 4) =~= self.up_the_ante@);
        assert(units * multiplier <= 36) by (nonlinear_arith)
            requires
                units <= 12,
                multiplier <= 3,
        ;
        chance = chance + units * multiplier;
        chance = chance + SALTY_LIPS_BONUS * clamp(self.num_salty_lips, 0, 4);
        chance
    }

    /// The number of escape attempts: three, and three more with Slippery Meat.
    pub fn num_tries(&self) -> (r: u8)
        ensures
            r == self.spec_num_tries(),
            3 <= r <= 6,
    {
        let mut tries: u8 = BASE_NUM_TRIES;
        if self.slippery_meat.is_some() {
            tries = tries + SLIPPERY_MEAT_EXTRA_TRIES;
        }
        tries
    }

    /// The probability of at least one successful attempt, exactly: one
    /// less the binomial probability that every attempt fails, over
    /// `100^n` for `n` attempts.
    pub fn calculate(&self) -> (r: Probability)
        ensures
            r.denominator == power(100, self.spec_num_tries()),
            r.numerator == power(100, self.spec_num_tries()) - pmf_numerator(
                self.spec_num_tries(),
                0,
                self.spec_escape_chance(),
            ),
            r.numerator == power(100, self.spec_num_tries()) - power(
                (100 - self.spec_escape_chance()) as nat,
                self.spec_num_tries(),
            ),
            r.numerator <= r.denominator,
    {
        let chance = self.escape_chance();
        let tries = self.num_tries();
        let denominator = power_u128(100, tries);
        let failure = binomial_pmf(tries, 0, chance);
        proof {
            let n = tries as nat;
            let c = chance as nat;
            lemma_power_base_le((100 - c) as nat, 100, n);
            assert(binomial_coefficient(n, 0) == 1);
            assert(power(c, 0) == 1);
            assert((n - 0) as nat == n);
            let a = binomial_coefficient(n, 0);
            let b = power(c, 0);
            let x = power((100 - c) as nat, n);
            assert(pmf_numerator(n, 0, c) == a * b * x);
            assert(a * b * x == x) by (nonlinear_arith)
                requires
                    a == 1,
                    b == 1,
            ;
        }
        Probability { numerator: denominator - failure, denominator }
    }

    /// Raises Slippery Meat one tier, staying at III.
    pub fn increment_slippery_meat_tier(&mut self)
        ensures
            final(self).slippery_meat == next_tier(old(self).slippery_meat),
            final(self).up_the_ante@ == old(self).up_the_ante@,
            final(self).spec_same_counts(old(self)),
    {
        self.slippery_meat = increment_tier(self.slippery_meat);
    }

    /// Lowers Slippery Meat one tier; below I it is removed.
    pub fn decrement_slippery_meat_tier(&mut self)
        ensures
            final(self).slippery_meat == prev_tier(old(self).slippery_meat),
            final(self).up_the_ante@ == old(self).up_the_ante@,
            final(self).spec_same_counts(old(self)),
    {
        self.slippery_meat = decrement_tier(self.slippery_meat);
    }

    /// Raises the Up the Ante of survivor `index` one tier, staying at III.
    /// An index past the last survivor changes nothing.
    pub fn increment_up_the_ante_tier(&mut self, index: u8)
        ensures
            index < 4 ==> final(self).up_the_ante@ == old(self).up_the_ante@.update(
                index as int,
                next_tier(old(self).up_the_ante@[index as int]),
            ),
            index >= 4 ==> final(self).up_the_ante@ == old(self).up_the_ante@,
            final(self).slippery_meat == old(self).slippery_meat,
            final(self).spec_same_counts(old(self)),
    {
        let i = index as usize;
        if i < 4 {
            self.up_the_ante[i] = increment_tier(self.up_the_ante[i]);
        }
    }

    /// Lowers the Up the Ante of survivor `index` one tier; below I it is
    /// removed. An index past the last survivor changes nothing.
    pub fn decrement_up_the_ante_tier(&mut self, index: u8)
        ensures
            index < 4 ==> final(self).up_the_ante@ == old(self).up_the_ante@.update(
                index as int,
                prev_tier(old(self).up_the_ante@[index as int]),
            ),
            index >= 4 ==> final(self).up_the_ante@ == old(self).up_the_ante@,
            final(self).slippery_meat == old(self).slippery_meat,
            final(self).spec_same_counts(old(self)),
    {
        let i = index as usize;
        if i < 4 {
            self.up_the_ante[i] = decrement_tier(self.up_the_ante[i]);
        }
    }

    /// Sets the number of Salty Lips; a number above 4 is ignored.
    pub fn set_num_salty_lips(&mut self, count: u8)
        ensures
            final(self).num_salty_lips == if count <= 4 {
                count
            } else {
                old(self).num_salty_lips
            },
            final(self).num_alive_survivors == old(self).num_alive_survivors,
            final(self).slippery_meat == old(self).slippery_meat,
            final(self).up_the_ante@ == old(self).up_the_ante@,
    {
        if count <= 4 {
            self.num_salty_lips = count;
        }
    }

    /// Sets the number of survivors alive; a number outside 1..=4 is ignored.
    pub fn set_num_alive_survivors(&mut self, count: u8)
        ensures
            final(self).num_alive_survivors == if 1 <= count <= 4 {
                count
            } else {
                old(self).num_alive_survivors
            },
            final(self).num_salty_lips == old(self).num_salty_lips,
            final(self).slippery_meat == old(self).slippery_meat,
            final(self).up_the_ante@ == old(self).up_the_ante@,
    {
        if 1 <= count && count <= 4 {
            self.num_alive_survivors = count;
        }
    }
}

impl Default for HookEscapeChanceSettings {
    fn default() -> (r: Self)
        ensures
            r.spec_is_initial(),
    {
        Self::new()
    }
}

/// However many survivors the settings claim to be alive, each Up the Ante
/// counts between zero and three of them: the number clamped to 1..=4, less one.
pub proof fn lemma_survivor_multiplier_range(s: HookEscapeChanceSettings)
    ensures
        s.spec_survivor_multiplier() <= 3,
        s.num_alive_survivors <= 1 ==> s.spec_survivor_multiplier() == 0,
        s.num_alive_survivors >= 4 ==> s.spec_survivor_multiplier() == 3,
        1 <= s.num_alive_survivors <= 4 ==> s.spec_survivor_multiplier()
            == s.num_alive_survivors - 1,
{
}

} // verus!
