//! Perk tiers and the saturating walk over them.

use vstd::prelude::*;

verus! {

/// A perk's upgrade level, in Roman numerals: `I < II < III`.
#[allow(clippy::upper_case_acronyms)]
#[derive(Debug, Copy, Clone, PartialEq, Eq, Structural, Hash)]
pub enum Tier {
    I,
    II,
    III,
}

/// One step up: absent -> I -> II -> III, staying at III.
pub open spec fn next_tier(t: Option<Tier>) -> Option<Tier> {
    match t {
        None => Some(Tier::I),
        Some(Tier::I) => Some(Tier::II),
        Some(Tier::II) => Some(Tier::III),
        Some(Tier::III) => Some(Tier::III),
    }
}

/// One step down: III -> II -> I -> absent, staying absent.
pub open spec fn prev_tier(t: Option<Tier>) -> Option<Tier> {
    match t {
        None => None,
        Some(Tier::I) => None,
        Some(Tier::II) => Some(Tier::I),
        Some(Tier::III) => Some(Tier::II),
    }
}

/// `k` steps up from `t`.
pub open spec fn next_tier_n(t: Option<Tier>, k: nat) -> Option<Tier>
    decreases k,
{
    if k == 0 {
        t
    } else {
        next_tier(next_tier_n(t, (k - 1) as nat))
    }
}

/// `k` steps down from `t`.
pub open spec fn prev_tier_n(t: Option<Tier>, k: nat) -> Option<Tier>
    decreases k,
{
    if k == 0 {
        t
    } else {
        prev_tier(prev_tier_n(t, (k - 1) as nat))
    }
}

/// The rank of an optional tier: 0 when absent, else the numeral.
pub open spec fn rank(t: Option<Tier>) -> nat {
    match t {
        None => 0,
        Some(Tier::I) => 1,
        Some(Tier::II) => 2,
        Some(Tier::III) => 3,
    }
}

/// The tier one step above `t`, saturating at III.
pub fn increment_tier(t: Option<Tier>) -> (r: Option<Tier>)
    ensures
        r == next_tier(t),
{
    match t {
        None => Some(Tier::I),
        Some(Tier::I) => Some(Tier::II),
        Some(Tier::II) => Some(Tier::III),
        Some(Tier::III) => Some(Tier::III),
    }
}

/// The tier one step below `t`; below I the perk is absent.
pub fn decrement_tier(t: Option<Tier>) -> (r: Option<Tier>)
    ensures
        r == prev_tier(t),
{
    match t {
        None => None,
        Some(Tier::I) => None,
        Some(Tier::II) => Some(Tier::I),
        Some(Tier::III) => Some(Tier::II),
    }
}

/// The rank after `k` steps up: `k` more, at most 3.
proof fn lemma_next_tier_n_rank(t: Option<Tier>, k: nat)
    ensures
        rank(next_tier_n(t, k)) == if rank(t) + k <= 3 { rank(t) + k } else { 3 },
    decreases k,
{
    if k > 0 {
        lemma_next_tier_n_rank(t, (k - 1) as nat);
    }
}

/// The rank after `k` steps down: `k` less, at least 0.
proof fn lemma_prev_tier_n_rank(t: Option<Tier>, k: nat)
    ensures
        rank(prev_tier_n(t, k)) == if rank(t) >= k { rank(t) - k } else { 0 },
    decreases k,
{
    if k > 0 {
        lemma_prev_tier_n_rank(t, (k - 1) as nat);
    }
}

/// Raising an absent perk `k` times and then lowering it `k` times (as the
/// increment and decrement methods of the settings do, one step per call)
/// leaves the perk absent again, whatever the saturation at III.
pub proof fn lemma_increment_decrement_round_trip(k: nat)
    ensures
        prev_tier_n(next_tier_n(None, k), k) == None::<Tier>,
{
    lemma_next_tier_n_rank(None, k);
    lemma_prev_tier_n_rank(next_tier_n(None, k), k);
}

/// Raising a perk four times reaches tier III from any starting point, and
/// raising it a fifth time leaves it there.
pub proof fn lemma_increment_saturates(t: Option<Tier>)
    ensures
        next_tier_n(t, 4) == Some(Tier::III),
        next_tier_n(t, 5) == Some(Tier::III),
{
    lemma_next_tier_n_rank(t, 4);
    lemma_next_tier_n_rank(t, 5);
}

} // verus!
