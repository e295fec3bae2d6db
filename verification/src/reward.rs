//! The emission schedule: how many reward tokens a block mints.

use vstd::arithmetic::div_mod::lemma_div_is_ordered;
use vstd::arithmetic::div_mod::lemma_div_is_ordered_by_denominator;
use vstd::arithmetic::div_mod::lemma_basic_div;
use vstd::arithmetic::power2::lemma2_to64;
use vstd::arithmetic::power2::lemma_pow2_strictly_increases;
use vstd::arithmetic::power2::lemma_pow2_unfold;
use vstd::arithmetic::power2::lemma_pow2_pos;
use vstd::arithmetic::power2::pow2;
use vstd::prelude::*;

verus! {

/// Reward of the first block, in the token's smallest unit.
pub const BASE_REWARD: u64 = 5_000_000_000;

/// Number of blocks after which the reward halves.
pub const HALVING_INTERVAL: u64 = 210_000;

/// How many halvings have taken place when block `block_number` is mined.
pub open spec fn halvings(block_number: nat) -> nat
    recommends
        block_number >= 1,
{
    ((block_number - 1) / (HALVING_INTERVAL as int)) as nat
}

/// The reward of block `block_number`: the base reward divided by two once
/// for every completed halving interval, rounded down.
pub open spec fn reward(block_number: nat) -> nat
    recommends
        block_number >= 1,
{
    ((BASE_REWARD as int) / (pow2(halvings(block_number)) as int)) as nat
}

/// Once the divisor exceeds the base reward the schedule has run out.
pub proof fn lemma_reward_exhausted(block_number: nat)
    requires
        block_number >= 1,
        halvings(block_number) >= 33,
    ensures
        reward(block_number) == 0,
{
    let h = halvings(block_number);
    lemma2_to64();
    lemma_pow2_unfold(33);
    if h > 33 {
        lemma_pow2_strictly_increases(33, h);
    }
    assert(pow2(h) >= pow2(33));
    lemma_basic_div(BASE_REWARD as int, pow2(h) as int);
}

/// The reward never grows from one block to a later one, is never negative
/// and never more than the base reward.
pub proof fn lemma_reward_non_increasing(earlier: nat, later: nat)
    requires
        1 <= earlier <= later,
    ensures
        0 <= reward(later) <= reward(earlier) <= BASE_REWARD,
{
    let a = halvings(earlier);
    let b = halvings(later);
    assert(a <= b) by {
        lemma_div_is_ordered(earlier - 1, later - 1, HALVING_INTERVAL as int);
    }
    lemma_pow2_pos(0);
    lemma_pow2_pos(a);
    if 0 < a {
        lemma_pow2_strictly_increases(0, a);
    }
    if a < b {
        lemma_pow2_strictly_increases(a, b);
    }
    lemma_div_is_ordered_by_denominator(BASE_REWARD as int, pow2(a) as int, pow2(b) as int);
    lemma_div_is_ordered_by_denominator(BASE_REWARD as int, pow2(0) as int, pow2(a) as int);
    lemma2_to64();
}

/// Computes the amount of reward tokens that mining block `block_number`
/// mints.
pub fn calculate_amount(block_number: u64) -> (amount: u64)
    requires
        block_number >= 1,
    ensures
        amount == reward(block_number as nat),
{
    let halved: u64 = (block_number - 1) / HALVING_INTERVAL;
    if halved >= 33 {
        proof {
            lemma_reward_exhausted(block_number as nat);
        }
        return 0;
    }
    let mut divisor: u64 = 1;
    let mut done: u64 = 0;
    proof {
        lemma2_to64();
    }
    while done < halved
        invariant
            done <= halved < 33,
            divisor == pow2(done as nat),
            divisor <= 0x1_0000_0000,
        decreases halved - done,
    {
        proof {
            lemma_pow2_unfold((done + 1) as nat);
            lemma2_to64();
            if done + 1 < 32 {
                lemma_pow2_strictly_increases((done + 1) as nat, 32);
            }
        }
        divisor = divisor * 2;
        done = done + 1;
    }
    BASE_REWARD / divisor
}

} // verus!
