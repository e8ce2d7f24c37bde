//! Gas accounting: the remaining-budget counter and the cost formulas of the
//! metering scheme (fixed costs, per-word copy cost, quadratic memory
//! expansion cost).

use vstd::prelude::*;

verus! {

/// Fixed cost of the cheapest instructions.
pub const BASE: u64 = 2;

/// Fixed cost of the cheap stack and memory instructions.
pub const VERYLOW: u64 = 3;

/// Number of 32-byte words needed to cover `len` bytes.
pub open spec fn spec_num_words(len: nat) -> nat {
    (len + 31) / 32
}

/// Total cost of holding `words` 32-byte words of memory: a linear part and a
/// part that grows with the square of the size.
pub open spec fn spec_memory_gas(words: nat) -> nat {
    3 * words + words * words / 512
}

/// Cost of a copy of `len` bytes: the fixed very-low cost plus a per-word
/// charge.
pub open spec fn spec_copy_cost(len: nat) -> nat {
    3 + 3 * spec_num_words(len)
}

/// The smallest word-aligned size covering `end` bytes.
pub open spec fn spec_aligned_len(end: nat) -> nat {
    spec_num_words(end) * 32
}

/// Word-aligned growth of memory to cover `end` bytes; memory never shrinks.
pub open spec fn spec_grown(mem: Seq<u8>, end: nat) -> Seq<u8> {
    if spec_aligned_len(end) <= mem.len() {
        mem
    } else {
        mem + Seq::new((spec_aligned_len(end) - mem.len()) as nat, |i: int| 0u8)
    }
}

/// Gas owed for growing a memory of `cur` bytes so that it covers `end`
/// bytes: the difference of the two total holding costs.
pub open spec fn spec_expansion_cost(cur: nat, end: nat) -> nat {
    if spec_num_words(end) <= spec_num_words(cur) {
        0
    } else {
        (spec_memory_gas(spec_num_words(end)) - spec_memory_gas(spec_num_words(cur))) as nat
    }
}

pub proof fn lemma_memory_gas_mono(a: nat, b: nat)
    requires
        a <= b,
    ensures
        spec_memory_gas(a) <= spec_memory_gas(b),
{
    assert(a * a <= b * b) by (nonlinear_arith)
        requires
            a <= b,
    ;
    vstd::arithmetic::div_mod::lemma_div_is_ordered((a * a) as int, (b * b) as int, 512);
}

/// Remaining gas budget of one execution.
pub struct Gas {
    pub remaining: u64,
}

impl Gas {
    pub fn new(limit: u64) -> (g: Gas)
        ensures
            g.remaining == limit,
    {
        Gas { remaining: limit }
    }

    /// Deducts `cost` when the budget covers it; reports whether it did and
    /// leaves the budget unchanged when it did not.
    pub fn record_cost(&mut self, cost: u64) -> (ok: bool)
        ensures
            ok == (old(self).remaining >= cost),
            ok ==> final(self).remaining == old(self).remaining - cost,
            !ok ==> *final(self) == *old(self),
    {
        if self.remaining >= cost {
            self.remaining = self.remaining - cost;
            true
        } else {
            false
        }
    }

    pub fn remaining(&self) -> (r: u64)
        ensures
            r == self.remaining,
    {
        self.remaining
    }
}

/// The copy cost of `len` bytes; it always fits in 64 bits.
pub fn copy_cost(len: usize) -> (c: u64)
    ensures
        c as nat == spec_copy_cost(len as nat),
{
    let words: u128 = (len as u128 + 31) / 32;
    let c: u128 = 3 + 3 * words;
    c as u64
}

/// The aligned size covering `end` bytes is at least `end`.
pub proof fn lemma_aligned_covers(end: nat)
    ensures
        spec_aligned_len(end) >= end,
{
    vstd::arithmetic::div_mod::lemma_fundamental_div_mod(end as int + 31, 32);
}

} // verus!
