//! The fixed context-size tiers a backend process can be launched with.

use vstd::prelude::*;

verus! {

/// One of the six context-size tiers, named by its token count.
#[derive(Debug, Clone, Copy, PartialEq, Eq, PartialOrd, Ord, Hash, Structural)]
pub enum ContextSize {
    T8192,
    T16384,
    T32768,
    T65536,
    T131072,
    T262144,
}

/// Number of tiers.
pub const TIER_COUNT: usize = 6;

impl ContextSize {
    /// Token count of the tier.
    pub open spec fn spec_tokens(self) -> nat {
        match self {
            ContextSize::T8192 => 8192,
            ContextSize::T16384 => 16384,
            ContextSize::T32768 => 32768,
            ContextSize::T65536 => 65536,
            ContextSize::T131072 => 131072,
            ContextSize::T262144 => 262144,
        }
    }

    /// Position of the tier in ascending order, starting at zero.
    pub open spec fn spec_rank(self) -> nat {
        match self {
            ContextSize::T8192 => 0,
            ContextSize::T16384 => 1,
            ContextSize::T32768 => 2,
            ContextSize::T65536 => 3,
            ContextSize::T131072 => 4,
            ContextSize::T262144 => 5,
        }
    }

    /// The tier at a given position in ascending order.
    pub open spec fn spec_from_rank(rank: nat) -> ContextSize {
        if rank == 0 {
            ContextSize::T8192
        } else if rank == 1 {
            ContextSize::T16384
        } else if rank == 2 {
            ContextSize::T32768
        } else if rank == 3 {
            ContextSize::T65536
        } else if rank == 4 {
            ContextSize::T131072
        } else {
            ContextSize::T262144
        }
    }

    /// The tier a raw token count is bucketed into: each tier owns the counts
    /// from three quarters of itself up to one and a half times itself, the
    /// smallest tier everything below and the largest everything above.
    pub open spec fn spec_from_tokens(tokens: nat) -> ContextSize {
        if tokens < 12288 {
            ContextSize::T8192
        } else if tokens < 24576 {
            ContextSize::T16384
        } else if tokens < 49152 {
            ContextSize::T32768
        } else if tokens < 98304 {
            ContextSize::T65536
        } else if tokens < 196608 {
            ContextSize::T131072
        } else {
            ContextSize::T262144
        }
    }

    /// Token count of the tier.
    pub fn tokens(&self) -> (n: u64)
        ensures
            n == self.spec_tokens(),
    {
        match self {
            ContextSize::T8192 => 8192,
            ContextSize::T16384 => 16384,
            ContextSize::T32768 => 32768,
            ContextSize::T65536 => 65536,
            ContextSize::T131072 => 131072,
            ContextSize::T262144 => 262144,
        }
    }

    /// Buckets a raw token count into a tier.
    pub fn from_tokens(tokens: u64) -> (tier: ContextSize)
        ensures
            tier == Self::spec_from_tokens(tokens as nat),
    {
        if tokens < 12288 {
            ContextSize::T8192
        } else if tokens < 24576 {
            ContextSize::T16384
        } else if tokens < 49152 {
            ContextSize::T32768
        } else if tokens < 98304 {
            ContextSize::T65536
        } else if tokens < 196608 {
            ContextSize::T131072
        } else {
            ContextSize::T262144
        }
    }

    /// Position of the tier in ascending order, starting at zero.
    pub fn rank(&self) -> (r: usize)
        ensures
            r == self.spec_rank(),
            r < TIER_COUNT,
    {
        match self {
            ContextSize::T8192 => 0,
            ContextSize::T16384 => 1,
            ContextSize::T32768 => 2,
            ContextSize::T65536 => 3,
            ContextSize::T131072 => 4,
            ContextSize::T262144 => 5,
        }
    }

    /// The tier at a given position in ascending order.
    pub fn from_rank(rank: usize) -> (tier: ContextSize)
        requires
            rank < TIER_COUNT,
        ensures
            tier == Self::spec_from_rank(rank as nat),
            tier.spec_rank() == rank,
    {
        if rank == 0 {
            ContextSize::T8192
        } else if rank == 1 {
            ContextSize::T16384
        } else if rank == 2 {
            ContextSize::T32768
        } else if rank == 3 {
            ContextSize::T65536
        } else if rank == 4 {
            ContextSize::T131072
        } else {
            ContextSize::T262144
        }
    }

    /// Whether this tier is at most as large as `other`.
    pub fn at_most(&self, other: &ContextSize) -> (r: bool)
        ensures
            r == (self.spec_tokens() <= other.spec_tokens()),
            r == (self.spec_rank() <= other.spec_rank()),
    {
        self.tokens() <= other.tokens()
    }
}

/// A tier's token count falls into that tier's own bucket.
pub proof fn lemma_tokens_roundtrip(tier: ContextSize)
    ensures
        ContextSize::spec_from_tokens(tier.spec_tokens()) == tier,
{
}

/// Tiers are ordered by token count exactly as they are by rank.
pub proof fn lemma_rank_orders_tokens(a: ContextSize, b: ContextSize)
    ensures
        a.spec_rank() <= b.spec_rank() <==> a.spec_tokens() <= b.spec_tokens(),
        a.spec_rank() == b.spec_rank() <==> a == b,
        ContextSize::spec_from_rank(a.spec_rank()) == a,
{
}

} // verus!
