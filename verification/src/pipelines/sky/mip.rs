//! Mip chains, and the roughness that each level of a prefiltered
//! reflection map stands for.

use vstd::prelude::*;
use vstd::arithmetic::div_mod::{lemma_div_denominator, lemma_div_is_ordered};
use vstd::arithmetic::logarithm::{log, lemma_log0, lemma_log_s};
use vstd::arithmetic::mul::lemma_mul_strict_inequality;
use vstd::arithmetic::power2::{pow2, lemma_pow2_pos, lemma_pow2_unfold};

verus! {

/// Number of levels in the full mip chain of a square texture with `size`
/// texels on a side: one more than the integer logarithm of `size` to base
/// two. A texture without texels has no level.
pub open spec fn max_mip_count(size: nat) -> nat {
    if size == 0 {
        0
    } else {
        (log(2, size as int) + 1) as nat
    }
}

/// Side length of mip level `level` of a square texture with `size` texels
/// on a side: each level halves the one before, and no level is empty.
pub open spec fn mip_extent(size: nat, level: nat) -> nat {
    let halved = size / pow2(level);
    if halved == 0 {
        1
    } else {
        halved
    }
}

/// A chain is one level longer than the chain of the texture half its size.
pub proof fn lemma_max_mip_count_step(size: nat)
    requires
        size > 0,
    ensures
        max_mip_count(size) == 1 + max_mip_count(size / 2),
{
    if size == 1 {
        lemma_log0(2, 1);
    } else {
        lemma_log_s(2, size as int);
        vstd::arithmetic::logarithm::lemma_log_nonnegative(2, size as int / 2);
    }
}

/// `max_mip_count(size)` is the one number `n` with
/// `2^(n-1) <= size < 2^n`.
pub proof fn lemma_max_mip_count_bounds(size: nat)
    requires
        size > 0,
    ensures
        max_mip_count(size) >= 1,
        pow2((max_mip_count(size) - 1) as nat) <= size < pow2(max_mip_count(size)),
    decreases size,
{
    lemma_max_mip_count_step(size);
    if size == 1 {
        lemma_pow2_unfold(1);
        assert(pow2(0) == 1) by {
            vstd::arithmetic::power2::lemma2_to64();
        }
    } else {
        lemma_max_mip_count_bounds(size / 2);
        let n = max_mip_count(size / 2);
        lemma_pow2_unfold(n);
        lemma_pow2_unfold(n + 1);
    }
}

/// Every level of a chain no longer than the full one holds at least one
/// texel without rounding up, and a level further down holds fewer texels
/// than one further up.
pub proof fn lemma_mip_extent_in_chain(size: nat, level: nat)
    requires
        level < max_mip_count(size),
    ensures
        mip_extent(size, level) == size / pow2(level),
        mip_extent(size, level) >= 1,
        level > 0 ==> mip_extent(size, level) < mip_extent(size, (level - 1) as nat),
    decreases level,
{
    lemma_max_mip_count_bounds(size);
    let n = max_mip_count(size);
    lemma_pow2_pos(level);
    if level < n - 1 {
        vstd::arithmetic::power2::lemma_pow2_strictly_increases(level, (n - 1) as nat);
    }
    lemma_div_is_ordered(pow2(level) as int, size as int, pow2(level) as int);
    vstd::arithmetic::div_mod::lemma_div_by_self(pow2(level) as int);
    if level > 0 {
        let up = (level - 1) as nat;
        lemma_mip_extent_in_chain(size, up);
        lemma_pow2_unfold(level);
        lemma_pow2_pos(up);
        lemma_div_denominator(size as int, pow2(up) as int, 2);
        assert(pow2(level) == pow2(up) * 2);
    }
}

/// Number of levels in the full mip chain of a square texture with `size`
/// texels on a side.
pub fn full_mip_count(size: u32) -> (count: u32)
    ensures
        count == max_mip_count(size as nat),
        count <= 32,
{
    let mut rest: u32 = size;
    let mut count: u32 = 0;
    proof {
        vstd::arithmetic::power2::lemma2_to64();
    }
    while rest > 0
        invariant
            count <= 32,
            max_mip_count(size as nat) == count + max_mip_count(rest as nat),
            rest as nat * pow2(count as nat) <= size,
            pow2(32) == 0x1_0000_0000,
        decreases rest,
    {
        proof {
            lemma_max_mip_count_step(rest as nat);
            lemma_pow2_unfold((count + 1) as nat);
            if count == 32 {
                assert(rest as nat * pow2(32) >= pow2(32)) by (nonlinear_arith)
                    requires
                        rest >= 1,
                ;
            }
            assert((rest / 2) as nat * (2 * pow2(count as nat)) <= rest as nat * pow2(
                count as nat,
            )) by (nonlinear_arith)
                requires
                    (rest / 2) * 2 <= rest,
            ;
        }
        rest = rest / 2;
        count = count + 1;
    }
    count
}

/// Side length of mip level `level` of a square texture with `size` texels
/// on a side.
pub fn mip_level_extent(size: u32, level: u32) -> (extent: u32)
    ensures
        extent == mip_extent(size as nat, level as nat),
        extent >= 1,
{
    let mut extent: u32 = size;
    let mut done: u32 = 0;
    proof {
        vstd::arithmetic::power2::lemma2_to64();
    }
    while done < level && extent > 0
        invariant
            done <= level,
            extent == size as nat / pow2(done as nat),
        decreases level - done,
    {
        proof {
            lemma_pow2_unfold((done + 1) as nat);
            lemma_pow2_pos(done as nat);
            lemma_div_denominator(size as int, pow2(done as nat) as int, 2);
            assert(pow2((done + 1) as nat) == pow2(done as nat) * 2);
        }
        extent = extent / 2;
        done = done + 1;
    }
    proof {
        if done < level {
            lemma_pow2_pos(done as nat);
            lemma_pow2_pos(level as nat);
            vstd::arithmetic::power2::lemma_pow2_strictly_increases(done as nat, level as nat);
            vstd::arithmetic::div_mod::lemma_div_is_ordered_by_denominator(
                size as int,
                pow2(done as nat) as int,
                pow2(level as nat) as int,
            );
        }
    }
    if extent == 0 {
        1
    } else {
        extent
    }
}

/// A roughness between zero (a mirror) and one, as a fraction.
#[derive(Copy, Clone, Debug, PartialEq, Eq, Structural)]
pub struct Roughness {
    pub numerator: u32,
    pub denominator: u32,
}

impl Roughness {
    /// A fraction between zero and one with a denominator that is not zero.
    pub open spec fn wf(self) -> bool {
        0 < self.denominator && self.numerator <= self.denominator
    }

    /// Whether the fraction `self` is smaller than the fraction `other`.
    pub open spec fn below(self, other: Roughness) -> bool {
        self.numerator * other.denominator < other.numerator * self.denominator
    }

    /// Roughness of level `mip` in a chain of `mip_count` levels: the
    /// levels divide the range from zero to one evenly, and a chain of one
    /// level is a mirror.
    pub open spec fn spec_for_mip(mip: nat, mip_count: nat) -> Roughness
        recommends
            mip < mip_count <= u32::MAX,
    {
        if mip_count <= 1 {
            Roughness { numerator: 0, denominator: 1 }
        } else {
            Roughness { numerator: mip as u32, denominator: (mip_count - 1) as u32 }
        }
    }

    /// Roughness of level `mip` in a chain of `mip_count` levels; `None`
    /// where the chain has no such level.
    pub fn for_mip(mip: u32, mip_count: u32) -> (roughness: Option<Roughness>)
        ensures
            roughness is Some <==> mip < mip_count,
            roughness is Some ==> roughness->0 == Self::spec_for_mip(mip as nat, mip_count as nat)
                && roughness->0.wf(),
    {
        if mip >= mip_count {
            None
        } else if mip_count == 1 {
            Some(Roughness { numerator: 0, denominator: 1 })
        } else {
            Some(Roughness { numerator: mip, denominator: mip_count - 1 })
        }
    }

    /// Whether this roughness is smaller than `other`.
    pub fn is_below(self, other: Roughness) -> (smaller: bool)
        ensures
            smaller == self.below(other),
    {
        assert(self.numerator * other.denominator <= 0xffff_ffff * 0xffff_ffff) by (nonlinear_arith)
            requires
                self.numerator <= 0xffff_ffff,
                other.denominator <= 0xffff_ffff,
        ;
        assert(other.numerator * self.denominator <= 0xffff_ffff * 0xffff_ffff) by (nonlinear_arith)
            requires
                other.numerator <= 0xffff_ffff,
                self.denominator <= 0xffff_ffff,
        ;
        (self.numerator as u64) * (other.denominator as u64) < (other.numerator as u64) * (
        self.denominator as u64)
    }

    /// Whether this is the roughness of a mirror.
    pub fn is_mirror(self) -> (mirror: bool)
        ensures
            mirror == (self.numerator == 0),
    {
        self.numerator == 0
    }
}

/// The first level of every chain is a mirror, the last level of a chain
/// of two or more is fully rough, and every level's roughness is a
/// fraction between zero and one.
pub proof fn lemma_roughness_ends(mip: nat, mip_count: nat)
    requires
        mip < mip_count <= u32::MAX,
    ensures
        Roughness::spec_for_mip(0, mip_count).numerator == 0,
        Roughness::spec_for_mip(mip, mip_count).wf(),
        mip_count >= 2 ==> Roughness::spec_for_mip((mip_count - 1) as nat, mip_count).numerator
            == Roughness::spec_for_mip((mip_count - 1) as nat, mip_count).denominator,
{
}

/// Roughness grows strictly with the mip level.
pub proof fn lemma_roughness_strictly_increasing(lower: nat, upper: nat, mip_count: nat)
    requires
        lower < upper < mip_count <= u32::MAX,
    ensures
        Roughness::spec_for_mip(lower, mip_count).below(Roughness::spec_for_mip(upper, mip_count)),
{
    lemma_mul_strict_inequality(lower as int, upper as int, (mip_count - 1) as int);
}

} // verus!
