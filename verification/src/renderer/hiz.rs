//! The Hi-Z depth pyramid: how many mips it has, and the extent and
//! workgroup count of the pass that writes each mip.

use vstd::prelude::*;

use super::passes::{ceil_div, div_ceil};

verus! {

/// Number of binary digits of `n` (`floor(log2 n) + 1` for `n > 0`).
pub open spec fn bit_length(n: nat) -> nat
    decreases n,
{
    if n == 0 {
        0
    } else {
        1 + bit_length(n / 2)
    }
}

/// Values below `2^k` have at most `k` binary digits.
pub proof fn lemma_bit_length_bound(n: nat, k: nat, bound: nat)
    requires
        n < bound,
        bound == vstd::arithmetic::power2::pow2(k),
    ensures
        bit_length(n) <= k,
    decreases k,
{
    if n > 0 {
        if k == 0 {
            vstd::arithmetic::power2::lemma2_to64();
        } else {
            vstd::arithmetic::power2::lemma_pow2_unfold(k);
            let half = vstd::arithmetic::power2::pow2((k - 1) as nat);
            assert(n / 2 < half);
            lemma_bit_length_bound(n / 2, (k - 1) as nat, half);
        }
    }
}

/// `ceil(log2 n)` for `n >= 1`: the binary digits of `n - 1`.
pub open spec fn ceil_log2(n: nat) -> nat {
    if n == 0 {
        0
    } else {
        bit_length((n - 1) as nat)
    }
}

/// A positive `m` lies in `[2^(bit_length(m) - 1), 2^bit_length(m))`.
pub proof fn lemma_bit_length_range(m: nat)
    requires
        m >= 1,
    ensures
        bit_length(m) >= 1,
        vstd::arithmetic::power2::pow2((bit_length(m) - 1) as nat) <= m,
        m < vstd::arithmetic::power2::pow2(bit_length(m)),
    decreases m,
{
    vstd::arithmetic::power2::lemma2_to64();
    if m >= 2 {
        lemma_bit_length_range(m / 2);
        let k = bit_length(m / 2);
        assert(bit_length(m) == k + 1);
        vstd::arithmetic::power2::lemma_pow2_unfold(k + 1);
        if k >= 1 {
            vstd::arithmetic::power2::lemma_pow2_unfold(k);
        }
    } else {
        assert(bit_length(0) == 0);
        assert(bit_length(m) == 1);
    }
}

/// `ceil_log2(n)` is the least `k` with `n <= 2^k`.
pub proof fn lemma_ceil_log2_range(n: nat)
    requires
        n >= 2,
    ensures
        ceil_log2(n) >= 1,
        vstd::arithmetic::power2::pow2((ceil_log2(n) - 1) as nat) < n,
        n <= vstd::arithmetic::power2::pow2(ceil_log2(n)),
{
    lemma_bit_length_range((n - 1) as nat);
}

/// Mip levels of a Hi-Z pyramid for a `width × height` depth buffer:
/// `ceil(log2(max(width, height))) + 1`, and 1 when neither side exceeds 1.
pub fn hiz_mip_count(width: u32, height: u32) -> (n: u32)
    ensures
        n == (if width <= 1 && height <= 1 {
            1
        } else {
            ceil_log2(if width >= height { width as nat } else { height as nat }) + 1
        }),
{
    let max_dim = if width >= height { width } else { height };
    if max_dim <= 1 {
        return 1;
    }
    let below = max_dim - 1;
    proof {
        vstd::arithmetic::power2::lemma2_to64();
        lemma_bit_length_bound(below as nat, 32, 0x1_0000_0000);
    }
    let mut n = below;
    let mut bits: u32 = 0;
    while n > 0
        invariant
            bit_length(below as nat) == bits + bit_length(n as nat),
            bit_length(below as nat) <= 32,
        decreases n,
    {
        n = n / 2;
        bits = bits + 1;
    }
    bits + 1
}

/// Workgroup edge of the Hi-Z downsampling shader.
pub const HIZ_WORKGROUP_SIZE: u32 = 8;

/// Tracked size of mip `i` along one axis: the full size at mip 0, then
/// halved (rounding down, at least 1) per level.
pub open spec fn hiz_level_size(size: nat, i: nat) -> nat
    decreases i,
{
    if i == 0 {
        size
    } else {
        let half = hiz_level_size(size, (i - 1) as nat) / 2;
        if half >= 1 {
            half
        } else {
            1
        }
    }
}

/// Written extent of mip `i` along one axis: its tracked size, at least 1.
pub open spec fn hiz_mip_extent(size: nat, i: nat) -> nat {
    if hiz_level_size(size, i) >= 1 {
        hiz_level_size(size, i)
    } else {
        1
    }
}

/// The compute pass that writes one mip: its extent and workgroup counts.
#[derive(Debug, Clone, Copy, PartialEq, Eq)]
pub struct HiZMipDispatch {
    pub extent: [u32; 2],
    pub groups: [u32; 2],
}

/// One dispatch per mip, mip 0 first: mip `i` is written at its extent,
/// with enough 8×8 workgroups to cover it.
pub fn hiz_mip_dispatches(width: u32, height: u32, mip_count: u32) -> (d: Vec<HiZMipDispatch>)
    ensures
        d@.len() == mip_count,
        forall|i: int|
            0 <= i < mip_count ==> {
                &&& (#[trigger] d@[i]).extent[0] == hiz_mip_extent(width as nat, i as nat)
                &&& d@[i].extent[1] == hiz_mip_extent(height as nat, i as nat)
                &&& d@[i].groups[0] == ceil_div(d@[i].extent[0] as int, HIZ_WORKGROUP_SIZE as int)
                &&& d@[i].groups[1] == ceil_div(d@[i].extent[1] as int, HIZ_WORKGROUP_SIZE as int)
            },
{
    let mut d: Vec<HiZMipDispatch> = Vec::new();
    let mut mip_width = width;
    let mut mip_height = height;
    let mut mip: u32 = 0;
    while mip < mip_count
        invariant
            mip <= mip_count,
            d@.len() == mip,
            mip_width == hiz_level_size(width as nat, mip as nat),
            mip_height == hiz_level_size(height as nat, mip as nat),
            forall|i: int|
                0 <= i < mip ==> {
                    &&& (#[trigger] d@[i]).extent[0] == hiz_mip_extent(width as nat, i as nat)
                    &&& d@[i].extent[1] == hiz_mip_extent(height as nat, i as nat)
                    &&& d@[i].groups[0] == ceil_div(d@[i].extent[0] as int, HIZ_WORKGROUP_SIZE as int)
                    &&& d@[i].groups[1] == ceil_div(d@[i].extent[1] as int, HIZ_WORKGROUP_SIZE as int)
                },
        decreases mip_count - mip,
    {
        let dst_w = if mip_width >= 1 { mip_width } else { 1 };
        let dst_h = if mip_height >= 1 { mip_height } else { 1 };
        let groups = [div_ceil(dst_w, HIZ_WORKGROUP_SIZE), div_ceil(dst_h, HIZ_WORKGROUP_SIZE)];
        d.push(HiZMipDispatch { extent: [dst_w, dst_h], groups });
        let half_w = mip_width / 2;
        let half_h = mip_height / 2;
        mip_width = if half_w >= 1 { half_w } else { 1 };
        mip_height = if half_h >= 1 { half_h } else { 1 };
        mip += 1;
    }
    d
}

/// What a Hi-Z descriptor set samples: the depth buffer, or a mip of the
/// pyramid.
#[derive(Debug, Clone, Copy, PartialEq, Eq)]
pub enum HiZSource {
    Depth,
    Mip(u32),
}

/// One descriptor set of the Hi-Z generation pass: the image it samples
/// and the mip it writes.
#[derive(Debug, Clone, Copy, PartialEq, Eq)]
pub struct HiZSetBinding {
    pub source: HiZSource,
    pub target_mip: u32,
}

/// The descriptor sets of a pyramid with `mip_count` mips (at least one
/// set): set 0 samples the depth buffer into mip 0, set `i` samples mip
/// `i - 1` into mip `i`. Each set takes one sampled and one storage image.
pub fn hiz_descriptor_sets(mip_count: u32) -> (sets: Vec<HiZSetBinding>)
    ensures
        sets@.len() == (if mip_count == 0 { 1 } else { mip_count as int }),
        forall|i: int|
            0 <= i < sets@.len() ==> (#[trigger] sets@[i]).target_mip == i && sets@[i].source == (if i == 0 {
                HiZSource::Depth
            } else {
                HiZSource::Mip((i - 1) as u32)
            }),
{
    let set_count = if mip_count == 0 { 1 } else { mip_count };
    let mut sets: Vec<HiZSetBinding> = Vec::new();
    let mut i: u32 = 0;
    while i < set_count
        invariant
            i <= set_count,
            set_count == (if mip_count == 0 { 1 } else { mip_count }),
            sets@.len() == i,
            forall|j: int|
                0 <= j < i ==> (#[trigger] sets@[j]).target_mip == j && sets@[j].source == (if j == 0 {
                    HiZSource::Depth
                } else {
                    HiZSource::Mip((j - 1) as u32)
                }),
        decreases set_count - i,
    {
        let source = if i == 0 { HiZSource::Depth } else { HiZSource::Mip(i - 1) };
        sets.push(HiZSetBinding { source, target_mip: i });
        i += 1;
    }
    sets
}

/// Halving `i + 1` times is halving once and then `i` times.
proof fn lemma_level_shift(n: nat, i: nat)
    ensures
        hiz_level_size(n, i + 1) == hiz_level_size(hiz_level_size(n, 1), i),
    decreases i,
{
    if i > 0 {
        lemma_level_shift(n, (i - 1) as nat);
    }
}

/// Halving keeps the order of sizes.
proof fn lemma_level_monotone(a: nat, b: nat, i: nat)
    requires
        a <= b,
    ensures
        hiz_level_size(a, i) <= hiz_level_size(b, i),
    decreases i,
{
    if i > 0 {
        lemma_level_monotone(a, b, (i - 1) as nat);
        let x = hiz_level_size(a, (i - 1) as nat);
        let y = hiz_level_size(b, (i - 1) as nat);
        assert(x / 2 <= y / 2) by (nonlinear_arith)
            requires
                x <= y,
        ;
    }
}

/// A size of at least 1 halves down to exactly 1 at mip `bit_length - 1`.
proof fn lemma_level_reaches_one(n: nat)
    requires
        n >= 1,
    ensures
        bit_length(n) >= 1,
        hiz_level_size(n, (bit_length(n) - 1) as nat) == 1,
    decreases n,
{
    if n >= 2 {
        lemma_level_reaches_one(n / 2);
        let k = (bit_length(n / 2) - 1) as nat;
        lemma_level_shift(n, k);
        assert(hiz_level_size(n, 0) == n);
        assert(hiz_level_size(n, 1) == n / 2);
        assert(bit_length(n) == 1 + bit_length(n / 2));
        assert((bit_length(n) - 1) as nat == k + 1);
    } else {
        assert(bit_length(0) == 0);
        assert(bit_length(n) == 1);
    }
}

/// Binary digits never decrease as the value grows.
proof fn lemma_bit_length_monotone(a: nat, b: nat)
    requires
        a <= b,
    ensures
        bit_length(a) <= bit_length(b),
    decreases b,
{
    if a > 0 {
        lemma_bit_length_monotone(a / 2, b / 2);
    }
}

/// Once a level has shrunk to one texel, every later level is one texel.
proof fn lemma_level_stays_one(n: nat, i: nat, j: nat)
    requires
        hiz_level_size(n, i) == 1,
        i <= j,
    ensures
        hiz_level_size(n, j) == 1,
    decreases j - i,
{
    if i < j {
        lemma_level_stays_one(n, i, (j - 1) as nat);
    }
}

/// The pyramid ends at one texel: at its last mip both axes are written
/// at extent 1, whatever the surface size.
pub proof fn law_hiz_chain_ends_at_one_texel(width: u32, height: u32)
    ensures
        ({
            let m: nat = if width <= 1 && height <= 1 {
                1
            } else {
                ceil_log2(if width >= height { width as nat } else { height as nat }) + 1
            };
            &&& m >= 1
            &&& hiz_mip_extent(width as nat, (m - 1) as nat) == 1
            &&& hiz_mip_extent(height as nat, (m - 1) as nat) == 1
        }),
{
    if !(width <= 1 && height <= 1) {
        let big: nat = if width >= height { width as nat } else { height as nat };
        lemma_level_reaches_one(big);
        let last = ceil_log2(big);
        assert(big / 2 <= (big - 1) as nat);
        lemma_bit_length_monotone(big / 2, (big - 1) as nat);
        assert(bit_length(big) == 1 + bit_length(big / 2));
        lemma_level_stays_one(big, (bit_length(big) - 1) as nat, last);
        lemma_level_monotone(width as nat, big, last);
        lemma_level_monotone(height as nat, big, last);
    }
}

} // verus!
