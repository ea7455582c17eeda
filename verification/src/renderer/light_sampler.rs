//! Emitter bookkeeping of the light sampler: emitter signatures, the
//! remapping of emitter indices between world syncs, and importance-map
//! addressing.

use std::collections::HashMap;

use vstd::prelude::*;

verus! {

broadcast use vstd::std_specs::hash::group_hash_axioms;

/// Texels of the importance map along x, y and z.
pub const IMPORTANCE_MAP_DIMS: [u32; 3] = [64, 32, 64];

/// Marks a previous emitter with no counterpart in the current set.
pub const INVALID_EMITTER_INDEX: u32 = 0xFFFF_FFFF;

/// Index of the first occurrence of `x` in `s`, or -1.
pub open spec fn first_index_of(s: Seq<u32>, x: u32) -> int
    decreases s.len(),
{
    if s.len() == 0 {
        -1
    } else {
        let p = first_index_of(s.drop_last(), x);
        if p >= 0 {
            p
        } else if s.last() == x {
            s.len() - 1
        } else {
            -1
        }
    }
}

/// `first_index_of` names the first occurrence.
pub proof fn lemma_first_index_of(s: Seq<u32>, x: u32)
    ensures
        -1 <= first_index_of(s, x) < s.len(),
        first_index_of(s, x) >= 0 ==> s[first_index_of(s, x)] == x,
        forall|j: int| 0 <= j < s.len() && (first_index_of(s, x) < 0 || j < first_index_of(s, x)) ==> #[trigger] s[j] != x,
    decreases s.len(),
{
    if s.len() > 0 {
        lemma_first_index_of(s.drop_last(), x);
        assert forall|j: int| 0 <= j < s.len() - 1 implies s.drop_last()[j] == s[j] by {}
    }
}

/// Where each previous emitter went: the index of the first current
/// emitter with the same signature, or `INVALID_EMITTER_INDEX`.
pub open spec fn shift_target(current: Seq<u32>, sig: u32) -> u32 {
    if first_index_of(current, sig) >= 0 {
        first_index_of(current, sig) as u32
    } else {
        INVALID_EMITTER_INDEX
    }
}

/// For each previous emitter signature, the index of the first current
/// emitter with that signature (`INVALID_EMITTER_INDEX` when none). With
/// no previous emitters the result is the single entry
/// `INVALID_EMITTER_INDEX`.
pub fn build_shift_mapping(previous_signatures: &[u32], current_signatures: &[u32]) -> (remap: Vec<u32>)
    requires
        current_signatures@.len() <= INVALID_EMITTER_INDEX,
    ensures
        previous_signatures@.len() == 0 ==> remap@ == seq![INVALID_EMITTER_INDEX],
        previous_signatures@.len() > 0 ==> remap@ == previous_signatures@.map_values(
            |sig: u32| shift_target(current_signatures@, sig),
        ),
{
    if previous_signatures.len() == 0 {
        let mut remap: Vec<u32> = Vec::new();
        remap.push(INVALID_EMITTER_INDEX);
        assert(remap@ =~= seq![INVALID_EMITTER_INDEX]);
        return remap;
    }
    let ghost cur = current_signatures@;
    let mut current_lookup: HashMap<u32, u32> = HashMap::new();
    let mut idx: usize = 0;
    while idx < current_signatures.len()
        invariant
            idx <= cur.len(),
            cur == current_signatures@,
            cur.len() <= INVALID_EMITTER_INDEX,
            forall|x: u32| #[trigger] current_lookup@.contains_key(x) <==> first_index_of(cur.take(idx as int), x) >= 0,
            forall|x: u32| #[trigger] current_lookup@.contains_key(x) ==> current_lookup@[x] == first_index_of(cur.take(idx as int), x),
        decreases cur.len() - idx,
    {
        let sig = current_signatures[idx];
        proof {
            let t = cur.take(idx + 1);
            assert(t.drop_last() =~= cur.take(idx as int));
            assert(t.last() == sig);
        }
        if !current_lookup.contains_key(&sig) {
            current_lookup.insert(sig, idx as u32);
        }
        idx += 1;
    }
    assert(cur.take(idx as int) =~= cur);
    let mut remap: Vec<u32> = Vec::with_capacity(previous_signatures.len());
    let mut i: usize = 0;
    while i < previous_signatures.len()
        invariant
            i <= previous_signatures@.len(),
            cur == current_signatures@,
            forall|x: u32| #[trigger] current_lookup@.contains_key(x) <==> first_index_of(cur, x) >= 0,
            forall|x: u32| #[trigger] current_lookup@.contains_key(x) ==> current_lookup@[x] == first_index_of(cur, x),
            remap@ == previous_signatures@.take(i as int).map_values(|sig: u32| shift_target(cur, sig)),
        decreases previous_signatures@.len() - i,
    {
        let sig = previous_signatures[i];
        let mapped = match current_lookup.get(&sig) {
            Some(v) => *v,
            None => INVALID_EMITTER_INDEX,
        };
        remap.push(mapped);
        assert(remap@ =~= previous_signatures@.take(i + 1).map_values(|sig: u32| shift_target(cur, sig)));
        i += 1;
    }
    assert(previous_signatures@.take(i as int) =~= previous_signatures@);
    remap
}

/// A remapped index names a current emitter with the same signature, the
/// first one; `INVALID_EMITTER_INDEX` means no current emitter has it.
pub proof fn law_shift_target_matches(current: Seq<u32>, sig: u32)
    requires
        current.len() <= INVALID_EMITTER_INDEX,
    ensures
        shift_target(current, sig) != INVALID_EMITTER_INDEX ==> {
            &&& shift_target(current, sig) < current.len()
            &&& current[shift_target(current, sig) as int] == sig
            &&& forall|j: int| 0 <= j < shift_target(current, sig) ==> current[j] != sig
        },
        shift_target(current, sig) == INVALID_EMITTER_INDEX ==> forall|j: int| 0 <= j < current.len() ==> current[j] != sig,
{
    lemma_first_index_of(current, sig);
}

/// Signature hash of an emitter from its quantized position and power
/// (position × 4 and power × 8, each rounded to the nearest integer).
pub open spec fn emitter_hash(q: [i32; 4]) -> u32 {
    let h0 = 0x9e37_79b9u32 ^ (((q[0] as u32) as int * 0x85eb_ca6b) % 0x1_0000_0000) as u32;
    let h1 = h0 ^ (((q[1] as u32) as int * 0xc2b2_ae35) % 0x1_0000_0000) as u32;
    let h2 = h1 ^ (((q[2] as u32) as int * 0x27d4_eb2d) % 0x1_0000_0000) as u32;
    let h3 = h2 ^ (((q[3] as u32) as int * 0x1656_67b1) % 0x1_0000_0000) as u32;
    let h4 = h3 ^ (h3 >> 16u32);
    let h5 = ((h4 as int * 0x7feb_352d) % 0x1_0000_0000) as u32;
    let h6 = h5 ^ (h5 >> 15u32);
    let h7 = ((h6 as int * 0x846c_a68b) % 0x1_0000_0000) as u32;
    h7 ^ (h7 >> 16u32)
}

/// Signature of an emitter given its quantized position and power.
pub fn signature_from_emitter(quantized: [i32; 4]) -> (h: u32)
    ensures
        h == emitter_hash(quantized),
{
    let px = quantized[0];
    let py = quantized[1];
    let pz = quantized[2];
    let pw = quantized[3];
    let mut h = 0x9e37_79b9u32 ^ (px as u32).wrapping_mul(0x85eb_ca6b);
    h ^= (py as u32).wrapping_mul(0xc2b2_ae35);
    h ^= (pz as u32).wrapping_mul(0x27d4_eb2d);
    h ^= (pw as u32).wrapping_mul(0x1656_67b1);
    h ^= h >> 16;
    h = h.wrapping_mul(0x7feb_352d);
    h ^= h >> 15;
    h = h.wrapping_mul(0x846c_a68b);
    h ^ (h >> 16)
}

/// Linear index of an importance-map texel (x fastest, then y, then z).
pub fn importance_linear_index(coord: [u32; 3], dims: [u32; 3]) -> (i: usize)
    requires
        coord[2] * dims[0] <= u32::MAX,
        coord[0] + coord[1] * dims[0] + coord[2] * dims[0] * dims[1] <= u32::MAX,
    ensures
        i == coord[0] + coord[1] * dims[0] + coord[2] * dims[0] * dims[1],
{
    proof {
        assert(0 <= coord[1] * dims[0]) by (nonlinear_arith);
        assert(0 <= coord[2] * dims[0] * dims[1]) by (nonlinear_arith);
    }
    (coord[0] + coord[1] * dims[0] + coord[2] * dims[0] * dims[1]) as usize
}

} // verus!
