//! The index lists of procedural meshes.

use vstd::prelude::*;

verus! {

/// Number of quads between the rings and segments of a sphere.
pub open spec fn quad_count(rings: nat, segments: nat) -> nat {
    ((rings - 1) * (segments - 1)) as nat
}

/// The `corner`-th of the six indices of the quad between ring `r` and
/// the next and between segment `s` and the next, on a sphere of
/// `segments` vertices in every ring: two triangles.
pub open spec fn quad_corner(r: int, s: int, segments: int, corner: int) -> int {
    if corner == 0 {
        r * segments + (s + 1)
    } else if corner == 1 || corner == 5 {
        r * segments + s
    } else if corner == 2 || corner == 4 {
        (r + 1) * segments + (s + 1)
    } else {
        (r + 1) * segments + s
    }
}

/// The `k`-th index in the order in which the quads are walked: ring by
/// ring, segment by segment, six indices for each quad.
pub open spec fn walked_index(k: int, segments: int) -> int {
    let quad = k / 6;
    quad_corner(quad / (segments - 1), quad % (segments - 1), segments, k % 6)
}

/// The indices of a sphere: those of the walk in reverse order, which
/// turns every triangle around, each cut to 16 bits.
pub open spec fn spec_sphere_indices(rings: nat, segments: nat) -> Seq<u16> {
    let len = 6 * quad_count(rings, segments);
    Seq::new(len, |i: int| (walked_index(len - 1 - i, segments as int) % 0x1_0000) as u16)
}

/// The indices of a sphere of `rings` rings of `segments` vertices each;
/// `None` where the sphere has no ring or no segment, or more vertices
/// than 32 bits can number.
pub fn sphere_indices(rings: u32, segments: u32) -> (indices: Option<Vec<u16>>)
    ensures
        indices is Some <==> rings >= 1 && segments >= 1 && rings * segments <= u32::MAX,
        indices is Some ==> indices->0@ == spec_sphere_indices(rings as nat, segments as nat),
{
    if rings == 0 || segments == 0 {
        return None;
    }
    assert(rings * segments <= 0xffff_ffff * 0xffff_ffff) by (nonlinear_arith)
        requires
            rings <= 0xffff_ffff,
            segments <= 0xffff_ffff,
    ;
    if (rings as u64) * (segments as u64) > u32::MAX as u64 {
        return None;
    }
    let segs: u64 = segments as u64;
    let across: u64 = segs - 1;
    assert(0 <= (rings - 1) * (segments - 1) <= rings * segments) by (nonlinear_arith)
        requires
            rings >= 1,
            segments >= 1,
    ;
    let quads: u64 = (rings as u64 - 1) * across;
    let mut indices: Vec<u16> = Vec::new();
    let mut done: u64 = 0;
    while done < quads
        invariant
            done <= quads == quad_count(rings as nat, segments as nat),
            rings >= 1,
            segments >= 1,
            segs == segments,
            across == segments - 1,
            rings * segments <= u32::MAX,
            indices@.len() == 6 * done,
            forall|i: int|
                0 <= i < 6 * done ==> indices@[i] == spec_sphere_indices(
                    rings as nat,
                    segments as nat,
                )[i],
        decreases quads - done,
    {
        assert(across > 0) by (nonlinear_arith)
            requires
                done < quads,
                quads == (rings - 1) * across,
                across >= 0,
        ;
        let quad: u64 = quads - 1 - done;
        let r: u64 = quad / across;
        let s: u64 = quad % across;
        proof {
            vstd::arithmetic::div_mod::lemma_fundamental_div_mod(quad as int, across as int);
            assert(r < rings - 1 && (r + 1) * segs + s + 1 <= rings * segments && 0 <= r * segs)
                by (nonlinear_arith)
                requires
                    quad == across * r + s,
                    0 <= s < across,
                    quad < (rings - 1) * across,
                    across == segs - 1,
                    segs == segments,
                    0 <= r,
            ;
            assert(r * segs + segs == (r + 1) * segs) by (nonlinear_arith);
        }
        let near: u64 = r * segs + s;
        let far: u64 = near + segs;
        indices.push((near % 0x1_0000) as u16);
        indices.push(((far + 1) % 0x1_0000) as u16);
        indices.push((far % 0x1_0000) as u16);
        indices.push(((far + 1) % 0x1_0000) as u16);
        indices.push((near % 0x1_0000) as u16);
        indices.push(((near + 1) % 0x1_0000) as u16);
        done = done + 1;
    }
    Some(indices)
}

/// Every index of a sphere that 16 bits can number names a vertex of it,
/// and the indices come in triangles.
pub proof fn lemma_sphere_indices_in_range(rings: nat, segments: nat, i: int)
    requires
        rings >= 1,
        segments >= 1,
        0 <= i < 6 * quad_count(rings, segments),
    ensures
        spec_sphere_indices(rings, segments).len() == 6 * quad_count(rings, segments),
        spec_sphere_indices(rings, segments).len() % 3 == 0,
        0 <= walked_index(6 * quad_count(rings, segments) - 1 - i, segments as int) < rings
            * segments,
        rings * segments <= 0x1_0000 ==> spec_sphere_indices(rings, segments)[i] == walked_index(
            6 * quad_count(rings, segments) - 1 - i,
            segments as int,
        ),
{
    let len = 6 * quad_count(rings, segments) as int;
    let k = len - 1 - i;
    let quad = k / 6;
    let across = segments as int - 1;
    assert(across > 0) by (nonlinear_arith)
        requires
            quad_count(rings, segments) == (rings - 1) * across,
            0 <= i < 6 * quad_count(rings, segments),
            rings >= 1,
            across >= 0,
    ;
    vstd::arithmetic::div_mod::lemma_fundamental_div_mod(quad, across);
    vstd::arithmetic::div_mod::lemma_mod_bound(quad, across);
    let r = quad / across;
    let s = quad % across;
    assert(0 <= r < rings - 1) by (nonlinear_arith)
        requires
            quad == across * r + s,
            0 <= s < across,
            0 <= quad < (rings - 1) * across,
    ;
    assert(0 <= r * segments && (r + 1) * segments + s + 1 < rings * segments && r * segments
        + segments == (r + 1) * segments) by (nonlinear_arith)
        requires
            0 <= r < rings - 1,
            0 <= s < segments - 1,
    ;
}

} // verus!
