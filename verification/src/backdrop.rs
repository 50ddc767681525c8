use vstd::prelude::*;

use vstd::arithmetic::div_mod::lemma_fundamental_div_mod_converse;

verus! {

/// A triangle of a mesh, by the indices of its three corners.
pub type Triangle = (u32, u32, u32);

/// Triangle `k` of the vignette: a mesh of `rings + 1` rings of `segments`
/// vertices each, ring after ring, with every cell between two rings split
/// into two triangles and the last segment of a ring closing on the first.
pub open spec fn spec_ring_triangle(segments: int, k: int) -> Triangle {
    let cell = k / 2;
    let ring = cell / segments;
    let segment = cell % segments;
    let next = (segment + 1) % segments;
    let inner = ring * segments + segment;
    let inner_next = ring * segments + next;
    let outer = (ring + 1) * segments + segment;
    let outer_next = (ring + 1) * segments + next;
    if k % 2 == 0 {
        (inner as u32, outer as u32, inner_next as u32)
    } else {
        (inner_next as u32, outer as u32, outer_next as u32)
    }
}

/// Triangle `k` of the focus mask: a band of `segments` pairs of vertices,
/// an inner and an outer one for each direction, each quad between two
/// directions split into two triangles and the last direction closing on the
/// first.
pub open spec fn spec_band_triangle(segments: int, k: int) -> Triangle {
    let index = k / 2;
    let next = (index + 1) % segments;
    let inner = 2 * index;
    let outer = inner + 1;
    let next_inner = 2 * next;
    let next_outer = next_inner + 1;
    if k % 2 == 0 {
        (inner as u32, outer as u32, next_inner as u32)
    } else {
        (next_inner as u32, outer as u32, next_outer as u32)
    }
}

proof fn lemma_cell_of(segments: int, ring: int, segment: int)
    requires
        0 < segments,
        0 <= ring,
        0 <= segment < segments,
    ensures
        (2 * (ring * segments + segment)) / 2 == ring * segments + segment,
        (2 * (ring * segments + segment)) % 2 == 0,
        (2 * (ring * segments + segment) + 1) / 2 == ring * segments + segment,
        (2 * (ring * segments + segment) + 1) % 2 == 1,
        (ring * segments + segment) / segments == ring,
        (ring * segments + segment) % segments == segment,
{
    let cell = ring * segments + segment;
    lemma_fundamental_div_mod_converse(2 * cell, 2, cell, 0);
    lemma_fundamental_div_mod_converse(2 * cell + 1, 2, cell, 1);
    lemma_fundamental_div_mod_converse(cell, segments, ring, segment);
}

proof fn lemma_next_segment(segments: int, segment: int)
    requires
        0 <= segment < segments,
    ensures
        (segment + 1) % segments == if segment + 1 == segments {
            0
        } else {
            segment + 1
        },
{
    if segment + 1 == segments {
        lemma_fundamental_div_mod_converse(segment + 1, segments, 1, 0);
    } else {
        lemma_fundamental_div_mod_converse(segment + 1, segments, 0, segment + 1);
    }
}

/// The triangles of the vignette's ring mesh, two to a cell, cell by cell
/// round each ring and ring by ring outward.
pub fn vignette_triangles(rings: u32, segments: u32) -> (result: Vec<Triangle>)
    requires
        0 < segments,
        (rings + 1) * segments <= u32::MAX,
    ensures
        result@.len() == 2 * rings * segments,
        forall|k: int| 0 <= k < result@.len() ==> #[trigger] result@[k] == spec_ring_triangle(segments as int, k),
{
    let mut out: Vec<Triangle> = Vec::new();
    let mut ring: u32 = 0;
    while ring < rings
        invariant
            0 < segments,
            (rings + 1) * segments <= u32::MAX,
            ring <= rings,
            out@.len() == 2 * (ring * segments),
            forall|k: int| 0 <= k < out@.len() ==> #[trigger] out@[k] == spec_ring_triangle(segments as int, k),
        decreases rings - ring,
    {
        let mut segment: u32 = 0;
        while segment < segments
            invariant
                0 < segments,
                (rings + 1) * segments <= u32::MAX,
                ring < rings,
                segment <= segments,
                out@.len() == 2 * (ring * segments + segment),
                forall|k: int| 0 <= k < out@.len() ==> #[trigger] out@[k] == spec_ring_triangle(segments as int, k),
            decreases segments - segment,
        {
            assert((ring + 2) * segments <= (rings + 1) * segments) by (nonlinear_arith)
                requires
                    ring < rings,
                    0 < segments,
            ;
            assert((ring + 2) * segments == (ring + 1) * segments + segments) by (nonlinear_arith);
            assert((ring + 1) * segments == ring * segments + segments) by (nonlinear_arith);
            let next = if segment + 1 == segments {
                0
            } else {
                segment + 1
            };
            let inner = ring * segments + segment;
            let inner_next = ring * segments + next;
            let outer = (ring + 1) * segments + segment;
            let outer_next = (ring + 1) * segments + next;
            proof {
                lemma_cell_of(segments as int, ring as int, segment as int);
                lemma_next_segment(segments as int, segment as int);
            }
            let ghost before: int = out@.len() as int;
            out.push((inner, outer, inner_next));
            out.push((inner_next, outer, outer_next));
            proof {
                assert(out@[before] == spec_ring_triangle(segments as int, before));
                assert(out@[before + 1] == spec_ring_triangle(segments as int, before + 1));
            }
            segment += 1;
        }
        assert(ring * segments + segments == (ring + 1) * segments) by (nonlinear_arith);
        ring += 1;
    }
    assert(2 * (rings * segments) == 2 * rings * segments) by (nonlinear_arith);
    out
}

/// The triangles of the focus mask's band, two to each direction, in turn
/// round the circle.
pub fn focus_mask_triangles(segments: u32) -> (result: Vec<Triangle>)
    requires
        0 < segments,
        2 * segments <= u32::MAX,
    ensures
        result@.len() == 2 * segments,
        forall|k: int| 0 <= k < result@.len() ==> #[trigger] result@[k] == spec_band_triangle(segments as int, k),
{
    let mut out: Vec<Triangle> = Vec::new();
    let mut index: u32 = 0;
    while index < segments
        invariant
            0 < segments,
            2 * segments <= u32::MAX,
            index <= segments,
            out@.len() == 2 * index,
            forall|k: int| 0 <= k < out@.len() ==> #[trigger] out@[k] == spec_band_triangle(segments as int, k),
        decreases segments - index,
    {
        let next = if index + 1 == segments {
            0
        } else {
            index + 1
        };
        let inner = index * 2;
        let outer = inner + 1;
        let next_inner = next * 2;
        let next_outer = next_inner + 1;
        proof {
            lemma_fundamental_div_mod_converse(2 * index, 2, index as int, 0);
            lemma_fundamental_div_mod_converse(2 * index + 1, 2, index as int, 1);
            lemma_next_segment(segments as int, index as int);
        }
        let ghost before: int = out@.len() as int;
        out.push((inner, outer, next_inner));
        out.push((next_inner, outer, next_outer));
        proof {
            assert(out@[before] == spec_band_triangle(segments as int, before));
            assert(out@[before + 1] == spec_band_triangle(segments as int, before + 1));
        }
        index += 1;
    }
    out
}

/// Every corner of every vignette triangle is a vertex of the mesh, and every
/// triangle joins two neighbouring rings.
pub proof fn lemma_vignette_triangles_stay_in_the_mesh(rings: nat, segments: nat, k: int)
    requires
        0 < segments,
        (rings + 1) * segments <= u32::MAX,
        0 <= k < 2 * rings * segments,
    ensures
        ({
            let t = spec_ring_triangle(segments as int, k);
            let ring = k / 2 / (segments as int);
            &&& t.0 < (rings + 1) * segments
            &&& t.1 < (rings + 1) * segments
            &&& t.2 < (rings + 1) * segments
            &&& ring * segments <= t.0 < (ring + 2) * segments
            &&& (ring + 1) * segments <= t.1 < (ring + 2) * segments
            &&& ring * segments <= t.2 < (ring + 2) * segments
        }),
{
    let s = segments as int;
    let cell = k / 2;
    let ring = cell / s;
    let segment = cell % s;
    let next = (segment + 1) % s;
    assert(0 <= cell < rings * s) by {
        assert(2 * rings * segments == 2 * (rings * segments)) by (nonlinear_arith);
    }
    assert(cell == ring * s + segment && 0 <= segment < s) by {
        vstd::arithmetic::div_mod::lemma_fundamental_div_mod(cell, s);
        vstd::arithmetic::div_mod::lemma_mod_pos_bound(cell, s);
    }
    assert(0 <= next < s) by {
        vstd::arithmetic::div_mod::lemma_mod_pos_bound(segment + 1, s);
    }
    assert(0 <= ring < rings) by {
        vstd::arithmetic::div_mod::lemma_div_pos_is_pos(cell, s);
        if ring >= rings {
            assert(ring * s >= rings * s) by (nonlinear_arith)
                requires
                    ring >= rings,
                    s > 0,
            ;
        }
    }
    assert((ring + 1) * s == ring * s + s) by (nonlinear_arith);
    assert((ring + 2) * s == ring * s + 2 * s) by (nonlinear_arith);
    assert((ring + 2) * s <= (rings + 1) * s) by (nonlinear_arith)
        requires
            ring < rings,
            s > 0,
    ;
}

/// Every corner of every focus mask triangle is one of its vertices.
pub proof fn lemma_focus_mask_triangles_stay_in_the_band(segments: nat, k: int)
    requires
        0 < segments,
        2 * segments <= u32::MAX,
        0 <= k < 2 * segments,
    ensures
        spec_band_triangle(segments as int, k).0 < 2 * segments,
        spec_band_triangle(segments as int, k).1 < 2 * segments,
        spec_band_triangle(segments as int, k).2 < 2 * segments,
{
    let index = k / 2;
    assert(0 <= index < segments);
    vstd::arithmetic::div_mod::lemma_mod_pos_bound(index + 1, segments as int);
}

/// The colour the drop target is drawn in.
#[derive(Clone, Copy, Debug, PartialEq, Eq, Structural, Hash)]
pub enum DropInk {
    /// The application is calling attention to the target.
    Alert,
    /// A file is carried over the viewport, or the pointer is on the target.
    Lit,
    Muted,
}

/// How the empty viewport's drop target for a head file is drawn.
#[derive(Clone, Copy, Debug, PartialEq, Eq, Structural, Hash)]
pub struct DropTargetLook {
    pub ink: DropInk,
    /// The dashed outline is drawn heavier.
    pub heavy: bool,
    /// The frame behind the outline is washed in.
    pub washed: bool,
    /// Ask for another frame, to keep the attention pulse moving.
    pub repaint: bool,
}

/// The drop target's look: a call for attention wins; otherwise a file
/// carried over the window or the pointer on the target lights it. Any of
/// the three draws the outline heavier, and a carried file also washes the
/// frame in.
pub fn drop_target_look(carrying: bool, hovered: bool, calling: bool) -> (result: DropTargetLook)
    ensures
        result.ink == (if calling {
            DropInk::Alert
        } else if carrying || hovered {
            DropInk::Lit
        } else {
            DropInk::Muted
        }),
        result.heavy == (carrying || hovered || calling),
        result.washed == carrying,
        result.repaint == calling,
{
    let lit = carrying || hovered;
    let ink = if calling {
        DropInk::Alert
    } else if lit {
        DropInk::Lit
    } else {
        DropInk::Muted
    };
    DropTargetLook { ink, heavy: lit || calling, washed: carrying, repaint: calling }
}

} // verus!
