use std::collections::BTreeSet;

use vstd::prelude::*;
use vstd::std_specs::iter::IteratorSpec;

use crate::gizmo::VertexOwner;
use crate::selection::{apply_pick, spec_after_pick, PickIntent};

verus! {

broadcast use {vstd::std_specs::btree::group_btree_axioms, vstd::laws_cmp::group_laws_cmp};

/// A joint of a hair strand: the part, the strand in it, and the point along
/// the strand.
pub type JointKey = (u64, u32, usize);

/// A strand of a part, with how many points it has.
pub type StrandLength = (u64, u32, usize);

/// The strands that hold some selected joint.
pub open spec fn spec_selected_strands(selection: Set<JointKey>) -> Set<(u64, u32)> {
    Set::new(|strand: (u64, u32)| exists|k: usize| selection.contains((strand.0, strand.1, k)))
}

/// Whether entry `i` of `lengths` describes a strand that holds a selected joint.
pub open spec fn selected_entry(selection: Set<JointKey>, lengths: Seq<StrandLength>, i: int) -> bool {
    0 <= i < lengths.len() && spec_selected_strands(selection).contains((lengths[i].0, lengths[i].1))
}

/// The joints the first `upto` entries of `lengths` add: every joint past the
/// root of each selected strand.
pub open spec fn spec_connected_joints(
    selection: Set<JointKey>,
    lengths: Seq<StrandLength>,
    upto: int,
) -> Set<JointKey> {
    Set::new(
        |joint: JointKey|
            exists|i: int|
                0 <= i < upto && selected_entry(selection, lengths, i) && lengths[i].0 == joint.0
                    && lengths[i].1 == joint.1 && 1 <= joint.2 < lengths[i].2,
    )
}

/// The selected strands that the first `upto` entries of `lengths` know.
pub open spec fn spec_masked_strands(
    selection: Set<JointKey>,
    lengths: Seq<StrandLength>,
    upto: int,
) -> Set<(u64, u32)> {
    Set::new(
        |strand: (u64, u32)|
            exists|i: int|
                0 <= i < upto && selected_entry(selection, lengths, i) && lengths[i].0 == strand.0
                    && lengths[i].1 == strand.1,
    )
}

/// The strands of the selected joints.
fn selected_strands(selection: &BTreeSet<JointKey>) -> (strands: BTreeSet<(u64, u32)>)
    ensures
        strands@ == spec_selected_strands(selection@),
{
    let mut strands: BTreeSet<(u64, u32)> = BTreeSet::new();
    let ghost whole = vstd::std_specs::btree::spec_btree_keys_iter(selection).remaining();
    proof {
        assert(whole.unref().to_set() == selection@);
    }
    for key in it: selection.iter()
        invariant
            it.seq() == whole,
            forall|p: u64, s: u32|
                strands@.contains((p, s)) <==> exists|i: int|
                    0 <= i < it.index() && it.seq()[i].0 == p && it.seq()[i].1 == s,
    {
        let (part, strand, _) = *key;
        strands.insert((part, strand));
    }
    proof {
        assert forall|p: u64, s: u32| strands@.contains((p, s)) <==> exists|k: usize|
            selection@.contains((p, s, k)) by {
            if strands@.contains((p, s)) {
                let i = choose|i: int| 0 <= i < whole.len() && whole[i].0 == p && whole[i].1 == s;
                assert(whole.unref()[i] == *whole[i]);
                assert(whole.unref().contains(*whole[i]));
                assert(selection@.contains((p, s, whole[i].2)));
            }
            if exists|k: usize| selection@.contains((p, s, k)) {
                let k = choose|k: usize| selection@.contains((p, s, k));
                assert(whole.unref().to_set().contains((p, s, k)));
                assert(whole.unref().contains((p, s, k)));
                let i = choose|i: int| 0 <= i < whole.unref().len() && whole.unref()[i] == (p, s, k);
                assert(*whole[i] == (p, s, k));
            }
        }
        assert forall|strand: (u64, u32)| strands@.contains(strand)
            == spec_selected_strands(selection@).contains(strand) by {
            assert(strand == (strand.0, strand.1));
        }
        assert(strands@ =~= spec_selected_strands(selection@));
    }
    strands
}

/// Selects every joint of each strand that holds a selected joint, roots
/// excepted, and hands back the strands so selected as the new strand mask.
///
/// `lengths` lists the strands of the hair, each once, with its point count;
/// a selected strand it does not list is skipped. With nothing selected the
/// selection is left alone and no mask is handed back.
pub fn select_connected(selection: &mut BTreeSet<JointKey>, lengths: &Vec<StrandLength>) -> (mask:
    Option<BTreeSet<(u64, u32)>>)
    requires
        forall|i: int, j: int|
            0 <= i < j < lengths@.len() ==> (lengths@[i].0, lengths@[i].1) != (
                lengths@[j].0,
                lengths@[j].1,
            ),
    ensures
        old(selection)@.is_empty() ==> mask is None && final(selection)@ == old(selection)@,
        !old(selection)@.is_empty() ==> {
            &&& mask is Some
            &&& final(selection)@ == old(selection)@.union(
                spec_connected_joints(old(selection)@, lengths@, lengths@.len() as int),
            )
            &&& mask->0@ == spec_masked_strands(old(selection)@, lengths@, lengths@.len() as int)
        },
{
    let strands = selected_strands(selection);
    if strands.is_empty() {
        proof {
            if !selection@.is_empty() {
                assert(exists|j: JointKey| selection@.contains(j)) by {
                    if !(exists|j: JointKey| selection@.contains(j)) {
                        assert(selection@ =~= Set::<JointKey>::empty());
                    }
                }
                let joint = choose|j: JointKey| selection@.contains(j);
                let strand: (u64, u32) = (joint.0, joint.1);
                assert(joint == (strand.0, strand.1, joint.2));
                assert(selection@.contains((strand.0, strand.1, joint.2)));
                assert(spec_selected_strands(selection@).contains(strand));
                assert(!strands@.is_empty()) by {
                    assert(!Set::<(u64, u32)>::empty().contains(strand));
                }
            }
        }
        return None;
    }
    let ghost before = selection@;
    let mut mask: BTreeSet<(u64, u32)> = BTreeSet::new();
    let mut index: usize = 0;
    while index < lengths.len()
        invariant
            index <= lengths@.len(),
            strands@ == spec_selected_strands(before),
            selection@ == before.union(spec_connected_joints(before, lengths@, index as int)),
            mask@ == spec_masked_strands(before, lengths@, index as int),
        decreases lengths@.len() - index,
    {
        let (part, strand, points) = lengths[index];
        let ghost mid = selection@;
        let ghost chosen = spec_selected_strands(before).contains((part, strand));
        let ghost extra: Set<JointKey> = if chosen {
            Set::new(|joint: JointKey| joint.0 == part && joint.1 == strand && 1 <= joint.2 < points)
        } else {
            Set::empty()
        };
        if strands.contains(&(part, strand)) {
            let mut point: usize = 1;
            while point < points
                invariant
                    1 <= point,
                    point <= points || point == 1,
                    selection@ == mid.union(
                        Set::new(|joint: JointKey| joint.0 == part && joint.1 == strand && 1 <= joint.2 < point),
                    ),
                decreases points - point,
            {
                selection.insert((part, strand, point));
                assert(selection@ =~= mid.union(
                    Set::new(|joint: JointKey| joint.0 == part && joint.1 == strand && 1 <= joint.2 < point + 1),
                ));
                point += 1;
            }
            assert(selection@ =~= mid.union(extra));
            mask.insert((part, strand));
        } else {
            assert(selection@ =~= mid.union(extra));
        }
        proof {
            let next = spec_connected_joints(before, lengths@, index + 1);
            let earlier = spec_connected_joints(before, lengths@, index as int);
            assert forall|joint: JointKey| #[trigger] selection@.contains(joint) == before.union(next).contains(
                joint,
            ) by {
                if next.contains(joint) {
                    let i = choose|i: int|
                        0 <= i < index + 1 && selected_entry(before, lengths@, i) && lengths@[i].0
                            == joint.0 && lengths@[i].1 == joint.1 && 1 <= joint.2 < lengths@[i].2;
                    if i < index {
                        assert(earlier.contains(joint));
                    } else {
                        assert(extra.contains(joint));
                    }
                }
                if earlier.contains(joint) {
                    let i = choose|i: int|
                        0 <= i < index && selected_entry(before, lengths@, i) && lengths@[i].0 == joint.0
                            && lengths@[i].1 == joint.1 && 1 <= joint.2 < lengths@[i].2;
                    assert(next.contains(joint));
                }
                if extra.contains(joint) {
                    assert(selected_entry(before, lengths@, index as int));
                    assert(next.contains(joint));
                }
            }
            assert(selection@ =~= before.union(next));
            let masked_next = spec_masked_strands(before, lengths@, index + 1);
            let masked = spec_masked_strands(before, lengths@, index as int);
            assert forall|ps: (u64, u32)| #[trigger] mask@.contains(ps) == masked_next.contains(ps) by {
                if masked_next.contains(ps) {
                    let i = choose|i: int|
                        0 <= i < index + 1 && selected_entry(before, lengths@, i) && lengths@[i].0 == ps.0
                            && lengths@[i].1 == ps.1;
                    if i < index {
                        assert(masked.contains(ps));
                    } else {
                        assert(ps == (part, strand));
                    }
                }
                if masked.contains(ps) {
                    let i = choose|i: int|
                        0 <= i < index && selected_entry(before, lengths@, i) && lengths@[i].0 == ps.0
                            && lengths@[i].1 == ps.1;
                    assert(masked_next.contains(ps));
                }
                if chosen && ps == (part, strand) {
                    assert(selected_entry(before, lengths@, index as int));
                    assert(masked_next.contains(ps));
                }
            }
            assert(mask@ =~= masked_next);
        }
        index += 1;
    }
    Some(mask)
}

/// Selecting the connected joints a second time changes nothing: the
/// joints it added belong to strands that were already selected, so the
/// selection and the strand mask come out as they were.
pub proof fn lemma_selecting_connected_twice_changes_nothing(selection: Set<JointKey>, lengths: Seq<StrandLength>)
    ensures
        ({
            let once = selection.union(spec_connected_joints(selection, lengths, lengths.len() as int));
            &&& spec_selected_strands(once) == spec_selected_strands(selection)
            &&& once.union(spec_connected_joints(once, lengths, lengths.len() as int)) == once
            &&& spec_masked_strands(once, lengths, lengths.len() as int) == spec_masked_strands(
                selection,
                lengths,
                lengths.len() as int,
            )
        }),
{
    let added = spec_connected_joints(selection, lengths, lengths.len() as int);
    let once = selection.union(added);
    assert forall|strand: (u64, u32)| spec_selected_strands(once).contains(strand) implies spec_selected_strands(
        selection,
    ).contains(strand) by {
        let k = choose|k: usize| once.contains((strand.0, strand.1, k));
        if added.contains((strand.0, strand.1, k)) {
            let i = choose|i: int|
                0 <= i < lengths.len() && selected_entry(selection, lengths, i) && lengths[i].0 == strand.0
                    && lengths[i].1 == strand.1 && 1 <= k < lengths[i].2;
            assert(spec_selected_strands(selection).contains((lengths[i].0, lengths[i].1)));
        }
    }
    assert forall|strand: (u64, u32)| spec_selected_strands(selection).contains(strand) implies spec_selected_strands(
        once,
    ).contains(strand) by {
        let k = choose|k: usize| selection.contains((strand.0, strand.1, k));
        assert(once.contains((strand.0, strand.1, k)));
    }
    assert(spec_selected_strands(once) =~= spec_selected_strands(selection));
    assert forall|i: int| selected_entry(once, lengths, i) == selected_entry(selection, lengths, i) by {}
    assert(spec_connected_joints(once, lengths, lengths.len() as int) =~= added);
    assert(once.union(added) =~= once);
    assert(spec_masked_strands(once, lengths, lengths.len() as int) =~= spec_masked_strands(
        selection,
        lengths,
        lengths.len() as int,
    ));
}

/// The strand with point `point` moved to `wanted`, or `None` when `point`
/// is the root, which stays where it was planted, or past the tip.
pub fn move_strand_point<P: Copy>(points: &[P], point: usize, wanted: P) -> (result: Option<Vec<P>>)
    ensures
        result is Some <==> 1 <= point < points@.len(),
        result is Some ==> result->0@ == points@.update(point as int, wanted),
{
    if point == 0 || point >= points.len() {
        return None;
    }
    let mut moved: Vec<P> = Vec::new();
    let mut index: usize = 0;
    while index < points.len()
        invariant
            1 <= point < points@.len(),
            index <= points@.len(),
            moved@ == points@.update(point as int, wanted).subrange(0, index as int),
        decreases points@.len() - index,
    {
        if index == point {
            moved.push(wanted);
        } else {
            moved.push(points[index]);
        }
        index += 1;
    }
    Some(moved)
}

/// A strand after the moves of `moves`, taken in order, each putting one
/// point somewhere new; a move of the root or past the tip is skipped.
pub open spec fn spec_moved_strand<P>(points: Seq<P>, moves: Seq<(usize, P)>) -> Seq<P>
    decreases moves.len(),
{
    if moves.len() == 0 {
        points
    } else {
        let before = spec_moved_strand(points, moves.drop_last());
        let (point, wanted) = moves.last();
        if 1 <= point < before.len() {
            before.update(point as int, wanted)
        } else {
            before
        }
    }
}

proof fn lemma_moved_strand_keeps_its_length<P>(points: Seq<P>, moves: Seq<(usize, P)>)
    ensures
        spec_moved_strand(points, moves).len() == points.len(),
    decreases moves.len(),
{
    if moves.len() > 0 {
        lemma_moved_strand_keeps_its_length(points, moves.drop_last());
    }
}

/// Moves the points of one strand, one move after another.
pub fn move_strand_points<P: Copy>(points: &Vec<P>, moves: &Vec<(usize, P)>) -> (result: Vec<P>)
    ensures
        result@ == spec_moved_strand(points@, moves@),
        result@.len() == points@.len(),
{
    let mut moved: Vec<P> = Vec::new();
    let mut copied: usize = 0;
    while copied < points.len()
        invariant
            copied <= points@.len(),
            moved@ == points@.subrange(0, copied as int),
        decreases points@.len() - copied,
    {
        moved.push(points[copied]);
        copied += 1;
    }
    let mut index: usize = 0;
    proof {
        assert(moved@ =~= points@);
        assert(moves@.subrange(0, 0) =~= Seq::<(usize, P)>::empty());
    }
    while index < moves.len()
        invariant
            index <= moves@.len(),
            moved@ == spec_moved_strand(points@, moves@.subrange(0, index as int)),
        decreases moves@.len() - index,
    {
        let (point, wanted) = moves[index];
        proof {
            assert(moves@.subrange(0, index + 1).drop_last() =~= moves@.subrange(0, index as int));
            lemma_moved_strand_keeps_its_length(points@, moves@.subrange(0, index as int));
        }
        if let Some(next) = move_strand_point(moved.as_slice(), point, wanted) {
            moved = next;
        }
        index += 1;
    }
    proof {
        assert(moves@.subrange(0, moves@.len() as int) =~= moves@);
        lemma_moved_strand_keeps_its_length(points@, moves@);
    }
    moved
}

/// The strand across the head that a moved strand drags along under mirror
/// editing: its scalp vertex's partner, when the partner is another vertex
/// and holds a strand of the part.
///
/// `mirror_pair` gives each scalp vertex's partner, and `planted` the scalp
/// vertices of the part that hold a strand.
pub fn strand_mirror_partner(
    strand: u32,
    mirror_edit: bool,
    mirror_pair: &Vec<u32>,
    planted: &BTreeSet<u32>,
) -> (result: Option<u32>)
    ensures
        result == (if mirror_edit && (strand as int) < mirror_pair@.len() && mirror_pair@[strand as int]
            != strand && planted@.contains(mirror_pair@[strand as int]) {
            Some(mirror_pair@[strand as int])
        } else {
            None
        }),
{
    if !mirror_edit || strand as usize >= mirror_pair.len() {
        return None;
    }
    let pair = mirror_pair[strand as usize];
    if pair != strand && planted.contains(&pair) {
        Some(pair)
    } else {
        None
    }
}

/// The edges of a face, corner to corner round the face and back from the
/// last corner to the first.
pub fn polygon_edges(corners: &Vec<u32>) -> (result: Vec<(u32, u32)>)
    ensures
        result@.len() == corners@.len(),
        forall|i: int|
            0 <= i < corners@.len() ==> #[trigger] result@[i] == (corners@[i], corners@[(i + 1) % (
            corners@.len() as int)]),
{
    let mut edges: Vec<(u32, u32)> = Vec::new();
    let count = corners.len();
    let mut step: usize = 0;
    while step < count
        invariant
            count == corners@.len(),
            step <= count,
            edges@.len() == step,
            forall|i: int|
                0 <= i < step ==> #[trigger] edges@[i] == (corners@[i], corners@[(i + 1) % (count as int)]),
        decreases count - step,
    {
        let next = if step + 1 == count {
            0
        } else {
            step + 1
        };
        proof {
            if step + 1 == count {
                vstd::arithmetic::div_mod::lemma_fundamental_div_mod_converse(step + 1, count as int, 1, 0);
            } else {
                vstd::arithmetic::div_mod::lemma_fundamental_div_mod_converse(step + 1, count as int, 0, step + 1);
            }
        }
        edges.push((corners[step], corners[next]));
        step += 1;
    }
    edges
}

/// Which joints and segments of a strand's stream are drawn as selected.
pub struct StreamMarks {
    /// One flag a joint: the joint is selected.
    pub picked: Vec<bool>,
    /// One flag a segment: both of its joints are selected.
    pub joined: Vec<bool>,
}

/// The selected joints and segments of strand `strand` of part `part`, a
/// strand of `points` joints: a segment is drawn as selected only when the
/// joints at both of its ends are.
pub fn stream_marks(part: u64, strand: u32, points: usize, selection: &BTreeSet<JointKey>) -> (result:
    StreamMarks)
    ensures
        result.picked@.len() == points,
        forall|i: int| 0 <= i < points ==> #[trigger] result.picked@[i] == selection@.contains((part, strand, i as usize)),
        result.joined@.len() == if points == 0 {
            0
        } else {
            points - 1
        },
        forall|i: int|
            0 <= i < result.joined@.len() ==> #[trigger] result.joined@[i] == (result.picked@[i]
                && result.picked@[i + 1]),
{
    let mut picked: Vec<bool> = Vec::new();
    let mut index: usize = 0;
    while index < points
        invariant
            index <= points,
            picked@.len() == index,
            forall|i: int| 0 <= i < index ==> #[trigger] picked@[i] == selection@.contains((part, strand, i as usize)),
        decreases points - index,
    {
        picked.push(selection.contains(&(part, strand, index)));
        index += 1;
    }
    let mut joined: Vec<bool> = Vec::new();
    let mut segment: usize = 0;
    while segment + 1 < points
        invariant
            picked@.len() == points,
            segment <= if points == 0 {
                0
            } else {
                points - 1
            },
            joined@.len() == segment,
            forall|i: int| 0 <= i < segment ==> #[trigger] joined@[i] == (picked@[i] && picked@[i + 1]),
        decreases points - segment,
    {
        joined.push(picked[segment] && picked[segment + 1]);
        segment += 1;
    }
    StreamMarks { picked, joined }
}

/// What a frame of picking and dragging points does.
#[derive(Clone, Copy, Debug, PartialEq, Eq, Structural, Hash)]
pub struct VertexPickStep {
    /// Forget which strands the joint selection masks.
    pub clear_strand_mask: bool,
    /// Open a sculpt step for the drag that starts on a point.
    pub begin_stroke: bool,
    /// Close the edit the drag had open.
    pub end_stroke: bool,
    /// Move the selection with the pointer.
    pub move_selection: bool,
}

/// A frame of picking and dragging points, hair joints or sculpt vertices.
///
/// At the moment of a press that starts a drag, or of a plain click, the
/// point under the pointer is picked with the held keys' intent. A pick that
/// finds nothing ends the frame, and for the hair a plain miss also forgets
/// the strand mask. A drag that starts on a sculpt vertex opens a sculpt
/// step. Then, with points selected, a drag moves them, and the end of a drag
/// closes the edit.
pub fn vertex_pick_step<T: Ord + Copy>(
    owner: VertexOwner,
    selection: &mut BTreeSet<T>,
    pick_moment: bool,
    picked: Option<T>,
    intent: PickIntent,
    editing: bool,
    drag_stopped: bool,
) -> (result: VertexPickStep)
    requires
        vstd::laws_cmp::obeys_cmp::<T>(),
    ensures
        final(selection)@ == (if pick_moment {
            spec_after_pick(old(selection)@, picked, intent)
        } else {
            old(selection)@
        }),
        pick_moment && picked is None ==> result == (VertexPickStep {
            clear_strand_mask: owner == VertexOwner::Hair && intent == PickIntent::Replace,
            begin_stroke: false,
            end_stroke: false,
            move_selection: false,
        }),
        !(pick_moment && picked is None) ==> result == (VertexPickStep {
            clear_strand_mask: false,
            begin_stroke: pick_moment && owner == VertexOwner::Sculpt && editing,
            end_stroke: !final(selection)@.is_empty() && !editing && drag_stopped,
            move_selection: !final(selection)@.is_empty() && editing,
        }),
{
    let mut begin_stroke = false;
    if pick_moment {
        let took_one = picked.is_some();
        apply_pick(selection, picked, intent);
        if !took_one {
            return VertexPickStep {
                clear_strand_mask: owner == VertexOwner::Hair && intent == PickIntent::Replace,
                begin_stroke: false,
                end_stroke: false,
                move_selection: false,
            };
        }
        begin_stroke = owner == VertexOwner::Sculpt && editing;
    }
    let holding = !selection.is_empty();
    VertexPickStep {
        clear_strand_mask: false,
        begin_stroke,
        end_stroke: holding && !editing && drag_stopped,
        move_selection: holding && editing,
    }
}

} // verus!
