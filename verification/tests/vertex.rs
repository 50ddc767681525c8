use std::collections::BTreeSet;

use vkit_viewport::gizmo::VertexOwner;
use vkit_viewport::selection::PickIntent;
use vkit_viewport::vertex::{
    move_strand_point, move_strand_points, polygon_edges, select_connected, strand_mirror_partner,
    stream_marks, vertex_pick_step, VertexPickStep,
};

#[test]
fn selecting_connected_fills_each_touched_strand_past_its_root() {
    let mut selection: BTreeSet<(u64, u32, usize)> = BTreeSet::new();
    selection.insert((7, 2, 3));
    let lengths = vec![(7, 1, 5), (7, 2, 4), (9, 0, 3)];
    let mask = select_connected(&mut selection, &lengths).expect("a mask");
    let expected: BTreeSet<(u64, u32, usize)> =
        [(7, 2, 1), (7, 2, 2), (7, 2, 3)].into_iter().collect();
    assert_eq!(selection, expected);
    let strands: BTreeSet<(u64, u32)> = [(7, 2)].into_iter().collect();
    assert_eq!(mask, strands);
}

#[test]
fn selecting_connected_keeps_a_selected_root_and_spans_several_parts() {
    let mut selection: BTreeSet<(u64, u32, usize)> = BTreeSet::new();
    selection.insert((1, 0, 0));
    selection.insert((2, 5, 2));
    let lengths = vec![(1, 0, 3), (2, 5, 3)];
    let mask = select_connected(&mut selection, &lengths).expect("a mask");
    let expected: BTreeSet<(u64, u32, usize)> =
        [(1, 0, 0), (1, 0, 1), (1, 0, 2), (2, 5, 1), (2, 5, 2)].into_iter().collect();
    assert_eq!(selection, expected);
    let strands: BTreeSet<(u64, u32)> = [(1, 0), (2, 5)].into_iter().collect();
    assert_eq!(mask, strands);
}

#[test]
fn selecting_connected_skips_a_strand_the_hair_no_longer_has() {
    let mut selection: BTreeSet<(u64, u32, usize)> = BTreeSet::new();
    selection.insert((3, 3, 1));
    let lengths = vec![(3, 4, 6)];
    let mask = select_connected(&mut selection, &lengths).expect("a mask");
    let expected: BTreeSet<(u64, u32, usize)> = [(3, 3, 1)].into_iter().collect();
    assert_eq!(selection, expected);
    assert!(mask.is_empty());
}

#[test]
fn selecting_connected_with_nothing_selected_changes_nothing() {
    let mut selection: BTreeSet<(u64, u32, usize)> = BTreeSet::new();
    let lengths = vec![(3, 4, 6)];
    assert_eq!(select_connected(&mut selection, &lengths), None);
    assert!(selection.is_empty());
}

#[test]
fn a_plain_miss_on_the_hair_clears_the_selection_and_the_strand_mask() {
    let mut selection: BTreeSet<u32> = [4, 5].into_iter().collect();
    let step = vertex_pick_step(
        VertexOwner::Hair,
        &mut selection,
        true,
        None,
        PickIntent::Replace,
        false,
        false,
    );
    assert!(selection.is_empty());
    assert_eq!(
        step,
        VertexPickStep {
            clear_strand_mask: true,
            begin_stroke: false,
            end_stroke: false,
            move_selection: false,
        }
    );
}

#[test]
fn a_toggle_miss_keeps_the_selection_and_the_mask() {
    let mut selection: BTreeSet<u32> = [4].into_iter().collect();
    let step = vertex_pick_step(
        VertexOwner::Hair,
        &mut selection,
        true,
        None,
        PickIntent::Toggle,
        true,
        false,
    );
    assert_eq!(selection, [4].into_iter().collect());
    assert!(!step.clear_strand_mask);
    assert!(!step.move_selection);
}

#[test]
fn a_drag_from_a_sculpt_vertex_opens_a_step_and_moves_it() {
    let mut selection: BTreeSet<u32> = [1, 2].into_iter().collect();
    let step = vertex_pick_step(
        VertexOwner::Sculpt,
        &mut selection,
        true,
        Some(9),
        PickIntent::Replace,
        true,
        false,
    );
    assert_eq!(selection, [9].into_iter().collect());
    assert_eq!(
        step,
        VertexPickStep {
            clear_strand_mask: false,
            begin_stroke: true,
            end_stroke: false,
            move_selection: true,
        }
    );
}

#[test]
fn the_end_of_a_drag_closes_the_edit() {
    let mut selection: BTreeSet<u32> = [3].into_iter().collect();
    let step = vertex_pick_step(
        VertexOwner::Hair,
        &mut selection,
        false,
        None,
        PickIntent::Replace,
        false,
        true,
    );
    assert_eq!(selection, [3].into_iter().collect());
    assert!(step.end_stroke);
    assert!(!step.begin_stroke);
    assert!(!step.move_selection);
}

#[test]
fn a_toggle_pick_takes_out_a_selected_point() {
    let mut selection: BTreeSet<u32> = [3, 6].into_iter().collect();
    let step = vertex_pick_step(
        VertexOwner::Hair,
        &mut selection,
        true,
        Some(3),
        PickIntent::Toggle,
        false,
        false,
    );
    assert_eq!(selection, [6].into_iter().collect());
    assert!(!step.begin_stroke);
    assert!(!step.end_stroke);
}

#[test]
fn selecting_connected_twice_is_the_same_as_once() {
    let mut selection: BTreeSet<(u64, u32, usize)> = BTreeSet::new();
    selection.insert((4, 1, 2));
    selection.insert((5, 0, 1));
    let lengths = vec![(4, 1, 5), (5, 0, 2), (6, 3, 4)];
    let first = select_connected(&mut selection, &lengths);
    let after_once = selection.clone();
    let second = select_connected(&mut selection, &lengths);
    assert_eq!(selection, after_once);
    assert_eq!(first, second);
}

#[test]
fn a_strand_point_moves_but_the_root_stays_planted() {
    let points: Vec<[f32; 3]> = vec![[0.0, 0.0, 0.0], [0.0, 1.0, 0.0], [0.0, 2.0, 0.0]];
    let moved = move_strand_point(&points, 2, [1.0, 2.0, 0.5]).expect("a point past the root moves");
    assert_eq!(moved, vec![[0.0, 0.0, 0.0], [0.0, 1.0, 0.0], [1.0, 2.0, 0.5]]);
    assert_eq!(move_strand_point(&points, 0, [9.0, 9.0, 9.0]), None);
    assert_eq!(move_strand_point(&points, 3, [9.0, 9.0, 9.0]), None);
}

#[test]
fn moves_land_in_order_and_skip_the_root() {
    let points: Vec<[f32; 3]> = vec![[0.0; 3], [0.0, 1.0, 0.0], [0.0, 2.0, 0.0]];
    let moves = vec![(1, [0.5, 1.0, 0.0]), (0, [7.0, 7.0, 7.0]), (1, [0.25, 1.0, 0.0]), (5, [1.0; 3])];
    assert_eq!(
        move_strand_points(&points, &moves),
        vec![[0.0; 3], [0.25, 1.0, 0.0], [0.0, 2.0, 0.0]]
    );
}

#[test]
fn a_mirrored_strand_drags_its_planted_partner_along() {
    let mirror_pair = vec![3, 1, 2, 0];
    let planted: BTreeSet<u32> = [0, 1, 3].into_iter().collect();
    assert_eq!(strand_mirror_partner(0, true, &mirror_pair, &planted), Some(3));
    assert_eq!(strand_mirror_partner(0, false, &mirror_pair, &planted), None);
    assert_eq!(strand_mirror_partner(1, true, &mirror_pair, &planted), None, "a midline strand is its own partner");
    assert_eq!(strand_mirror_partner(3, true, &mirror_pair, &BTreeSet::new()), None);
    assert_eq!(strand_mirror_partner(9, true, &mirror_pair, &planted), None);
}

#[test]
fn a_face_closes_on_its_first_corner() {
    assert_eq!(polygon_edges(&vec![4, 9, 2]), vec![(4, 9), (9, 2), (2, 4)]);
    assert_eq!(polygon_edges(&vec![1, 2, 3, 5]), vec![(1, 2), (2, 3), (3, 5), (5, 1)]);
    assert!(polygon_edges(&Vec::new()).is_empty());
}

#[test]
fn a_stream_segment_lights_only_between_two_selected_joints() {
    let selection: BTreeSet<(u64, u32, usize)> =
        [(2, 5, 1), (2, 5, 2), (2, 5, 4), (2, 6, 3)].into_iter().collect();
    let marks = stream_marks(2, 5, 5, &selection);
    assert_eq!(marks.picked, vec![false, true, true, false, true]);
    assert_eq!(marks.joined, vec![false, true, false, false]);
    assert!(stream_marks(2, 5, 0, &selection).joined.is_empty());
}
