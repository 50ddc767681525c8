use vkit_viewport::backdrop::{
    drop_target_look, focus_mask_triangles, vignette_triangles, DropInk, DropTargetLook,
};

#[test]
fn the_vignette_mesh_splits_each_cell_in_two_and_closes_each_ring() {
    let triangles = vignette_triangles(2, 4);
    assert_eq!(triangles.len(), 16);
    assert_eq!(triangles[0], (0, 4, 1));
    assert_eq!(triangles[1], (1, 4, 5));
    assert_eq!(triangles[6], (3, 7, 0), "the last segment closes on the first");
    assert_eq!(triangles[7], (0, 7, 4));
    assert_eq!(triangles[8], (4, 8, 5), "the second ring starts where the first ends");
    assert_eq!(triangles[15], (4, 11, 8));
}

#[test]
fn every_vignette_corner_is_a_vertex() {
    let (rings, segments) = (24, 64);
    let vertices = (rings + 1) * segments;
    for (a, b, c) in vignette_triangles(rings, segments) {
        assert!(a < vertices && b < vertices && c < vertices);
    }
}

#[test]
fn the_focus_mask_pairs_inner_and_outer_vertices() {
    let triangles = focus_mask_triangles(3);
    assert_eq!(
        triangles,
        vec![(0, 1, 2), (2, 1, 3), (2, 3, 4), (4, 3, 5), (4, 5, 0), (0, 5, 1)]
    );
    for (a, b, c) in focus_mask_triangles(48) {
        assert!(a < 96 && b < 96 && c < 96);
    }
}

#[test]
fn a_call_for_attention_outranks_a_carried_file() {
    assert_eq!(
        drop_target_look(true, false, true),
        DropTargetLook {
            ink: DropInk::Alert,
            heavy: true,
            washed: true,
            repaint: true,
        }
    );
    assert_eq!(
        drop_target_look(false, true, false),
        DropTargetLook {
            ink: DropInk::Lit,
            heavy: true,
            washed: false,
            repaint: false,
        }
    );
    assert_eq!(
        drop_target_look(false, false, false),
        DropTargetLook {
            ink: DropInk::Muted,
            heavy: false,
            washed: false,
            repaint: false,
        }
    );
}
