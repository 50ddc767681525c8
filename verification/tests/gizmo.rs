use vkit_viewport::gizmo::{
    alignment_gizmo_step, gizmo_axis, gizmo_hit, rotation_snap_step, vertex_gizmo_handles,
    vertex_gizmo_step, vertex_rotate_mode_change, Axis, GizmoCursor, GizmoHandles, GizmoHit,
    GizmoInput, StrokeEnd, VertexGizmoStep, VertexOwner,
};
use vkit_viewport::scene::ControlMode;

#[test]
fn unified_gizmo_hit_math_keeps_move_rotate_and_center_scale_live_together() {
    let all = GizmoHandles::all();
    assert_eq!(gizmo_hit(all, true, Some(0), None, false), Some(GizmoHit::Scale));
    assert_eq!(gizmo_hit(all, false, Some(0), None, false), Some(GizmoHit::Move(0)));
    assert_eq!(gizmo_hit(all, false, None, Some(0), false), Some(GizmoHit::Rotate(0)));
    assert_eq!(gizmo_hit(all, false, Some(1), Some(2), true), Some(GizmoHit::Rotate(2)));
    assert_eq!(gizmo_hit(all, false, Some(1), Some(2), false), Some(GizmoHit::Move(1)), "a tie goes to the arrow");
    assert_eq!(gizmo_hit(all, false, None, None, false), None);
}

#[test]
fn a_single_point_offers_neither_a_ring_nor_a_scale_grip() {
    let one = vertex_gizmo_handles(1);
    assert_eq!(one, GizmoHandles::move_only());
    assert_eq!(gizmo_hit(one, true, None, Some(0), true), None);
    assert_eq!(gizmo_hit(one, true, Some(2), Some(0), true), Some(GizmoHit::Move(2)));
    assert_eq!(vertex_gizmo_handles(2), GizmoHandles::all());
}

#[test]
fn rotation_snap_uses_accumulated_drag_without_drift_and_shift_wins() {
    assert_eq!(rotation_snap_step(false, false), None);
    assert_eq!(rotation_snap_step(false, true), Some(1));
    assert_eq!(rotation_snap_step(true, false), Some(90));
    assert_eq!(rotation_snap_step(true, true), Some(90));
}

#[test]
fn each_axis_wears_its_own_colour() {
    assert_eq!(gizmo_axis(0), Axis::X);
    assert_eq!(gizmo_axis(1), Axis::Y);
    assert_eq!(gizmo_axis(2), Axis::Z);
    assert_eq!(gizmo_axis(7), Axis::Z);
}

fn input() -> GizmoInput {
    GizmoInput {
        available: true,
        drag_held: false,
        pointer_present: true,
        pointer_in_viewport: true,
        over_tools: false,
        primary_pressed: true,
        primary_down: true,
        primary_released: false,
        grip_under_pointer: true,
        grab_would_begin: true,
    }
}

#[test]
fn a_press_on_a_grip_grabs_and_moves_the_scan() {
    let step = alignment_gizmo_step(&input());
    assert!(step.begin_drag && step.apply_drag && step.captured);
    assert_eq!(step.cursor, GizmoCursor::Grabbing);
    assert!(!step.commit_transform);
    let over_tools = alignment_gizmo_step(&GizmoInput { over_tools: true, ..input() });
    assert!(!over_tools.begin_drag && !over_tools.captured);
    assert_eq!(over_tools.cursor, GizmoCursor::Untouched);
}

#[test]
fn a_gizmo_drag_ends_with_the_button() {
    let release = GizmoInput {
        drag_held: true,
        primary_pressed: false,
        primary_down: false,
        primary_released: true,
        ..input()
    };
    let step = alignment_gizmo_step(&release);
    assert!(step.commit_transform && step.drop_drag && !step.apply_drag);
    let gone = alignment_gizmo_step(&GizmoInput { available: false, ..release });
    assert!(gone.cancel_transform && gone.drop_drag && !gone.commit_transform);
    let hover = GizmoInput { primary_pressed: false, primary_down: false, ..input() };
    assert_eq!(alignment_gizmo_step(&hover).cursor, GizmoCursor::Grab);
}

#[test]
fn a_vertex_grab_follows_the_drag_and_closes_the_edit() {
    assert_eq!(vertex_gizmo_step(true, true, false, false), VertexGizmoStep::Apply);
    assert_eq!(vertex_gizmo_step(true, false, false, true), VertexGizmoStep::Release);
    assert_eq!(vertex_gizmo_step(false, true, true, true), VertexGizmoStep::Grab);
    assert_eq!(vertex_gizmo_step(false, true, true, false), VertexGizmoStep::Pass);
    assert!(VertexOwner::Sculpt.begins_stroke());
    assert!(!VertexOwner::Hair.begins_stroke());
    assert_eq!(VertexOwner::Hair.end_action(), StrokeEnd::EndHairStroke);
    assert_eq!(VertexOwner::Sculpt.end_action(), StrokeEnd::EndSculptStroke);
}

#[test]
fn the_rotate_key_switches_the_camera_mode_once() {
    assert_eq!(vertex_rotate_mode_change(true, ControlMode::Orbit), Some(ControlMode::VertexRotate));
    assert_eq!(vertex_rotate_mode_change(true, ControlMode::VertexRotate), None);
    assert_eq!(vertex_rotate_mode_change(false, ControlMode::VertexRotate), Some(ControlMode::Orbit));
}
