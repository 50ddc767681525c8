use vstd::prelude::*;

use crate::scene::ControlMode;

verus! {

/// Which grips a transform gizmo offers besides its arrows.
#[derive(Clone, Copy, Debug, PartialEq, Eq, Structural, Hash)]
pub struct GizmoHandles {
    /// The rings that turn the selection.
    pub rotate: bool,
    /// The centre grip that scales it.
    pub scale: bool,
}

impl GizmoHandles {
    /// Arrows, rings and the scale grip.
    pub fn all() -> (result: GizmoHandles)
        ensures
            result.rotate && result.scale,
    {
        GizmoHandles { rotate: true, scale: true }
    }

    /// The arrows alone.
    pub fn move_only() -> (result: GizmoHandles)
        ensures
            !result.rotate && !result.scale,
    {
        GizmoHandles { rotate: false, scale: false }
    }
}

/// The grip of a gizmo a press lands on.
#[derive(Clone, Copy, Debug, PartialEq, Eq, Structural, Hash)]
pub enum GizmoHit {
    /// The arrow along an axis.
    Move(usize),
    /// The ring about an axis.
    Rotate(usize),
    /// The centre grip.
    Scale,
}

/// The grip under the pointer, from what the geometry found there.
pub open spec fn spec_gizmo_hit(
    handles: GizmoHandles,
    on_scale_grip: bool,
    nearest_arrow: Option<usize>,
    nearest_ring: Option<usize>,
    ring_closer: bool,
) -> Option<GizmoHit> {
    let ring = if handles.rotate {
        nearest_ring
    } else {
        None
    };
    if handles.scale && on_scale_grip {
        Some(GizmoHit::Scale)
    } else {
        match (nearest_arrow, ring) {
            (Some(arrow), Some(axis)) => if ring_closer {
                Some(GizmoHit::Rotate(axis))
            } else {
                Some(GizmoHit::Move(arrow))
            },
            (Some(arrow), None) => Some(GizmoHit::Move(arrow)),
            (None, Some(axis)) => Some(GizmoHit::Rotate(axis)),
            (None, None) => None,
        }
    }
}

/// Which grip of a gizmo the pointer takes.
///
/// `on_scale_grip` says the pointer is within reach of the centre grip,
/// `nearest_arrow` and `nearest_ring` name the closest arrow and ring within
/// reach, and `ring_closer` that the ring is strictly nearer than the arrow.
/// The centre grip wins whenever it is offered and reached; between an arrow
/// and a ring the nearer wins, a tie going to the arrow; rings count only
/// when the gizmo offers them.
pub fn gizmo_hit(
    handles: GizmoHandles,
    on_scale_grip: bool,
    nearest_arrow: Option<usize>,
    nearest_ring: Option<usize>,
    ring_closer: bool,
) -> (result: Option<GizmoHit>)
    ensures
        result == spec_gizmo_hit(handles, on_scale_grip, nearest_arrow, nearest_ring, ring_closer),
{
    if handles.scale && on_scale_grip {
        return Some(GizmoHit::Scale);
    }
    let ring = if handles.rotate {
        nearest_ring
    } else {
        None
    };
    match (nearest_arrow, ring) {
        (Some(arrow), Some(axis)) => {
            if ring_closer {
                Some(GizmoHit::Rotate(axis))
            } else {
                Some(GizmoHit::Move(arrow))
            }
        },
        (Some(arrow), None) => Some(GizmoHit::Move(arrow)),
        (None, Some(axis)) => Some(GizmoHit::Rotate(axis)),
        (None, None) => None,
    }
}

/// A gizmo that offers only its arrows can only be moved: no press on it
/// turns or scales, wherever it lands.
pub proof fn lemma_a_move_only_gizmo_only_moves(
    on_scale_grip: bool,
    nearest_arrow: Option<usize>,
    nearest_ring: Option<usize>,
    ring_closer: bool,
)
    ensures
        match spec_gizmo_hit(
            GizmoHandles { rotate: false, scale: false },
            on_scale_grip,
            nearest_arrow,
            nearest_ring,
            ring_closer,
        ) {
            Some(GizmoHit::Move(axis)) => nearest_arrow == Some(axis),
            Some(_) => false,
            None => nearest_arrow is None,
        },
{
}

/// The step a turning drag snaps to, in degrees: `Shift` snaps to quarter
/// turns and wins over `Ctrl`, which snaps to whole degrees; with neither the
/// turn is free.
pub fn rotation_snap_step(shift_down: bool, ctrl_down: bool) -> (result: Option<u32>)
    ensures
        result == (if shift_down {
            Some(90u32)
        } else if ctrl_down {
            Some(1u32)
        } else {
            None
        }),
{
    if shift_down {
        Some(90)
    } else if ctrl_down {
        Some(1)
    } else {
        None
    }
}

/// The world axes, each painted in its own colour.
#[derive(Clone, Copy, Debug, PartialEq, Eq, Structural, Hash)]
pub enum Axis {
    X,
    Y,
    Z,
}

/// The axis whose colour a gizmo part of index `axis` wears: the first is X,
/// the second Y, and every other Z.
pub fn gizmo_axis(axis: usize) -> (result: Axis)
    ensures
        result == (if axis == 0 {
            Axis::X
        } else if axis == 1 {
            Axis::Y
        } else {
            Axis::Z
        }),
{
    match axis {
        0 => Axis::X,
        1 => Axis::Y,
        _ => Axis::Z,
    }
}

/// What the alignment gizmo reads of a frame.
#[derive(Clone, Copy, Debug, PartialEq, Eq, Structural, Hash)]
pub struct GizmoInput {
    /// Nothing is busy, a scan is loaded and the gizmo has a shape on screen.
    pub available: bool,
    /// A drag was held from an earlier frame.
    pub drag_held: bool,
    /// The pointer is somewhere on the screen.
    pub pointer_present: bool,
    /// The pointer is inside the viewport.
    pub pointer_in_viewport: bool,
    /// The pointer is over the viewport tools.
    pub over_tools: bool,
    pub primary_pressed: bool,
    pub primary_down: bool,
    pub primary_released: bool,
    /// Some grip is under the pointer.
    pub grip_under_pointer: bool,
    /// A drag would start if the press began one here.
    pub grab_would_begin: bool,
}

/// The pointer the gizmo asks for.
#[derive(Clone, Copy, Debug, PartialEq, Eq, Structural, Hash)]
pub enum GizmoCursor {
    /// The gizmo leaves the cursor alone.
    Untouched,
    /// An open hand over a grip or a held drag.
    Grab,
    /// A closed hand while the drag moves the scan.
    Grabbing,
}

/// What the alignment gizmo does in a frame.
#[derive(Clone, Copy, Debug, PartialEq, Eq, Structural, Hash)]
pub struct GizmoStep {
    /// Cancel the transform a held drag had opened.
    pub cancel_transform: bool,
    /// Start a drag and open a transform.
    pub begin_drag: bool,
    /// Move the scan after the pointer.
    pub apply_drag: bool,
    /// Forget the held drag.
    pub drop_drag: bool,
    /// Commit the open transform.
    pub commit_transform: bool,
    pub cursor: GizmoCursor,
    /// The gizmo took the pointer from the camera.
    pub captured: bool,
}

/// Whether the gizmo starts a drag this frame.
pub open spec fn spec_gizmo_begins(input: GizmoInput) -> bool {
    &&& input.available
    &&& !input.drag_held
    &&& input.primary_pressed
    &&& !input.over_tools
    &&& input.pointer_present
    &&& input.pointer_in_viewport
    &&& input.grab_would_begin
}

/// Whether a drag is live this frame, held or just begun.
pub open spec fn spec_gizmo_active(input: GizmoInput) -> bool {
    input.available && (input.drag_held || spec_gizmo_begins(input))
}

/// The cursor the gizmo asks for: a closed hand while a drag moves the scan,
/// an open hand over a live drag or over a grip it could take.
pub open spec fn spec_gizmo_cursor(input: GizmoInput) -> GizmoCursor {
    if input.primary_down && spec_gizmo_active(input) && input.pointer_present {
        GizmoCursor::Grabbing
    } else if spec_gizmo_active(input) {
        GizmoCursor::Grab
    } else if !input.over_tools && input.pointer_present && input.grip_under_pointer {
        GizmoCursor::Grab
    } else {
        GizmoCursor::Untouched
    }
}

/// The alignment gizmo's frame, as a function of what it reads.
pub open spec fn spec_alignment_gizmo_step(input: GizmoInput) -> GizmoStep {
    if !input.available {
        GizmoStep {
            cancel_transform: input.drag_held,
            begin_drag: false,
            apply_drag: false,
            drop_drag: input.drag_held,
            commit_transform: false,
            cursor: GizmoCursor::Untouched,
            captured: false,
        }
    } else {
        let ends = input.primary_released || (!input.primary_down && spec_gizmo_active(input));
        GizmoStep {
            cancel_transform: false,
            begin_drag: spec_gizmo_begins(input),
            apply_drag: input.primary_down && spec_gizmo_active(input) && input.pointer_present,
            drop_drag: ends,
            commit_transform: ends,
            cursor: spec_gizmo_cursor(input),
            captured: spec_gizmo_active(input),
        }
    }
}

/// The alignment gizmo's frame.
///
/// When the gizmo is not available a held drag is dropped and its transform
/// cancelled. Otherwise a press inside the viewport and off the tools starts
/// a drag where a grip takes it; a live drag follows the pointer while the
/// button is down; and a release, or a button no longer down under a live
/// drag, drops the drag and commits the transform.
pub fn alignment_gizmo_step(input: &GizmoInput) -> (step: GizmoStep)
    ensures
        step == spec_alignment_gizmo_step(*input),
{
    if !input.available {
        return GizmoStep {
            cancel_transform: input.drag_held,
            begin_drag: false,
            apply_drag: false,
            drop_drag: input.drag_held,
            commit_transform: false,
            cursor: GizmoCursor::Untouched,
            captured: false,
        };
    }
    let begin_drag = !input.drag_held && input.primary_pressed && !input.over_tools
        && input.pointer_present && input.pointer_in_viewport && input.grab_would_begin;
    let active = input.drag_held || begin_drag;
    let mut cursor = GizmoCursor::Untouched;
    if !active && !input.over_tools && input.pointer_present && input.grip_under_pointer {
        cursor = GizmoCursor::Grab;
    }
    let apply_drag = input.primary_down && active && input.pointer_present;
    if apply_drag {
        cursor = GizmoCursor::Grabbing;
    } else if active {
        cursor = GizmoCursor::Grab;
    }
    let commit_transform = input.primary_released || (!input.primary_down && active);
    GizmoStep {
        cancel_transform: false,
        begin_drag,
        apply_drag,
        drop_drag: commit_transform,
        commit_transform,
        cursor,
        captured: active,
    }
}

/// A gizmo drag never outlives the button: in any frame the button is not
/// down, a held drag is dropped, and committed unless the gizmo went away
/// under it, in which case it is cancelled; nothing is cancelled otherwise.
pub proof fn lemma_a_gizmo_drag_ends_with_the_button(input: GizmoInput)
    ensures
        !input.primary_down && input.drag_held ==> spec_alignment_gizmo_step(input).drop_drag,
        !input.primary_down && input.drag_held && input.available ==> spec_alignment_gizmo_step(
            input,
        ).commit_transform,
        spec_alignment_gizmo_step(input).cancel_transform <==> (!input.available
            && input.drag_held),
        spec_alignment_gizmo_step(input).apply_drag ==> input.primary_down,
        spec_alignment_gizmo_step(input).begin_drag ==> !input.drag_held && input.primary_pressed,
{
}

/// Whose selection a vertex gizmo moves.
#[derive(Clone, Copy, Debug, PartialEq, Eq, Structural, Hash)]
pub enum VertexOwner {
    /// The joints of hair strands.
    Hair,
    /// The vertices of the sculpted surface.
    Sculpt,
}

/// The history step a vertex edit closes with.
#[derive(Clone, Copy, Debug, PartialEq, Eq, Structural, Hash)]
pub enum StrokeEnd {
    EndHairStroke,
    EndSculptStroke,
}

impl VertexOwner {
    /// Whether an edit opens a stroke of its own first: the sculpt does, the
    /// hair records its joints as they move.
    pub fn begins_stroke(self) -> (result: bool)
        ensures
            result == (self == VertexOwner::Sculpt),
    {
        match self {
            VertexOwner::Hair => false,
            VertexOwner::Sculpt => true,
        }
    }

    /// The step that closes an edit.
    pub fn end_action(self) -> (result: StrokeEnd)
        ensures
            result == match self {
                VertexOwner::Hair => StrokeEnd::EndHairStroke,
                VertexOwner::Sculpt => StrokeEnd::EndSculptStroke,
            },
    {
        match self {
            VertexOwner::Hair => StrokeEnd::EndHairStroke,
            VertexOwner::Sculpt => StrokeEnd::EndSculptStroke,
        }
    }
}

/// A selection of one point has no centre to turn or scale about but itself,
/// so it gets the arrows alone; two or more get every grip.
pub fn vertex_gizmo_handles(selection_size: usize) -> (result: GizmoHandles)
    ensures
        result.rotate == (selection_size >= 2),
        result.scale == (selection_size >= 2),
{
    if selection_size >= 2 {
        GizmoHandles::all()
    } else {
        GizmoHandles::move_only()
    }
}

/// What a vertex gizmo does with the pointer in a frame.
#[derive(Clone, Copy, Debug, PartialEq, Eq, Structural, Hash)]
pub enum VertexGizmoStep {
    /// The held grab is let go and the edit closed.
    Release,
    /// The held grab follows the pointer.
    Apply,
    /// A new grab starts and the edit opens.
    Grab,
    /// The gizmo leaves the pointer to others.
    Pass,
}

/// The vertex gizmo's decision: a held grab follows a primary drag and is let
/// go when the drag ends; otherwise a drag that starts on a grip grabs it.
pub fn vertex_gizmo_step(grab_held: bool, dragging: bool, drag_started: bool, grip_hit: bool) -> (result:
    VertexGizmoStep)
    ensures
        result == (if grab_held {
            if dragging {
                VertexGizmoStep::Apply
            } else {
                VertexGizmoStep::Release
            }
        } else if drag_started && dragging && grip_hit {
            VertexGizmoStep::Grab
        } else {
            VertexGizmoStep::Pass
        }),
{
    if grab_held {
        if !dragging {
            return VertexGizmoStep::Release;
        }
        return VertexGizmoStep::Apply;
    }
    if drag_started && dragging && grip_hit {
        return VertexGizmoStep::Grab;
    }
    VertexGizmoStep::Pass
}

/// The camera mode while the vertex-rotate key is armed, and the orbit
/// otherwise; `None` when the mode in force is already that one.
pub fn vertex_rotate_mode_change(armed: bool, current: ControlMode) -> (result: Option<ControlMode>)
    ensures
        ({
            let wanted = if armed {
                ControlMode::VertexRotate
            } else {
                ControlMode::Orbit
            };
            result == if current == wanted {
                None
            } else {
                Some(wanted)
            }
        }),
{
    let wanted = if armed {
        ControlMode::VertexRotate
    } else {
        ControlMode::Orbit
    };
    if current == wanted {
        None
    } else {
        Some(wanted)
    }
}

} // verus!
