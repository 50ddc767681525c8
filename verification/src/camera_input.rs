use vstd::prelude::*;

use crate::scene::{ControlMode, MeshSide, ViewPane};

verus! {

/// The side a roll sweep writes to: the side it started over while the
/// sweep lasts, the hovered side otherwise.
pub open spec fn spec_roll_sweep_side(
    sweep_active: bool,
    pinned: Option<MeshSide>,
    hovered: MeshSide,
) -> MeshSide {
    match (sweep_active, pinned) {
        (true, Some(side)) => side,
        _ => hovered,
    }
}

/// Which side a roll sweep keeps writing to.
///
/// Crossing the divider in the middle of a sweep must not switch panes, and a
/// pin left behind by a finished sweep means nothing.
pub fn roll_sweep_side(sweep_active: bool, pinned: Option<MeshSide>, hovered: MeshSide) -> (result:
    MeshSide)
    ensures
        result == spec_roll_sweep_side(sweep_active, pinned, hovered),
        sweep_active && pinned is Some ==> result == pinned->0,
        !sweep_active ==> result == hovered,
{
    match (sweep_active, pinned) {
        (true, Some(side)) => side,
        _ => hovered,
    }
}

/// The pane that is active after a frame, from the pane a camera key is
/// bound to and from where the pointer hovers.
pub open spec fn spec_active_pane(
    current: ViewPane,
    key_owner: Option<ViewPane>,
    hover_in_split: bool,
    hover_in_primary: bool,
) -> ViewPane {
    match key_owner {
        Some(owner) => owner,
        None => if hover_in_split {
            ViewPane::Split
        } else if hover_in_primary {
            ViewPane::Primary
        } else {
            current
        },
    }
}

/// Decides which pane of a split view is the active one.
///
/// A pane that owns a held camera key keeps the activity; otherwise the pane
/// under the pointer takes it, and a pointer over neither pane changes
/// nothing. `hover_in_split` and `hover_in_primary` say whether the pointer
/// hovers inside the second and the first pane (both false when it hovers
/// nowhere).
pub fn resolve_active_pane(
    active: &mut ViewPane,
    key_owner: Option<ViewPane>,
    hover_in_split: bool,
    hover_in_primary: bool,
)
    ensures
        *final(active) == spec_active_pane(*old(active), key_owner, hover_in_split, hover_in_primary),
{
    if let Some(owner) = key_owner {
        *active = owner;
        return ;
    }
    if hover_in_split {
        *active = ViewPane::Split;
    } else if hover_in_primary {
        *active = ViewPane::Primary;
    }
}

/// A camera mode other than orbiting takes the pointer away from the scene.
pub fn camera_mode_owns_pointer(camera_control: ControlMode) -> (result: bool)
    ensures
        result == (camera_control != ControlMode::Orbit),
{
    camera_control != ControlMode::Orbit
}

/// The cameras of the two edit views, the scan's and the template's.
///
/// The two views are linked: whatever moves one moves the other.
#[derive(Debug, PartialEq)]
pub struct EditCameras<C> {
    pub scan: C,
    pub template: C,
}

impl<C: Copy> EditCameras<C> {
    /// The camera of one side.
    pub open spec fn spec_camera(self, side: MeshSide) -> C {
        match side {
            MeshSide::Scan => self.scan,
            MeshSide::Template => self.template,
        }
    }

    /// Both views look through the same camera.
    pub open spec fn linked(self) -> bool {
        self.scan == self.template
    }

    /// The camera of one side.
    pub fn camera(&self, side: MeshSide) -> (result: C)
        ensures
            result == self.spec_camera(side),
    {
        match side {
            MeshSide::Scan => self.scan,
            MeshSide::Template => self.template,
        }
    }

    /// Carries the camera of `side` over to the other side.
    pub fn reconcile_linked(&mut self, side: MeshSide)
        ensures
            final(self).scan == old(self).spec_camera(side),
            final(self).template == old(self).spec_camera(side),
    {
        match side {
            MeshSide::Scan => self.template = self.scan,
            MeshSide::Template => self.scan = self.template,
        }
    }
}

/// Puts `camera` on `side` and carries it to the linked side.
pub fn set_edit_camera<C: Copy>(cameras: &mut EditCameras<C>, side: MeshSide, camera: C)
    ensures
        final(cameras).scan == camera,
        final(cameras).template == camera,
{
    match side {
        MeshSide::Scan => cameras.scan = camera,
        MeshSide::Template => cameras.template = camera,
    }
    cameras.reconcile_linked(side);
}

/// Writes back the camera a roll sweep produced.
///
/// The swept camera always lands on `side`; it is carried to the linked side
/// only while the sweep owns the camera, so an idle frame leaves the other
/// view alone.
pub fn commit_swept_edit_camera<C: Copy>(
    cameras: &mut EditCameras<C>,
    side: MeshSide,
    swept: C,
    sweep_owns_camera: bool,
)
    ensures
        final(cameras).spec_camera(side) == swept,
        sweep_owns_camera ==> final(cameras).spec_camera(side.spec_other()) == swept,
        !sweep_owns_camera ==> final(cameras).spec_camera(side.spec_other()) == old(
            cameras,
        ).spec_camera(side.spec_other()),
{
    match side {
        MeshSide::Scan => cameras.scan = swept,
        MeshSide::Template => cameras.template = swept,
    }
    if sweep_owns_camera {
        cameras.reconcile_linked(side);
    }
}

/// What the camera shortcuts decide in a frame.
#[derive(Clone, Copy, Debug, PartialEq, Eq, Structural, Hash)]
pub struct CameraShortcutStep {
    /// The pane the camera keys are bound to while the roll sweep is armed;
    /// `None` releases them.
    pub key_owner: Option<ViewPane>,
    /// The camera mode to switch to, when it is not already in force.
    pub mode_change: Option<ControlMode>,
}

/// While the trackball sweep is armed the camera keys belong to the pane
/// being drawn and the camera is in trackball mode; otherwise the keys are
/// released and the camera orbits.
pub fn camera_shortcut_step(armed: bool, pane: ViewPane, current: ControlMode) -> (result:
    CameraShortcutStep)
    ensures
        result.key_owner == (if armed {
            Some(pane)
        } else {
            None
        }),
        result.mode_change == ({
            let wanted = if armed {
                ControlMode::Trackball
            } else {
                ControlMode::Orbit
            };
            if current == wanted {
                None
            } else {
                Some(wanted)
            }
        }),
{
    let wanted = if armed {
        ControlMode::Trackball
    } else {
        ControlMode::Orbit
    };
    CameraShortcutStep {
        key_owner: if armed {
            Some(pane)
        } else {
            None
        },
        mode_change: if current == wanted {
            None
        } else {
            Some(wanted)
        },
    }
}

/// Whether any brush sweep, of size or of strength, is under way.
pub fn brush_sweep_owns_pointer(sweeps_active: &[bool]) -> (result: bool)
    ensures
        result == exists|i: int| 0 <= i < sweeps_active@.len() && sweeps_active@[i],
{
    let mut index: usize = 0;
    while index < sweeps_active.len()
        invariant
            index <= sweeps_active@.len(),
            forall|earlier: int| 0 <= earlier < index ==> !sweeps_active@[earlier],
        decreases sweeps_active@.len() - index,
    {
        if sweeps_active[index] {
            return true;
        }
        index += 1;
    }
    false
}

/// The camera gesture a mouse drag performs.
#[derive(Clone, Copy, Debug, PartialEq, Eq, Structural, Hash)]
pub enum MiddleDragBinding {
    Dolly,
    Pan,
    Orbit,
}

/// The gesture of a drag: the first of dolly, pan and orbit whose binding
/// the drag matches, button and modifiers both.
pub fn navigation_drag(dolly_matches: bool, pan_matches: bool, orbit_matches: bool) -> (result:
    Option<MiddleDragBinding>)
    ensures
        result == (if dolly_matches {
            Some(MiddleDragBinding::Dolly)
        } else if pan_matches {
            Some(MiddleDragBinding::Pan)
        } else if orbit_matches {
            Some(MiddleDragBinding::Orbit)
        } else {
            None
        }),
{
    if dolly_matches {
        Some(MiddleDragBinding::Dolly)
    } else if pan_matches {
        Some(MiddleDragBinding::Pan)
    } else if orbit_matches {
        Some(MiddleDragBinding::Orbit)
    } else {
        None
    }
}

/// What the pointer did to the camera this frame.
#[derive(Clone, Copy, Debug, PartialEq, Eq, Structural, Hash)]
pub struct CameraMotionInput {
    /// The gesture the drag performs, if it matches one.
    pub binding: Option<MiddleDragBinding>,
    /// The drag moved the pointer, so its gesture has a length.
    pub drag_moved: bool,
    pub alt_held: bool,
    pub hovered: bool,
    /// The wheel turned.
    pub wheel_turned: bool,
    /// Something else over the viewport took the wheel this frame.
    pub wheel_claimed: bool,
    /// The pointer is inside the view, so a wheel zoom can aim at it.
    pub cursor_in_view: bool,
}

/// How the wheel zooms the camera.
#[derive(Clone, Copy, Debug, PartialEq, Eq, Structural, Hash)]
pub enum WheelZoom {
    /// The wheel did nothing.
    Still,
    /// Towards the surface point under the cursor.
    AboutCursor,
    /// Straight in along the view.
    Centred,
}

/// What a frame does to the camera, when it moves.
#[derive(Clone, Copy, Debug, PartialEq, Eq, Structural, Hash)]
pub struct CameraMotion {
    /// Settle a pending snap to a view before a free orbit moves away from it.
    pub commit_snap: bool,
    /// Apply the drag's orbit, pan or dolly.
    pub apply_drag: bool,
    /// The orbit is the snapping one, which lands on the nearest view.
    pub snap_view: bool,
    pub wheel: WheelZoom,
}

pub open spec fn spec_camera_motion(input: CameraMotionInput) -> Option<CameraMotion> {
    let snap_orbit = input.binding == Some(MiddleDragBinding::Orbit) && input.alt_held;
    let dragging = input.binding is Some && input.drag_moved;
    let wheeling = input.hovered && input.wheel_turned && !input.wheel_claimed;
    if !dragging && !wheeling {
        None
    } else {
        Some(
            CameraMotion {
                commit_snap: dragging && input.binding == Some(MiddleDragBinding::Orbit) && !snap_orbit,
                apply_drag: dragging,
                snap_view: dragging && snap_orbit,
                wheel: if !wheeling {
                    WheelZoom::Still
                } else if input.cursor_in_view {
                    WheelZoom::AboutCursor
                } else {
                    WheelZoom::Centred
                },
            },
        )
    }
}

/// Moves the camera by a frame of the pointer, or leaves it when nothing
/// moved.
///
/// The drag applies its gesture; an orbit with `Alt` snaps to the nearest
/// view, and a free orbit first settles a pending snap. The wheel counts only
/// over the viewport and when nothing else took it; it zooms towards the
/// surface under the cursor while the cursor is inside the view, and
/// straight in otherwise.
pub fn camera_motion_step(input: &CameraMotionInput) -> (result: Option<CameraMotion>)
    ensures
        result == spec_camera_motion(*input),
{
    let orbiting = match input.binding {
        Some(MiddleDragBinding::Orbit) => true,
        _ => false,
    };
    let snap_orbit = orbiting && input.alt_held;
    let dragging = input.binding.is_some() && input.drag_moved;
    let wheeling = input.hovered && input.wheel_turned && !input.wheel_claimed;
    if !dragging && !wheeling {
        return None;
    }
    let wheel = if !wheeling {
        WheelZoom::Still
    } else if input.cursor_in_view {
        WheelZoom::AboutCursor
    } else {
        WheelZoom::Centred
    };
    Some(
        CameraMotion {
            commit_snap: dragging && orbiting && !snap_orbit,
            apply_drag: dragging,
            snap_view: dragging && snap_orbit,
            wheel,
        },
    )
}

/// The frame shortcut frames the head only over the viewport.
pub fn frame_shortcut_pressed(hovered: bool, shortcut_pressed: bool) -> (result: bool)
    ensures
        result == (hovered && shortcut_pressed),
{
    hovered && shortcut_pressed
}

/// The light turns while its key is held over the viewport and the pointer
/// moves sideways.
pub fn light_rotation_applies(hovered: bool, key_held: bool, moved_sideways: bool) -> (result: bool)
    ensures
        result == (hovered && key_held && moved_sideways),
{
    hovered && key_held && moved_sideways
}

} // verus!
