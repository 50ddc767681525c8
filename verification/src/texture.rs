use vstd::prelude::*;

use crate::keys::TextKey;

verus! {

/// The texture tab's tools.
#[derive(Clone, Copy, Debug, PartialEq, Eq, Structural, Hash)]
pub enum TextureTool {
    /// Paints a photo onto the face through a movable stencil.
    Projection,
    /// Places matching pins on the photo and on the head.
    PinPair,
    /// Paints where the layer shows.
    MaskBrush,
    /// Copies one patch of skin onto another.
    CloneStamp,
    /// Paints the retouch layer.
    Retouch,
}

/// What the viewport reads of the selected texture layer.
#[derive(Clone, Copy, Debug, PartialEq, Eq, Structural, Hash)]
pub struct TextureLayerFacts {
    /// The layer is placed by landmark pins rather than as it stands.
    pub uses_landmark_pins: bool,
    /// The layer has a picture, edited or as loaded.
    pub has_image: bool,
    /// How many pin pairs the layer holds.
    pub pin_count: usize,
    /// The pins are enough to warp the picture onto the head.
    pub landmark_warp_ready: bool,
}

/// What the texture interactions read of the application state.
#[derive(Clone, Copy, Debug, PartialEq, Eq, Structural, Hash)]
pub struct TextureState {
    /// The texture tab is open and painting.
    pub texturing: bool,
    /// A long task is running.
    pub busy: bool,
    /// Some layer may be edited.
    pub has_editable_layer: bool,
    pub active_tool: TextureTool,
    /// The active tool paints with a brush.
    pub tool_is_paint_brush: bool,
    /// The projection stencil is out.
    pub projection_stencil: bool,
    pub selected_layer: Option<TextureLayerFacts>,
}

/// Whether clicks place and drag the target pins on the head.
pub open spec fn spec_texture_target_pin_mode(state: TextureState) -> bool {
    &&& state.texturing
    &&& state.has_editable_layer
    &&& state.active_tool == TextureTool::PinPair
    &&& state.selected_layer is Some
    &&& state.selected_layer->0.uses_landmark_pins
}

/// Whether clicks place and drag the target pins on the head.
pub fn texture_target_pin_mode(state: &TextureState) -> (result: bool)
    ensures
        result == spec_texture_target_pin_mode(*state),
{
    state.texturing && state.has_editable_layer && state.active_tool == TextureTool::PinPair
        && match state.selected_layer {
        Some(layer) => layer.uses_landmark_pins,
        None => false,
    }
}

/// Whether strokes stamp the photo through the projection stencil.
pub open spec fn spec_projection_stencil_mode(state: TextureState) -> bool {
    &&& state.projection_stencil
    &&& state.texturing
    &&& state.has_editable_layer
    &&& state.active_tool == TextureTool::Projection
    &&& state.selected_layer is Some
    &&& state.selected_layer->0.uses_landmark_pins
    &&& state.selected_layer->0.has_image
}

/// Whether strokes stamp the photo through the projection stencil.
pub fn projection_stencil_mode(state: &TextureState) -> (result: bool)
    ensures
        result == spec_projection_stencil_mode(*state),
{
    state.projection_stencil && state.texturing && state.has_editable_layer && state.active_tool
        == TextureTool::Projection && match state.selected_layer {
        Some(layer) => layer.uses_landmark_pins && layer.has_image,
        None => false,
    }
}

/// Whether strokes paint the selected layer with a brush.
pub open spec fn spec_texture_paint_mode(state: TextureState) -> bool {
    &&& state.texturing
    &&& state.has_editable_layer
    &&& state.tool_is_paint_brush
    &&& state.selected_layer is Some
}

/// Whether strokes paint the selected layer with a brush.
pub fn texture_paint_mode(state: &TextureState) -> (result: bool)
    ensures
        result == spec_texture_paint_mode(*state),
{
    state.texturing && state.has_editable_layer && state.tool_is_paint_brush
        && state.selected_layer.is_some()
}

/// The prompt floated over the texture workspace, if one is due.
pub open spec fn spec_texture_prompt(state: TextureState) -> Option<TextKey> {
    if !state.texturing || state.busy {
        None
    } else if !(state.active_tool == TextureTool::Projection || state.active_tool
        == TextureTool::PinPair || state.active_tool == TextureTool::MaskBrush) {
        None
    } else if state.selected_layer is None {
        None
    } else if !state.selected_layer->0.has_image {
        Some(TextKey::TextureNeedsImage)
    } else if state.active_tool == TextureTool::PinPair && state.selected_layer->0.pin_count == 0 {
        Some(TextKey::TexturePinPairPrompt)
    } else if state.active_tool == TextureTool::MaskBrush && state.selected_layer->0.uses_landmark_pins
        && !state.selected_layer->0.landmark_warp_ready {
        Some(TextKey::TexturePinPairPrompt)
    } else {
        None
    }
}

/// The prompt the texture workspace floats on its divider: a layer with no
/// picture asks for one, and a pin-placed layer that cannot warp yet asks for
/// pins, but only under the tools that need them.
pub fn texture_prompt(state: &TextureState) -> (result: Option<TextKey>)
    ensures
        result == spec_texture_prompt(*state),
{
    if !state.texturing || state.busy {
        return None;
    }
    let tool = state.active_tool;
    if !(tool == TextureTool::Projection || tool == TextureTool::PinPair || tool
        == TextureTool::MaskBrush) {
        return None;
    }
    let layer = match state.selected_layer {
        Some(layer) => layer,
        None => return None,
    };
    if !layer.has_image {
        return Some(TextKey::TextureNeedsImage);
    }
    if tool == TextureTool::PinPair && layer.pin_count == 0 {
        Some(TextKey::TexturePinPairPrompt)
    } else if tool == TextureTool::MaskBrush && layer.uses_landmark_pins
        && !layer.landmark_warp_ready {
        Some(TextKey::TexturePinPairPrompt)
    } else {
        None
    }
}

/// Which drags a frame abandons because the mode they belong to has ended.
#[derive(Clone, Copy, Debug, PartialEq, Eq, Structural, Hash)]
pub struct StaleClearing {
    /// Drop the target-pin drag.
    pub pin_drag: bool,
    /// Drop the mask stroke.
    pub mask_stroke: bool,
    /// Drop the group-row painting.
    pub group_paint: bool,
    /// Drop the hair brushes' pointer state.
    pub hair_pointer: bool,
    /// Close the texture edit the dropped drag left open.
    pub end_texture_edit: bool,
}

/// Which stale pointer state a frame clears: a held pin drag outside pin mode,
/// a held mask stroke outside paint mode, group painting while texturing, the
/// hair brushes outside the hair tab; and an interrupted drag closes the
/// texture edit it left open.
pub fn clear_stale_detail_pointer_state(
    state: &TextureState,
    hair_editing: bool,
    pin_drag_held: bool,
    mask_stroke_held: bool,
    texture_edit_open: bool,
) -> (result: StaleClearing)
    ensures
        result.pin_drag == (!spec_texture_target_pin_mode(*state) && pin_drag_held),
        result.mask_stroke == (!spec_texture_paint_mode(*state) && mask_stroke_held),
        result.group_paint == state.texturing,
        result.hair_pointer == !hair_editing,
        result.end_texture_edit == ((result.pin_drag || result.mask_stroke) && texture_edit_open),
{
    let pin_drag = !texture_target_pin_mode(state) && pin_drag_held;
    let mask_stroke = !texture_paint_mode(state) && mask_stroke_held;
    let interrupted = pin_drag || mask_stroke;
    StaleClearing {
        pin_drag,
        mask_stroke,
        group_paint: state.texturing,
        hair_pointer: !hair_editing,
        end_texture_edit: interrupted && texture_edit_open,
    }
}

/// What the target-pin handling reads of a frame.
#[derive(Clone, Copy, Debug, PartialEq, Eq, Structural, Hash)]
pub struct TargetPinInput {
    pub input_blocked: bool,
    /// A texture edit is open.
    pub edit_open: bool,
    pub pressed: bool,
    pub hovered: bool,
    /// The target pin within reach of the pointer, if any.
    pub nearest: Option<usize>,
    pub primary_down: bool,
    /// The pin held from an earlier frame, if any.
    pub held: Option<usize>,
    pub pointer_present: bool,
    /// The pointer meets the face.
    pub surface_hit: bool,
    pub released: bool,
    pub primary_clicked: bool,
    pub secondary_clicked: bool,
}

/// What the target-pin handling does in a frame.
#[derive(Clone, Copy, Debug, PartialEq, Eq, Structural, Hash)]
pub struct TargetPinStep {
    /// The pin held after the frame, if any.
    pub held: Option<usize>,
    /// Open a texture edit.
    pub begin_edit: bool,
    /// Close the texture edit.
    pub end_edit: bool,
    /// Move this pin to the face under the pointer.
    pub move_pin: Option<usize>,
    /// Add a pin where the pointer meets the face.
    pub add_pin: bool,
    /// Remove this pin.
    pub remove_pin: Option<usize>,
}

pub open spec fn spec_target_pin_step(input: TargetPinInput) -> TargetPinStep {
    if input.input_blocked {
        TargetPinStep {
            held: None,
            begin_edit: false,
            end_edit: input.edit_open,
            move_pin: None,
            add_pin: false,
            remove_pin: None,
        }
    } else {
        let begin = input.pressed && input.hovered && input.nearest is Some;
        let held = if begin {
            input.nearest
        } else {
            input.held
        };
        TargetPinStep {
            held: if input.released {
                None
            } else {
                held
            },
            begin_edit: begin,
            end_edit: input.released,
            move_pin: if input.primary_down && input.pointer_present && input.surface_hit {
                held
            } else {
                None
            },
            add_pin: input.primary_clicked && input.nearest is None && input.pointer_present
                && input.surface_hit,
            remove_pin: if input.secondary_clicked {
                input.nearest
            } else {
                None
            },
        }
    }
}

/// A frame of placing the target pins on the head.
///
/// A press on a pin takes hold of it and opens an edit; a held pin follows
/// the face while the button is down; a release lets go and closes the edit.
/// A click away from every pin adds one where the pointer meets the face,
/// and a right click removes the pin under the pointer. A blocked pointer
/// lets go and closes any open edit.
pub fn texture_target_pin_step(input: &TargetPinInput) -> (result: TargetPinStep)
    ensures
        result == spec_target_pin_step(*input),
{
    if input.input_blocked {
        return TargetPinStep {
            held: None,
            begin_edit: false,
            end_edit: input.edit_open,
            move_pin: None,
            add_pin: false,
            remove_pin: None,
        };
    }
    let begin = input.pressed && input.hovered && input.nearest.is_some();
    let held = if begin {
        input.nearest
    } else {
        input.held
    };
    TargetPinStep {
        held: if input.released {
            None
        } else {
            held
        },
        begin_edit: begin,
        end_edit: input.released,
        move_pin: if input.primary_down && input.pointer_present && input.surface_hit {
            held
        } else {
            None
        },
        add_pin: input.primary_clicked && input.nearest.is_none() && input.pointer_present
            && input.surface_hit,
        remove_pin: if input.secondary_clicked {
            input.nearest
        } else {
            None
        },
    }
}

/// What the surface brushes read of a frame.
#[derive(Clone, Copy, Debug, PartialEq, Eq, Structural, Hash)]
pub struct TexturePaintInput {
    pub input_blocked: bool,
    /// The size sweep, when it ran, took the pointer.
    pub size_sweep_consumed: bool,
    /// The strength sweep, when it ran, took the pointer.
    pub strength_sweep_consumed: bool,
    pub released: bool,
    pub primary_down: bool,
    pub hovered: bool,
    /// A texture edit is open.
    pub edit_open: bool,
    pub pointer_present: bool,
    pub tool: TextureTool,
    /// `Alt` is held.
    pub alt_held: bool,
    /// The retouch brush is switched to its reverse.
    pub retouch_reverse: bool,
    pub pressed: bool,
}

/// What a dab of the surface brushes does.
#[derive(Clone, Copy, Debug, PartialEq, Eq, Structural, Hash)]
pub enum TextureDab {
    /// A mask dab; `erase` hides the layer where it lands.
    Mask { erase: bool },
    /// A retouch dab, reversed or not.
    Retouch { reverse: bool },
}

/// What the surface brushes do in a frame.
#[derive(Clone, Copy, Debug, PartialEq, Eq, Structural, Hash)]
pub enum TexturePaintAction {
    /// Drop the stroke and close the edit.
    EndStroke,
    /// A sweep owns the pointer.
    Sweeping,
    /// Nothing under the pointer to paint.
    Idle,
    /// Set the clone source where the pointer meets the face, on a press.
    SampleClone { on_press: bool },
    /// Lay dabs along the pointer's path.
    Dabs(TextureDab),
}

/// A frame of the surface brushes: the action and whether an edit opens.
#[derive(Clone, Copy, Debug, PartialEq, Eq, Structural, Hash)]
pub struct TexturePaintStep {
    /// The brush size sweep may run and change the radius.
    pub size_sweep: bool,
    /// The strength sweep may run and change the opacity.
    pub strength_sweep: bool,
    /// The bracket keys may step the brush size.
    pub size_keys: bool,
    pub begin_edit: bool,
    pub action: TexturePaintAction,
}

pub open spec fn spec_texture_paint_step(input: TexturePaintInput) -> TexturePaintStep {
    let size_sweep = !input.input_blocked;
    let strength_sweep = size_sweep && !input.size_sweep_consumed;
    let size_keys = strength_sweep && !input.strength_sweep_consumed;
    let quiet = |action: TexturePaintAction|
        TexturePaintStep { size_sweep, strength_sweep, size_keys, begin_edit: false, action };
    if input.input_blocked {
        quiet(TexturePaintAction::EndStroke)
    } else if !size_keys {
        quiet(TexturePaintAction::Sweeping)
    } else if input.released {
        quiet(TexturePaintAction::EndStroke)
    } else if !input.primary_down || !input.hovered {
        quiet(TexturePaintAction::Idle)
    } else {
        TexturePaintStep {
            size_sweep,
            strength_sweep,
            size_keys,
            begin_edit: !input.edit_open,
            action: if !input.pointer_present {
                TexturePaintAction::Idle
            } else if input.tool == TextureTool::CloneStamp && input.alt_held {
                TexturePaintAction::SampleClone { on_press: input.pressed }
            } else if input.tool == TextureTool::MaskBrush {
                TexturePaintAction::Dabs(TextureDab::Mask { erase: input.alt_held })
            } else {
                TexturePaintAction::Dabs(
                    TextureDab::Retouch { reverse: input.alt_held != input.retouch_reverse },
                )
            },
        }
    }
}

/// A frame of painting the face with the mask, clone and retouch brushes.
///
/// A blocked pointer ends the stroke and closes the edit. Otherwise the size
/// sweep runs, then the strength sweep unless the size sweep took the
/// pointer, and a sweep that took it keeps it; past them the bracket keys
/// step the size, and a release ends the stroke and closes the edit. While
/// the button is held over the view an edit opens if none is, `Alt` with
/// the clone stamp sets its source, the mask brush lays mask dabs that erase
/// with `Alt`, and the other brushes lay retouch dabs, reversed by `Alt` or
/// by the brush's own switch but not by both.
pub fn texture_paint_step(input: &TexturePaintInput) -> (result: TexturePaintStep)
    ensures
        result == spec_texture_paint_step(*input),
{
    let size_sweep = !input.input_blocked;
    let strength_sweep = size_sweep && !input.size_sweep_consumed;
    let size_keys = strength_sweep && !input.strength_sweep_consumed;
    let quiet = TexturePaintStep {
        size_sweep,
        strength_sweep,
        size_keys,
        begin_edit: false,
        action: TexturePaintAction::Idle,
    };
    if input.input_blocked {
        return TexturePaintStep { action: TexturePaintAction::EndStroke, ..quiet };
    }
    if !size_keys {
        return TexturePaintStep { action: TexturePaintAction::Sweeping, ..quiet };
    }
    if input.released {
        return TexturePaintStep { action: TexturePaintAction::EndStroke, ..quiet };
    }
    if !input.primary_down || !input.hovered {
        return quiet;
    }
    let begin_edit = !input.edit_open;
    let action = if !input.pointer_present {
        TexturePaintAction::Idle
    } else if input.tool == TextureTool::CloneStamp && input.alt_held {
        TexturePaintAction::SampleClone { on_press: input.pressed }
    } else if input.tool == TextureTool::MaskBrush {
        TexturePaintAction::Dabs(TextureDab::Mask { erase: input.alt_held })
    } else {
        TexturePaintAction::Dabs(TextureDab::Retouch { reverse: input.alt_held != input.retouch_reverse })
    };
    TexturePaintStep { begin_edit, action, ..quiet }
}

/// Each reversal of the retouch brush turns it round and two cancel: a
/// retouch dab runs backwards exactly when one of `Alt` and the brush's own
/// switch is on; and a retouch brush held over the view with the pointer
/// free lays retouch dabs.
pub proof fn lemma_retouch_reversals_cancel_in_pairs(input: TexturePaintInput)
    ensures
        spec_texture_paint_step(input).action matches TexturePaintAction::Dabs(
            TextureDab::Retouch { reverse },
        ) ==> reverse == (input.alt_held != input.retouch_reverse),
        input.tool == TextureTool::Retouch && !input.input_blocked && !input.size_sweep_consumed
            && !input.strength_sweep_consumed && !input.released && input.primary_down
            && input.hovered && input.pointer_present ==> spec_texture_paint_step(input).action
            == TexturePaintAction::Dabs(
            TextureDab::Retouch {
                reverse: if input.alt_held {
                    !input.retouch_reverse
                } else {
                    input.retouch_reverse
                },
            },
        ),
{
}

/// Every stroke closes its edit: a release or a blocked pointer always ends
/// it, and an edit is only opened while painting.
pub proof fn lemma_a_texture_stroke_is_one_edit(input: TexturePaintInput, pins: TargetPinInput)
    ensures
        (input.released || input.input_blocked) && !((input.size_sweep_consumed
            || input.strength_sweep_consumed) && !input.input_blocked)
            ==> spec_texture_paint_step(input).action == TexturePaintAction::EndStroke,
        spec_texture_paint_step(input).begin_edit ==> input.primary_down && input.hovered
            && !input.released && !input.input_blocked,
        pins.released && !pins.input_blocked ==> spec_target_pin_step(pins).end_edit
            && spec_target_pin_step(pins).held is None,
        pins.input_blocked ==> spec_target_pin_step(pins).held is None && (spec_target_pin_step(
            pins,
        ).end_edit == pins.edit_open),
{
}

/// What the projection stencil reads of a frame.
#[derive(Clone, Copy, Debug, PartialEq, Eq, Structural, Hash)]
pub struct StencilInput {
    pub input_blocked: bool,
    /// A texture edit is open.
    pub edit_open: bool,
    /// The stencil's cancel key was pressed.
    pub cancel_pressed: bool,
    /// A secondary-button drag is under way.
    pub secondary_dragged: bool,
    pub shift_held: bool,
    /// The wheel turned more than a trace.
    pub wheel_turned: bool,
    pub pointer_in_viewport: bool,
    /// The stencil has a place on screen.
    pub stencil_placed: bool,
    /// The size sweep, when it ran, took the pointer.
    pub size_sweep_consumed: bool,
    /// The strength sweep, when it ran, took the pointer.
    pub strength_sweep_consumed: bool,
    pub released: bool,
    pub primary_down: bool,
    pub hovered: bool,
    pub pointer_present: bool,
    /// The invert key is held.
    pub invert_held: bool,
    /// The active tool lets the invert key erase.
    pub tool_inverts: bool,
}

/// What the projection stencil does in a frame.
#[derive(Clone, Copy, Debug, PartialEq, Eq, Structural, Hash)]
pub enum StencilAction {
    /// Drop the stroke; close the edit when `close_edit`.
    EndStroke { close_edit: bool },
    /// Put the stencil away.
    Close,
    /// Turn the stencil with the drag.
    Rotate,
    /// Slide the stencil with the drag.
    Pan,
    /// Zoom the stencil about the pointer.
    Zoom,
    /// A sweep owns the pointer.
    Sweeping,
    Idle,
    /// Stamp the photo along the pointer's path, erasing when `erase`.
    Stamp { erase: bool },
}

/// A frame of the projection stencil: the action and whether an edit opens.
#[derive(Clone, Copy, Debug, PartialEq, Eq, Structural, Hash)]
pub struct StencilStep {
    /// The brush size sweep may run and change the radius.
    pub size_sweep: bool,
    /// The strength sweep may run and change the opacity.
    pub strength_sweep: bool,
    /// The bracket keys may step the brush size.
    pub size_keys: bool,
    pub begin_edit: bool,
    pub action: StencilAction,
}

/// The frame reaches the sweeps: not blocked, not cancelled, no right drag
/// and no wheel zoom.
pub open spec fn spec_stencil_reaches_sweeps(input: StencilInput) -> bool {
    !input.input_blocked && !input.cancel_pressed && !input.secondary_dragged && !(input.wheel_turned
        && input.pointer_present && input.pointer_in_viewport && input.stencil_placed)
}

pub open spec fn spec_stencil_step(input: StencilInput) -> StencilStep {
    let size_sweep = spec_stencil_reaches_sweeps(input);
    let strength_sweep = size_sweep && !input.size_sweep_consumed;
    let size_keys = strength_sweep && !input.strength_sweep_consumed;
    let quiet = |action: StencilAction|
        StencilStep { size_sweep, strength_sweep, size_keys, begin_edit: false, action };
    if input.input_blocked {
        quiet(StencilAction::EndStroke { close_edit: input.edit_open })
    } else if input.cancel_pressed {
        quiet(StencilAction::Close)
    } else if input.secondary_dragged {
        quiet(
            if input.shift_held {
                StencilAction::Rotate
            } else {
                StencilAction::Pan
            },
        )
    } else if input.wheel_turned && input.pointer_present && input.pointer_in_viewport
        && input.stencil_placed {
        quiet(StencilAction::Zoom)
    } else if !size_keys {
        quiet(StencilAction::Sweeping)
    } else if input.released {
        quiet(StencilAction::EndStroke { close_edit: input.edit_open })
    } else if !input.primary_down || !input.hovered {
        quiet(StencilAction::Idle)
    } else {
        StencilStep {
            size_sweep,
            strength_sweep,
            size_keys,
            begin_edit: !input.edit_open,
            action: if !input.pointer_present || !input.stencil_placed {
                StencilAction::Idle
            } else {
                StencilAction::Stamp { erase: input.invert_held && input.tool_inverts }
            },
        }
    }
}

/// A frame of painting through the projection stencil.
///
/// A blocked pointer or a release drops the stroke and closes any open edit;
/// the cancel key puts the stencil away. A right drag slides the stencil, or
/// turns it with `Shift`; the wheel over the viewport zooms it. Past those,
/// the size sweep runs, then the strength sweep unless the size sweep took
/// the pointer, and a sweep that took it keeps it; otherwise the bracket
/// keys step the size, and while the button is held over the view an edit
/// opens if none is and the photo is stamped along the pointer's path,
/// erasing with the invert key where the tool allows it.
pub fn projection_stencil_step(input: &StencilInput) -> (result: StencilStep)
    ensures
        result == spec_stencil_step(*input),
{
    let zooming = input.wheel_turned && input.pointer_present && input.pointer_in_viewport
        && input.stencil_placed;
    let size_sweep = !input.input_blocked && !input.cancel_pressed && !input.secondary_dragged
        && !zooming;
    let strength_sweep = size_sweep && !input.size_sweep_consumed;
    let size_keys = strength_sweep && !input.strength_sweep_consumed;
    let quiet = StencilStep {
        size_sweep,
        strength_sweep,
        size_keys,
        begin_edit: false,
        action: StencilAction::Idle,
    };
    if input.input_blocked {
        return StencilStep { action: StencilAction::EndStroke { close_edit: input.edit_open }, ..quiet };
    }
    if input.cancel_pressed {
        return StencilStep { action: StencilAction::Close, ..quiet };
    }
    if input.secondary_dragged {
        let action = if input.shift_held {
            StencilAction::Rotate
        } else {
            StencilAction::Pan
        };
        return StencilStep { action, ..quiet };
    }
    if zooming {
        return StencilStep { action: StencilAction::Zoom, ..quiet };
    }
    if !size_keys {
        return StencilStep { action: StencilAction::Sweeping, ..quiet };
    }
    if input.released {
        return StencilStep { action: StencilAction::EndStroke { close_edit: input.edit_open }, ..quiet };
    }
    if !input.primary_down || !input.hovered {
        return quiet;
    }
    let action = if !input.pointer_present || !input.stencil_placed {
        StencilAction::Idle
    } else {
        StencilAction::Stamp { erase: input.invert_held && input.tool_inverts }
    };
    StencilStep { begin_edit: !input.edit_open, action, ..quiet }
}

} // verus!
