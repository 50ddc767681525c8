use vkit_viewport::keys::TextKey;
use vkit_viewport::texture::{
    clear_stale_detail_pointer_state, projection_stencil_mode, projection_stencil_step,
    texture_paint_mode, texture_paint_step, texture_prompt, texture_target_pin_mode,
    texture_target_pin_step, StencilAction, StencilInput, TargetPinInput, TextureDab,
    TextureLayerFacts, TexturePaintAction, TexturePaintInput, TextureState, TextureTool,
};

fn layer() -> TextureLayerFacts {
    TextureLayerFacts { uses_landmark_pins: true, has_image: true, pin_count: 0, landmark_warp_ready: false }
}

fn state(tool: TextureTool) -> TextureState {
    TextureState {
        texturing: true,
        busy: false,
        has_editable_layer: true,
        active_tool: tool,
        tool_is_paint_brush: false,
        projection_stencil: true,
        selected_layer: Some(layer()),
    }
}

#[test]
fn each_mode_needs_its_tool_and_its_layer() {
    assert!(texture_target_pin_mode(&state(TextureTool::PinPair)));
    assert!(!texture_target_pin_mode(&state(TextureTool::Projection)));
    assert!(projection_stencil_mode(&state(TextureTool::Projection)));
    let no_image = TextureState {
        selected_layer: Some(TextureLayerFacts { has_image: false, ..layer() }),
        ..state(TextureTool::Projection)
    };
    assert!(!projection_stencil_mode(&no_image));
    let painting = TextureState { tool_is_paint_brush: true, ..state(TextureTool::Retouch) };
    assert!(texture_paint_mode(&painting));
    assert!(!texture_paint_mode(&TextureState { selected_layer: None, ..painting }));
}

#[test]
fn both_tabs_float_their_prompt_on_the_divider_at_the_same_height() {
    assert_eq!(texture_prompt(&state(TextureTool::PinPair)), Some(TextKey::TexturePinPairPrompt));
    let blank = TextureState {
        selected_layer: Some(TextureLayerFacts { has_image: false, ..layer() }),
        ..state(TextureTool::MaskBrush)
    };
    assert_eq!(texture_prompt(&blank), Some(TextKey::TextureNeedsImage));
    assert_eq!(texture_prompt(&state(TextureTool::MaskBrush)), Some(TextKey::TexturePinPairPrompt));
    let ready = TextureState {
        selected_layer: Some(TextureLayerFacts { landmark_warp_ready: true, pin_count: 4, ..layer() }),
        ..state(TextureTool::MaskBrush)
    };
    assert_eq!(texture_prompt(&ready), None);
    assert_eq!(texture_prompt(&state(TextureTool::CloneStamp)), None);
    assert_eq!(texture_prompt(&TextureState { busy: true, ..state(TextureTool::PinPair) }), None);
}

#[test]
fn an_ended_mode_drops_its_drag_and_closes_its_edit() {
    let cleared = clear_stale_detail_pointer_state(&state(TextureTool::Projection), false, true, true, true);
    assert!(cleared.pin_drag && cleared.mask_stroke && cleared.end_texture_edit);
    assert!(cleared.group_paint && cleared.hair_pointer);
    let kept = clear_stale_detail_pointer_state(&state(TextureTool::PinPair), true, true, false, true);
    assert!(!kept.pin_drag && !kept.end_texture_edit && !kept.hair_pointer);
}

fn pins() -> TargetPinInput {
    TargetPinInput {
        input_blocked: false,
        edit_open: false,
        pressed: false,
        hovered: true,
        nearest: None,
        primary_down: false,
        held: None,
        pointer_present: true,
        surface_hit: true,
        released: false,
        primary_clicked: false,
        secondary_clicked: false,
    }
}

#[test]
fn a_target_pin_is_taken_moved_and_let_go() {
    let take = texture_target_pin_step(&TargetPinInput { pressed: true, primary_down: true, nearest: Some(2), ..pins() });
    assert!(take.begin_edit);
    assert_eq!(take.held, Some(2));
    assert_eq!(take.move_pin, Some(2));
    let release = texture_target_pin_step(&TargetPinInput { held: Some(2), released: true, edit_open: true, ..pins() });
    assert!(release.end_edit);
    assert_eq!(release.held, None);
    let add = texture_target_pin_step(&TargetPinInput { primary_clicked: true, ..pins() });
    assert!(add.add_pin);
    let near = texture_target_pin_step(&TargetPinInput { primary_clicked: true, nearest: Some(1), ..pins() });
    assert!(!near.add_pin, "a click on a pin adds none");
    let remove = texture_target_pin_step(&TargetPinInput { secondary_clicked: true, nearest: Some(1), ..pins() });
    assert_eq!(remove.remove_pin, Some(1));
    let blocked = texture_target_pin_step(&TargetPinInput { input_blocked: true, held: Some(1), ..pins() });
    assert_eq!(blocked.held, None);
    assert!(!blocked.end_edit, "no edit open, none to close");
}

fn paint(tool: TextureTool) -> TexturePaintInput {
    TexturePaintInput {
        input_blocked: false,
        size_sweep_consumed: false,
        strength_sweep_consumed: false,
        released: false,
        primary_down: true,
        hovered: true,
        edit_open: false,
        pointer_present: true,
        tool,
        alt_held: false,
        retouch_reverse: false,
        pressed: true,
    }
}

#[test]
fn the_surface_brushes_lay_their_own_dabs() {
    let mask = texture_paint_step(&paint(TextureTool::MaskBrush));
    assert!(mask.begin_edit);
    assert_eq!(mask.action, TexturePaintAction::Dabs(TextureDab::Mask { erase: false }));
    let erase = texture_paint_step(&TexturePaintInput { alt_held: true, ..paint(TextureTool::MaskBrush) });
    assert_eq!(erase.action, TexturePaintAction::Dabs(TextureDab::Mask { erase: true }));
    let both = texture_paint_step(&TexturePaintInput {
        alt_held: true,
        retouch_reverse: true,
        ..paint(TextureTool::Retouch)
    });
    assert_eq!(both.action, TexturePaintAction::Dabs(TextureDab::Retouch { reverse: false }), "two reversals cancel");
    let sample = texture_paint_step(&TexturePaintInput { alt_held: true, ..paint(TextureTool::CloneStamp) });
    assert_eq!(sample.action, TexturePaintAction::SampleClone { on_press: true });
    let released = texture_paint_step(&TexturePaintInput { released: true, ..paint(TextureTool::Retouch) });
    assert_eq!(released.action, TexturePaintAction::EndStroke);
    let open = texture_paint_step(&TexturePaintInput { edit_open: true, ..paint(TextureTool::Retouch) });
    assert!(!open.begin_edit);
}

fn stencil() -> StencilInput {
    StencilInput {
        input_blocked: false,
        edit_open: false,
        cancel_pressed: false,
        secondary_dragged: false,
        shift_held: false,
        wheel_turned: false,
        pointer_in_viewport: true,
        stencil_placed: true,
        size_sweep_consumed: false,
        strength_sweep_consumed: false,
        released: false,
        primary_down: true,
        hovered: true,
        pointer_present: true,
        invert_held: false,
        tool_inverts: true,
    }
}

#[test]
fn the_stencil_moves_zooms_and_stamps() {
    assert_eq!(projection_stencil_step(&StencilInput { cancel_pressed: true, ..stencil() }).action, StencilAction::Close);
    assert_eq!(projection_stencil_step(&StencilInput { secondary_dragged: true, ..stencil() }).action, StencilAction::Pan);
    assert_eq!(
        projection_stencil_step(&StencilInput { secondary_dragged: true, shift_held: true, ..stencil() }).action,
        StencilAction::Rotate
    );
    assert_eq!(projection_stencil_step(&StencilInput { wheel_turned: true, ..stencil() }).action, StencilAction::Zoom);
    let stamp = projection_stencil_step(&stencil());
    assert!(stamp.begin_edit);
    assert_eq!(stamp.action, StencilAction::Stamp { erase: false });
    let erase = projection_stencil_step(&StencilInput { invert_held: true, ..stencil() });
    assert_eq!(erase.action, StencilAction::Stamp { erase: true });
    let no_invert = projection_stencil_step(&StencilInput { invert_held: true, tool_inverts: false, ..stencil() });
    assert_eq!(no_invert.action, StencilAction::Stamp { erase: false });
    let lifted = projection_stencil_step(&StencilInput { released: true, edit_open: true, ..stencil() });
    assert_eq!(lifted.action, StencilAction::EndStroke { close_edit: true });
}

#[test]
fn the_texture_sweeps_and_size_keys_wait_their_turn() {
    let free = texture_paint_step(&paint(TextureTool::Retouch));
    assert!(free.size_sweep && free.strength_sweep && free.size_keys);
    let sized = texture_paint_step(&TexturePaintInput { size_sweep_consumed: true, ..paint(TextureTool::Retouch) });
    assert!(!sized.strength_sweep && !sized.size_keys);
    assert_eq!(sized.action, TexturePaintAction::Sweeping);
    let blocked = texture_paint_step(&TexturePaintInput { input_blocked: true, ..paint(TextureTool::Retouch) });
    assert!(!blocked.size_sweep && !blocked.size_keys);
    let zoom = projection_stencil_step(&StencilInput { wheel_turned: true, ..stencil() });
    assert!(!zoom.size_sweep && !zoom.strength_sweep && !zoom.size_keys, "a wheel zoom ends the frame first");
    let cancel = projection_stencil_step(&StencilInput { cancel_pressed: true, ..stencil() });
    assert!(!cancel.size_sweep);
    let stamp = projection_stencil_step(&stencil());
    assert!(stamp.size_sweep && stamp.strength_sweep && stamp.size_keys);
    let strengthened = projection_stencil_step(&StencilInput { strength_sweep_consumed: true, ..stencil() });
    assert!(strengthened.strength_sweep && !strengthened.size_keys);
    assert_eq!(strengthened.action, StencilAction::Sweeping);
}
