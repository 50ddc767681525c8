use vkit_viewport::alignment::{
    draw_alignment, AlignmentDraw, AlignmentDrawKind, AlignmentFrame, AlignmentMesh,
    TemplateSource,
};
use vkit_viewport::scene::{EditSourceMode, RenderDepthScope};

fn frame() -> AlignmentFrame {
    AlignmentFrame {
        importing: false,
        roll_owns_pointer: false,
        camera_mode_owns_pointer: false,
        press_spent: false,
        tools_block_pointer: false,
        source_mode: EditSourceMode::ScanHead,
        has_result: false,
        has_template: true,
        has_scan: true,
        texture_view: false,
        skin_available: false,
        wire_visible: false,
        wire_has_alpha: true,
        xray_visible: false,
        xray_has_alpha: true,
    }
}

fn draw(mesh: AlignmentMesh, kind: AlignmentDrawKind, depth: RenderDepthScope) -> AlignmentDraw {
    AlignmentDraw { mesh, kind, depth }
}

#[test]
fn alignment_callbacks_use_solid_self_depth_and_start_both_surfaces_opaque() {
    let plan = draw_alignment(&frame());
    assert_eq!(
        plan.draws,
        vec![
            draw(AlignmentMesh::Template, AlignmentDrawKind::Solid, RenderDepthScope::Shared),
            draw(AlignmentMesh::Scan, AlignmentDrawKind::Solid, RenderDepthScope::ResetBeforeDraw),
        ]
    );
    let with_xray = draw_alignment(&AlignmentFrame { xray_visible: true, ..frame() });
    assert_eq!(with_xray.draws[0], plan.draws[0], "x-ray leaves the base passes alone");
    assert_eq!(with_xray.draws[1], plan.draws[1]);
}

#[test]
fn the_overlays_follow_every_shown_head() {
    let plan = draw_alignment(&AlignmentFrame { wire_visible: true, xray_visible: true, ..frame() });
    assert_eq!(
        plan.draws,
        vec![
            draw(AlignmentMesh::Template, AlignmentDrawKind::Solid, RenderDepthScope::Shared),
            draw(AlignmentMesh::Scan, AlignmentDrawKind::Solid, RenderDepthScope::ResetBeforeDraw),
            draw(AlignmentMesh::Template, AlignmentDrawKind::Wire, RenderDepthScope::Shared),
            draw(AlignmentMesh::Scan, AlignmentDrawKind::Wire, RenderDepthScope::Shared),
            draw(AlignmentMesh::Template, AlignmentDrawKind::Xray, RenderDepthScope::ResetBeforeDraw),
            draw(AlignmentMesh::Scan, AlignmentDrawKind::Xray, RenderDepthScope::Shared),
        ]
    );
    let faint = draw_alignment(&AlignmentFrame { wire_visible: true, wire_has_alpha: false, ..frame() });
    assert_eq!(faint.draws.len(), 2, "a wire with no opacity draws nothing");
}

#[test]
fn a_custom_morph_shows_its_result_and_no_scan() {
    let custom = AlignmentFrame {
        source_mode: EditSourceMode::CustomMorph,
        has_result: true,
        xray_visible: true,
        ..frame()
    };
    let plan = draw_alignment(&custom);
    assert_eq!(plan.template_source, Some(TemplateSource::Result));
    assert!(!plan.scan_shown);
    assert_eq!(
        plan.draws,
        vec![
            draw(AlignmentMesh::Template, AlignmentDrawKind::Solid, RenderDepthScope::Shared),
            draw(AlignmentMesh::Template, AlignmentDrawKind::Xray, RenderDepthScope::ResetBeforeDraw),
        ]
    );
    let fallback = draw_alignment(&AlignmentFrame { has_result: false, ..custom });
    assert_eq!(fallback.template_source, Some(TemplateSource::Template));
}

#[test]
fn a_scan_alone_starts_the_xray_band_itself() {
    let plan = draw_alignment(&AlignmentFrame { has_template: false, xray_visible: true, ..frame() });
    assert_eq!(plan.template_source, None);
    assert_eq!(
        plan.draws,
        vec![
            draw(AlignmentMesh::Scan, AlignmentDrawKind::Solid, RenderDepthScope::ResetBeforeDraw),
            draw(AlignmentMesh::Scan, AlignmentDrawKind::Xray, RenderDepthScope::ResetBeforeDraw),
        ]
    );
}

#[test]
fn a_skin_textures_the_template_over_a_cleared_buffer() {
    let plan = draw_alignment(&AlignmentFrame { texture_view: true, skin_available: true, ..frame() });
    assert_eq!(
        plan.draws[0],
        draw(AlignmentMesh::Template, AlignmentDrawKind::Skin, RenderDepthScope::ResetBeforeDraw)
    );
    let no_skin = draw_alignment(&AlignmentFrame { texture_view: true, ..frame() });
    assert_eq!(no_skin.draws[0].kind, AlignmentDrawKind::Solid);
}

#[test]
fn anything_holding_the_pointer_blocks_the_view() {
    assert!(!draw_alignment(&frame()).input_blocked);
    assert!(draw_alignment(&AlignmentFrame { importing: true, ..frame() }).input_blocked);
    assert!(draw_alignment(&AlignmentFrame { press_spent: true, ..frame() }).input_blocked);
    assert!(draw_alignment(&AlignmentFrame { tools_block_pointer: true, ..frame() }).input_blocked);
}

#[test]
fn an_empty_workspace_says_the_alignment_is_pending() {
    let empty = draw_alignment(&AlignmentFrame { has_template: false, has_scan: false, ..frame() });
    assert!(empty.pending_message);
    assert!(empty.draws.is_empty());
    assert!(!draw_alignment(&frame()).pending_message);
}
