use vkit_viewport::result_plan::{
    composed_result_draws, sculpt_result_draws, ComposedDraw, ComposedInput, ComposedMesh,
    ResultDraw, ResultDrawKind, ResultDrawTarget, SculptResultInput,
};
use vkit_viewport::scene::RenderDepthScope;
use vkit_viewport::sculpt::{SculptSurfaceGroup, SculptTargets};

fn input() -> SculptResultInput {
    SculptResultInput {
        visible: SculptTargets::all(),
        editable: SculptTargets::all(),
        eye_preview: false,
        skin: true,
        tear_blank: false,
        lashes_blank: false,
        wire: false,
        xray: false,
    }
}

fn groups() -> Vec<SculptSurfaceGroup> {
    vec![SculptSurfaceGroup::HeadSkin, SculptSurfaceGroup::TearLacrimal, SculptSurfaceGroup::Eyes]
}

fn draw(target: ResultDrawTarget, kind: ResultDrawKind, depth: RenderDepthScope) -> ResultDraw {
    ResultDraw { target, kind, depth }
}

#[test]
fn grouped_skin_draws_clear_depth_once() {
    let draws = sculpt_result_draws(&input(), &groups());
    assert_eq!(
        draws,
        vec![
            draw(ResultDrawTarget::Group(SculptSurfaceGroup::HeadSkin), ResultDrawKind::Skin, RenderDepthScope::ResetBeforeDraw),
            draw(ResultDrawTarget::Group(SculptSurfaceGroup::TearLacrimal), ResultDrawKind::Skin, RenderDepthScope::Shared),
            draw(ResultDrawTarget::Group(SculptSurfaceGroup::Eyes), ResultDrawKind::Skin, RenderDepthScope::Shared),
        ]
    );
}

#[test]
fn a_blank_tear_film_falls_back_to_solid_without_taking_the_reset() {
    let draws = sculpt_result_draws(
        &SculptResultInput { tear_blank: true, ..input() },
        &vec![SculptSurfaceGroup::TearLacrimal, SculptSurfaceGroup::HeadSkin],
    );
    assert_eq!(draws[0], draw(ResultDrawTarget::Group(SculptSurfaceGroup::TearLacrimal), ResultDrawKind::Solid, RenderDepthScope::Shared));
    assert_eq!(draws[1].depth, RenderDepthScope::Shared, "the reset went to the solid slot");
}

#[test]
fn previewed_eyes_replace_the_eye_group() {
    let draws = sculpt_result_draws(&SculptResultInput { eye_preview: true, ..input() }, &groups());
    assert_eq!(draws.len(), 4);
    assert!(draws.iter().all(|d| d.target != ResultDrawTarget::Group(SculptSurfaceGroup::Eyes)));
    assert_eq!(draws[2], draw(ResultDrawTarget::LeftEye, ResultDrawKind::Skin, RenderDepthScope::Shared));
    assert_eq!(draws[3], draw(ResultDrawTarget::RightEye, ResultDrawKind::Skin, RenderDepthScope::Shared));
}

#[test]
fn a_hidden_target_is_never_drawn() {
    let mut visible = SculptTargets::all();
    visible.tear = false;
    let draws = sculpt_result_draws(&SculptResultInput { visible, wire: true, xray: true, ..input() }, &groups());
    assert!(draws.iter().all(|d| d.target != ResultDrawTarget::Group(SculptSurfaceGroup::TearLacrimal)));
    assert_eq!(draws.len(), 6);
}

#[test]
fn locked_groups_get_a_faded_wire_and_xray_starts_clear() {
    let mut editable = SculptTargets::all();
    editable.head_skin = false;
    let draws = sculpt_result_draws(
        &SculptResultInput { editable, skin: false, wire: true, xray: true, ..input() },
        &groups(),
    );
    assert_eq!(draws.len(), 9);
    assert_eq!(draws[0].kind, ResultDrawKind::Solid);
    assert_eq!(draws[3].kind, ResultDrawKind::Wire { faded: true });
    assert_eq!(draws[4].kind, ResultDrawKind::Wire { faded: false });
    assert_eq!(draws[6].depth, RenderDepthScope::ResetBeforeDraw);
    assert_eq!(draws[7].depth, RenderDepthScope::Shared);
}

#[test]
fn a_head_without_groups_is_drawn_whole() {
    let skin = sculpt_result_draws(&input(), &Vec::new());
    assert_eq!(skin, vec![draw(ResultDrawTarget::Whole, ResultDrawKind::Skin, RenderDepthScope::ResetBeforeDraw)]);
    let solid = sculpt_result_draws(&SculptResultInput { skin: false, wire: true, xray: true, ..input() }, &Vec::new());
    assert_eq!(
        solid,
        vec![
            draw(ResultDrawTarget::Whole, ResultDrawKind::Solid, RenderDepthScope::Shared),
            draw(ResultDrawTarget::Whole, ResultDrawKind::Wire { faded: false }, RenderDepthScope::Shared),
            draw(ResultDrawTarget::Whole, ResultDrawKind::Xray, RenderDepthScope::ResetBeforeDraw),
        ]
    );
    let mut visible = SculptTargets::all();
    visible.head_skin = false;
    let hidden = sculpt_result_draws(&SculptResultInput { visible, skin: false, wire: true, ..input() }, &Vec::new());
    assert!(hidden.is_empty());
}

fn composed() -> ComposedInput {
    ComposedInput {
        texture_view: false,
        skin_available: true,
        tears: true,
        lashes: false,
        wire_visible: true,
        wire_has_alpha: true,
        xray_visible: true,
        xray_has_alpha: true,
    }
}

#[test]
fn scan_overlay_belongs_only_to_save_and_zero_opacity_is_off() {
    let draws = composed_result_draws(&composed());
    assert_eq!(
        draws,
        vec![
            ComposedDraw { mesh: ComposedMesh::Head, kind: ResultDrawKind::Solid, depth: RenderDepthScope::Shared },
            ComposedDraw { mesh: ComposedMesh::TearLacrimal, kind: ResultDrawKind::Solid, depth: RenderDepthScope::Shared },
            ComposedDraw { mesh: ComposedMesh::Head, kind: ResultDrawKind::Wire { faded: false }, depth: RenderDepthScope::Shared },
            ComposedDraw { mesh: ComposedMesh::TearLacrimal, kind: ResultDrawKind::Wire { faded: false }, depth: RenderDepthScope::Shared },
            ComposedDraw { mesh: ComposedMesh::Head, kind: ResultDrawKind::Xray, depth: RenderDepthScope::ResetBeforeDraw },
            ComposedDraw { mesh: ComposedMesh::TearLacrimal, kind: ResultDrawKind::Xray, depth: RenderDepthScope::Shared },
        ]
    );
    let textured = composed_result_draws(&ComposedInput { texture_view: true, wire_has_alpha: false, xray_visible: false, ..composed() });
    assert_eq!(
        textured,
        vec![ComposedDraw { mesh: ComposedMesh::Head, kind: ResultDrawKind::Skin, depth: RenderDepthScope::ResetBeforeDraw }]
    );
}
