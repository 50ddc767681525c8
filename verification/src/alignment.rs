use vstd::prelude::*;

use crate::scene::{EditSourceMode, RenderDepthScope};

verus! {

/// What the alignment view reads of the application and of the frame.
#[derive(Clone, Copy, Debug, PartialEq, Eq, Structural, Hash)]
pub struct AlignmentFrame {
    /// A scan is being imported.
    pub importing: bool,
    /// A camera roll sweep holds the pointer.
    pub roll_owns_pointer: bool,
    /// A camera mode other than orbiting holds the pointer.
    pub camera_mode_owns_pointer: bool,
    /// The press under the pointer was spent ending a gesture.
    pub press_spent: bool,
    /// The pointer is over the viewport tools.
    pub tools_block_pointer: bool,
    pub source_mode: EditSourceMode,
    /// A morphed result head exists.
    pub has_result: bool,
    /// The template head is loaded.
    pub has_template: bool,
    /// The scan head is loaded.
    pub has_scan: bool,
    /// The surface is shown textured.
    pub texture_view: bool,
    /// A skin preview is at hand.
    pub skin_available: bool,
    pub wire_visible: bool,
    /// The wire overlay has some opacity.
    pub wire_has_alpha: bool,
    pub xray_visible: bool,
    /// The x-ray overlay has some opacity.
    pub xray_has_alpha: bool,
}

/// Which head stands on the template side of the alignment view.
#[derive(Clone, Copy, Debug, PartialEq, Eq, Structural, Hash)]
pub enum TemplateSource {
    /// The morphed result, when a custom morph is the source.
    Result,
    /// The stock template.
    Template,
}

/// One of the two heads of the alignment view.
#[derive(Clone, Copy, Debug, PartialEq, Eq, Structural, Hash)]
pub enum AlignmentMesh {
    Template,
    Scan,
}

/// How a head is drawn in a pass.
#[derive(Clone, Copy, Debug, PartialEq, Eq, Structural, Hash)]
pub enum AlignmentDrawKind {
    /// Textured with the skin preview.
    Skin,
    Solid,
    Wire,
    Xray,
}

/// One draw call of the alignment view.
#[derive(Clone, Copy, Debug, PartialEq, Eq, Structural, Hash)]
pub struct AlignmentDraw {
    pub mesh: AlignmentMesh,
    pub kind: AlignmentDrawKind,
    pub depth: RenderDepthScope,
}

/// What the alignment view does in a frame.
#[derive(Clone, Debug, PartialEq, Eq)]
pub struct AlignmentPlan {
    /// Nothing under the pointer reaches the gizmo, the camera or the light.
    pub input_blocked: bool,
    /// The head on the template side, if any.
    pub template_source: Option<TemplateSource>,
    /// The scan is drawn beside it.
    pub scan_shown: bool,
    /// The draw calls, in order.
    pub draws: Vec<AlignmentDraw>,
    /// Neither head is loaded, and the view says the alignment is pending.
    pub pending_message: bool,
}

pub open spec fn draw(mesh: AlignmentMesh, kind: AlignmentDrawKind, depth: RenderDepthScope) -> AlignmentDraw {
    AlignmentDraw { mesh, kind, depth }
}

/// Whether anything takes the pointer from the alignment view.
pub open spec fn spec_alignment_input_blocked(frame: AlignmentFrame) -> bool {
    frame.importing || frame.roll_owns_pointer || frame.camera_mode_owns_pointer || frame.press_spent
        || frame.tools_block_pointer
}

/// A custom morph shows its result, falling back to the template; every
/// other source shows the template.
pub open spec fn spec_template_source(frame: AlignmentFrame) -> Option<TemplateSource> {
    if frame.source_mode == EditSourceMode::CustomMorph && frame.has_result {
        Some(TemplateSource::Result)
    } else if frame.has_template {
        Some(TemplateSource::Template)
    } else {
        None
    }
}

/// The scan is shown only when the scan head is the source.
pub open spec fn spec_scan_shown(frame: AlignmentFrame) -> bool {
    frame.source_mode == EditSourceMode::ScanHead && frame.has_scan
}

/// The base surfaces: the template textured over a cleared depth buffer when
/// a skin is shown, solid in the shared buffer otherwise; then the scan solid
/// over a cleared depth buffer, so it is never buried in the template.
pub open spec fn spec_base_draws(frame: AlignmentFrame) -> Seq<AlignmentDraw> {
    let template: Seq<AlignmentDraw> = if spec_template_source(frame) is Some {
        if frame.texture_view && frame.skin_available {
            seq![draw(AlignmentMesh::Template, AlignmentDrawKind::Skin, RenderDepthScope::ResetBeforeDraw)]
        } else {
            seq![draw(AlignmentMesh::Template, AlignmentDrawKind::Solid, RenderDepthScope::Shared)]
        }
    } else {
        seq![]
    };
    let scan: Seq<AlignmentDraw> = if spec_scan_shown(frame) {
        seq![draw(AlignmentMesh::Scan, AlignmentDrawKind::Solid, RenderDepthScope::ResetBeforeDraw)]
    } else {
        seq![]
    };
    template + scan
}

/// The wire overlay over each shown head, sharing depth.
pub open spec fn spec_wire_draws(frame: AlignmentFrame) -> Seq<AlignmentDraw> {
    if frame.wire_visible && frame.wire_has_alpha {
        let template: Seq<AlignmentDraw> = if spec_template_source(frame) is Some {
            seq![draw(AlignmentMesh::Template, AlignmentDrawKind::Wire, RenderDepthScope::Shared)]
        } else {
            seq![]
        };
        let scan: Seq<AlignmentDraw> = if spec_scan_shown(frame) {
            seq![draw(AlignmentMesh::Scan, AlignmentDrawKind::Wire, RenderDepthScope::Shared)]
        } else {
            seq![]
        };
        template + scan
    } else {
        seq![]
    }
}

/// The x-ray overlay over each shown head: the first x-ray draw clears depth
/// and the second shares it.
pub open spec fn spec_xray_draws(frame: AlignmentFrame) -> Seq<AlignmentDraw> {
    if frame.xray_visible && frame.xray_has_alpha {
        if spec_template_source(frame) is Some {
            seq![draw(AlignmentMesh::Template, AlignmentDrawKind::Xray, RenderDepthScope::ResetBeforeDraw)]
                + if spec_scan_shown(frame) {
                seq![draw(AlignmentMesh::Scan, AlignmentDrawKind::Xray, RenderDepthScope::Shared)]
            } else {
                seq![]
            }
        } else if spec_scan_shown(frame) {
            seq![draw(AlignmentMesh::Scan, AlignmentDrawKind::Xray, RenderDepthScope::ResetBeforeDraw)]
        } else {
            seq![]
        }
    } else {
        seq![]
    }
}

/// Every draw of the alignment view, in order.
pub open spec fn spec_alignment_draws(frame: AlignmentFrame) -> Seq<AlignmentDraw> {
    spec_base_draws(frame) + spec_wire_draws(frame) + spec_xray_draws(frame)
}

/// Plans a frame of the alignment view.
///
/// The pointer is turned away while a scan imports, while a camera gesture
/// or mode owns it, when its press was already spent and over the viewport
/// tools. The template side shows the morphed result for a custom morph and
/// the template otherwise; the scan is shown when it is the source. The
/// surfaces are drawn first, then the wire and x-ray overlays each over every
/// shown head; with no head loaded at all the view says the alignment is
/// pending.
pub fn draw_alignment(frame: &AlignmentFrame) -> (plan: AlignmentPlan)
    ensures
        plan.input_blocked == spec_alignment_input_blocked(*frame),
        plan.template_source == spec_template_source(*frame),
        plan.scan_shown == spec_scan_shown(*frame),
        plan.draws@ == spec_alignment_draws(*frame),
        plan.pending_message == (!frame.has_scan && !frame.has_template),
{
    let input_blocked = frame.importing || frame.roll_owns_pointer || frame.camera_mode_owns_pointer
        || frame.press_spent || frame.tools_block_pointer;
    let template_source = if frame.source_mode == EditSourceMode::CustomMorph && frame.has_result {
        Some(TemplateSource::Result)
    } else if frame.has_template {
        Some(TemplateSource::Template)
    } else {
        None
    };
    let has_template_side = template_source.is_some();
    let scan_shown = frame.source_mode == EditSourceMode::ScanHead && frame.has_scan;

    let mut draws: Vec<AlignmentDraw> = Vec::new();
    if has_template_side {
        if frame.texture_view && frame.skin_available {
            draws.push(
                AlignmentDraw {
                    mesh: AlignmentMesh::Template,
                    kind: AlignmentDrawKind::Skin,
                    depth: RenderDepthScope::ResetBeforeDraw,
                },
            );
        } else {
            draws.push(
                AlignmentDraw {
                    mesh: AlignmentMesh::Template,
                    kind: AlignmentDrawKind::Solid,
                    depth: RenderDepthScope::Shared,
                },
            );
        }
    }
    if scan_shown {
        draws.push(
            AlignmentDraw {
                mesh: AlignmentMesh::Scan,
                kind: AlignmentDrawKind::Solid,
                depth: RenderDepthScope::ResetBeforeDraw,
            },
        );
    }
    assert(draws@ =~= spec_base_draws(*frame));
    let ghost base = draws@;

    if frame.wire_visible && frame.wire_has_alpha {
        if has_template_side {
            draws.push(
                AlignmentDraw {
                    mesh: AlignmentMesh::Template,
                    kind: AlignmentDrawKind::Wire,
                    depth: RenderDepthScope::Shared,
                },
            );
        }
        if scan_shown {
            draws.push(
                AlignmentDraw {
                    mesh: AlignmentMesh::Scan,
                    kind: AlignmentDrawKind::Wire,
                    depth: RenderDepthScope::Shared,
                },
            );
        }
    }
    assert(draws@ =~= base + spec_wire_draws(*frame));
    let ghost with_wire = draws@;

    if frame.xray_visible && frame.xray_has_alpha {
        let mut reset = true;
        if has_template_side {
            draws.push(
                AlignmentDraw {
                    mesh: AlignmentMesh::Template,
                    kind: AlignmentDrawKind::Xray,
                    depth: RenderDepthScope::ResetBeforeDraw,
                },
            );
            reset = false;
        }
        if scan_shown {
            let depth = if reset {
                RenderDepthScope::ResetBeforeDraw
            } else {
                RenderDepthScope::Shared
            };
            draws.push(AlignmentDraw { mesh: AlignmentMesh::Scan, kind: AlignmentDrawKind::Xray, depth });
        }
    }
    assert(draws@ =~= with_wire + spec_xray_draws(*frame));
    AlignmentPlan {
        input_blocked,
        template_source,
        scan_shown,
        draws,
        pending_message: !frame.has_scan && !frame.has_template,
    }
}

/// The x-ray band starts over: whichever head it draws first clears depth,
/// so nothing drawn before it can hide an x-ray surface; and no wire pass
/// ever clears depth.
pub proof fn lemma_xray_band_starts_from_a_clear_depth_buffer(frame: AlignmentFrame)
    ensures
        spec_xray_draws(frame).len() > 0 ==> spec_xray_draws(frame)[0].depth
            == RenderDepthScope::ResetBeforeDraw,
        forall|i: int|
            1 <= i < spec_xray_draws(frame).len() ==> #[trigger] spec_xray_draws(frame)[i].depth
                == RenderDepthScope::Shared,
        forall|i: int|
            0 <= i < spec_wire_draws(frame).len() ==> #[trigger] spec_wire_draws(frame)[i].depth
                == RenderDepthScope::Shared,
        forall|i: int|
            0 <= i < spec_alignment_draws(frame).len() ==> (#[trigger] spec_alignment_draws(
                frame,
            )[i].mesh == AlignmentMesh::Scan ==> spec_scan_shown(frame)),
{
    let all = spec_alignment_draws(frame);
    let base = spec_base_draws(frame);
    let wire = spec_wire_draws(frame);
    let xray = spec_xray_draws(frame);
    assert forall|i: int| 0 <= i < all.len() && #[trigger] all[i].mesh == AlignmentMesh::Scan implies spec_scan_shown(
        frame,
    ) by {
        if i < base.len() {
            assert(all[i] == base[i]);
        } else if i < base.len() + wire.len() {
            assert(all[i] == wire[i - base.len()]);
        } else {
            assert(all[i] == xray[i - base.len() - wire.len()]);
        }
    }
}

} // verus!
