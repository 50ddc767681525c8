use vstd::prelude::*;

use crate::scene::RenderDepthScope;
use crate::sculpt::{
    sculpt_group_target, spec_depth_scope_at, spec_sculpt_group_target, SculptSurfaceGroup,
    SculptTarget, SculptTargets,
};

verus! {

/// The mesh a draw of the sculpted result covers.
#[derive(Clone, Copy, Debug, PartialEq, Eq, Structural, Hash)]
pub enum ResultDrawTarget {
    /// The whole result head, when it is not split into groups.
    Whole,
    /// One surface group.
    Group(SculptSurfaceGroup),
    /// The left eye, turned to its gaze.
    LeftEye,
    /// The right eye, turned to its gaze.
    RightEye,
}

/// How a draw of the sculpted result is shaded.
#[derive(Clone, Copy, Debug, PartialEq, Eq, Structural, Hash)]
pub enum ResultDrawKind {
    Solid,
    /// Textured with the skin preview.
    Skin,
    /// The wire overlay, faded on a group that is locked.
    Wire { faded: bool },
    Xray,
}

/// One draw call of the sculpted result.
#[derive(Clone, Copy, Debug, PartialEq, Eq, Structural, Hash)]
pub struct ResultDraw {
    pub target: ResultDrawTarget,
    pub kind: ResultDrawKind,
    pub depth: RenderDepthScope,
}

/// What a sculpt frame reads of the application.
#[derive(Clone, Copy, Debug, PartialEq, Eq, Structural, Hash)]
pub struct SculptResultInput {
    /// The targets shown.
    pub visible: SculptTargets,
    /// The targets that take strokes.
    pub editable: SculptTargets,
    /// The eyes are drawn turned to their gaze, apart from the eye group.
    pub eye_preview: bool,
    /// The surface is shown textured with a skin preview at hand.
    pub skin: bool,
    /// The skin leaves the tear film blank.
    pub tear_blank: bool,
    /// The skin leaves the lashes blank.
    pub lashes_blank: bool,
    /// The wire overlay is on and has some opacity.
    pub wire: bool,
    /// The x-ray overlay is on and has some opacity.
    pub xray: bool,
}

pub open spec fn result_draw(target: ResultDrawTarget, kind: ResultDrawKind, depth: RenderDepthScope) -> ResultDraw {
    ResultDraw { target, kind, depth }
}

/// Whether a group is drawn: its target is shown, and the eye group gives
/// way to the turned eyes when they are previewed.
pub open spec fn spec_group_kept(group: SculptSurfaceGroup, visible: SculptTargets, eye_preview: bool) -> bool {
    visible.spec_contains(spec_sculpt_group_target(group)) && !(eye_preview && group
        == SculptSurfaceGroup::Eyes)
}

/// The groups drawn, in the order the result lists them.
pub open spec fn spec_kept_groups(
    surfaces: Seq<SculptSurfaceGroup>,
    visible: SculptTargets,
    eye_preview: bool,
) -> Seq<SculptSurfaceGroup>
    decreases surfaces.len(),
{
    if surfaces.len() == 0 {
        seq![]
    } else {
        let before = spec_kept_groups(surfaces.drop_last(), visible, eye_preview);
        if spec_group_kept(surfaces.last(), visible, eye_preview) {
            before.push(surfaces.last())
        } else {
            before
        }
    }
}

/// Whether a group falls back to solid under a skin that leaves it blank.
pub open spec fn spec_needs_solid(input: SculptResultInput, group: SculptSurfaceGroup) -> bool {
    match group {
        SculptSurfaceGroup::TearLacrimal => input.tear_blank,
        SculptSurfaceGroup::Eyelashes => input.lashes_blank,
        _ => false,
    }
}

/// The turned eyes are drawn when the eyes are shown and previewed.
pub open spec fn spec_eyes_drawn(input: SculptResultInput) -> bool {
    input.visible.eyes && input.eye_preview
}

/// The surface draws, group by group and then the eyes.
pub open spec fn spec_base_draws(input: SculptResultInput, kept: Seq<SculptSurfaceGroup>) -> Seq<ResultDraw> {
    let grouped = kept.len() > 0 || input.eye_preview;
    let n = kept.len();
    if input.skin {
        if grouped {
            Seq::new(
                n,
                |i: int|
                    if spec_needs_solid(input, kept[i]) {
                        result_draw(
                            ResultDrawTarget::Group(kept[i]),
                            ResultDrawKind::Solid,
                            RenderDepthScope::Shared,
                        )
                    } else {
                        result_draw(
                            ResultDrawTarget::Group(kept[i]),
                            ResultDrawKind::Skin,
                            spec_depth_scope_at(i),
                        )
                    },
            ) + if spec_eyes_drawn(input) {
                seq![
                    result_draw(ResultDrawTarget::LeftEye, ResultDrawKind::Skin, spec_depth_scope_at(n as int)),
                    result_draw(ResultDrawTarget::RightEye, ResultDrawKind::Skin, spec_depth_scope_at(n + 1int)),
                ]
            } else {
                seq![]
            }
        } else {
            seq![result_draw(ResultDrawTarget::Whole, ResultDrawKind::Skin, RenderDepthScope::ResetBeforeDraw)]
        }
    } else if !grouped {
        if input.visible.head_skin {
            seq![result_draw(ResultDrawTarget::Whole, ResultDrawKind::Solid, RenderDepthScope::Shared)]
        } else {
            seq![]
        }
    } else {
        Seq::new(
            n,
            |i: int|
                result_draw(
                    ResultDrawTarget::Group(kept[i]),
                    ResultDrawKind::Solid,
                    RenderDepthScope::Shared,
                ),
        ) + if spec_eyes_drawn(input) {
            seq![
                result_draw(ResultDrawTarget::LeftEye, ResultDrawKind::Solid, RenderDepthScope::Shared),
                result_draw(ResultDrawTarget::RightEye, ResultDrawKind::Solid, RenderDepthScope::Shared),
            ]
        } else {
            seq![]
        }
    }
}

/// The wire overlay: over the whole head, or over each drawn group, faded
/// where the group is locked.
pub open spec fn spec_wire_draws(input: SculptResultInput, kept: Seq<SculptSurfaceGroup>) -> Seq<ResultDraw> {
    let grouped = kept.len() > 0 || input.eye_preview;
    if !input.wire {
        seq![]
    } else if !grouped {
        if input.visible.head_skin {
            seq![
                result_draw(
                    ResultDrawTarget::Whole,
                    ResultDrawKind::Wire { faded: !input.editable.head_skin },
                    RenderDepthScope::Shared,
                ),
            ]
        } else {
            seq![]
        }
    } else {
        Seq::new(
            kept.len(),
            |i: int|
                result_draw(
                    ResultDrawTarget::Group(kept[i]),
                    ResultDrawKind::Wire {
                        faded: !input.editable.spec_contains(spec_sculpt_group_target(kept[i])),
                    },
                    RenderDepthScope::Shared,
                ),
        )
    }
}

/// The x-ray overlay: over the whole head from a cleared depth buffer, or
/// over each drawn group, the first clearing depth and the rest sharing it.
pub open spec fn spec_xray_draws(input: SculptResultInput, kept: Seq<SculptSurfaceGroup>) -> Seq<ResultDraw> {
    let grouped = kept.len() > 0 || input.eye_preview;
    if !input.xray {
        seq![]
    } else if !grouped {
        if input.visible.head_skin {
            seq![result_draw(ResultDrawTarget::Whole, ResultDrawKind::Xray, RenderDepthScope::ResetBeforeDraw)]
        } else {
            seq![]
        }
    } else {
        Seq::new(
            kept.len(),
            |i: int|
                result_draw(ResultDrawTarget::Group(kept[i]), ResultDrawKind::Xray, spec_depth_scope_at(i)),
        )
    }
}

/// Every draw of a sculpt frame, in order.
pub open spec fn spec_sculpt_result_draws(
    input: SculptResultInput,
    surfaces: Seq<SculptSurfaceGroup>,
) -> Seq<ResultDraw> {
    let kept = spec_kept_groups(surfaces, input.visible, input.eye_preview);
    spec_base_draws(input, kept) + spec_wire_draws(input, kept) + spec_xray_draws(input, kept)
}

/// The groups of `surfaces` that are drawn, in order.
fn kept_groups(input: &SculptResultInput, surfaces: &Vec<SculptSurfaceGroup>) -> (result: Vec<
    SculptSurfaceGroup,
>)
    ensures
        result@ == spec_kept_groups(surfaces@, input.visible, input.eye_preview),
{
    let mut kept: Vec<SculptSurfaceGroup> = Vec::new();
    let mut index: usize = 0;
    while index < surfaces.len()
        invariant
            index <= surfaces@.len(),
            kept@ == spec_kept_groups(surfaces@.take(index as int), input.visible, input.eye_preview),
        decreases surfaces@.len() - index,
    {
        assert(surfaces@.take(index + 1).drop_last() =~= surfaces@.take(index as int));
        let group = surfaces[index];
        let shown = input.visible.contains(sculpt_group_target(group));
        let replaced = input.eye_preview && group == SculptSurfaceGroup::Eyes;
        if shown && !replaced {
            kept.push(group);
        }
        index += 1;
    }
    assert(surfaces@.take(surfaces@.len() as int) =~= surfaces@);
    kept
}

/// The depth scope of the `index`-th of a run of grouped draws.
fn depth_scope_at(index: usize) -> (result: RenderDepthScope)
    ensures
        result == spec_depth_scope_at(index as int),
{
    if index == 0 {
        RenderDepthScope::ResetBeforeDraw
    } else {
        RenderDepthScope::Shared
    }
}

/// Plans the draws of a sculpt frame from the result's surface groups.
///
/// Only groups whose target is shown are drawn, and the eye group gives way
/// to the turned eyes when they are previewed. Under a skin the groups are
/// textured as one run that clears depth once and then shares it, so they
/// hide one another and nothing drawn before; a group the skin leaves blank
/// falls back to solid; a head with no groups is textured whole. Without a
/// skin every group is solid. The wire overlay follows the drawn groups,
/// faded on locked ones, and the x-ray overlay runs over them from a cleared
/// depth buffer; with no groups both cover the whole head when the skin
/// target is shown.
pub fn sculpt_result_draws(input: &SculptResultInput, surfaces: &Vec<SculptSurfaceGroup>) -> (result:
    Vec<ResultDraw>)
    ensures
        result@ == spec_sculpt_result_draws(*input, surfaces@),
{
    let kept = kept_groups(input, surfaces);
    let n = kept.len();
    let grouped = n > 0 || input.eye_preview;
    let eyes = input.visible.contains(SculptTarget::Eyes) && input.eye_preview;
    let mut draws: Vec<ResultDraw> = Vec::new();
    if input.skin {
        if grouped {
            let mut index: usize = 0;
            while index < n
                invariant
                    n == kept@.len(),
                    index <= n,
                    draws@ =~= Seq::new(
                        index as nat,
                        |i: int|
                            if spec_needs_solid(*input, kept@[i]) {
                                result_draw(
                                    ResultDrawTarget::Group(kept@[i]),
                                    ResultDrawKind::Solid,
                                    RenderDepthScope::Shared,
                                )
                            } else {
                                result_draw(
                                    ResultDrawTarget::Group(kept@[i]),
                                    ResultDrawKind::Skin,
                                    spec_depth_scope_at(i),
                                )
                            },
                    ),
                decreases n - index,
            {
                let group = kept[index];
                let solid = match group {
                    SculptSurfaceGroup::TearLacrimal => input.tear_blank,
                    SculptSurfaceGroup::Eyelashes => input.lashes_blank,
                    _ => false,
                };
                if solid {
                    draws.push(
                        ResultDraw {
                            target: ResultDrawTarget::Group(group),
                            kind: ResultDrawKind::Solid,
                            depth: RenderDepthScope::Shared,
                        },
                    );
                } else {
                    draws.push(
                        ResultDraw {
                            target: ResultDrawTarget::Group(group),
                            kind: ResultDrawKind::Skin,
                            depth: depth_scope_at(index),
                        },
                    );
                }
                index += 1;
            }
            if eyes {
                draws.push(
                    ResultDraw {
                        target: ResultDrawTarget::LeftEye,
                        kind: ResultDrawKind::Skin,
                        depth: depth_scope_at(n),
                    },
                );
                draws.push(
                    ResultDraw {
                        target: ResultDrawTarget::RightEye,
                        kind: ResultDrawKind::Skin,
                        depth: RenderDepthScope::Shared,
                    },
                );
            }
        } else {
            draws.push(
                ResultDraw {
                    target: ResultDrawTarget::Whole,
                    kind: ResultDrawKind::Skin,
                    depth: RenderDepthScope::ResetBeforeDraw,
                },
            );
        }
    } else if !grouped {
        if input.visible.contains(SculptTarget::HeadSkin) {
            draws.push(
                ResultDraw {
                    target: ResultDrawTarget::Whole,
                    kind: ResultDrawKind::Solid,
                    depth: RenderDepthScope::Shared,
                },
            );
        }
    } else {
        let mut index: usize = 0;
        while index < n
            invariant
                n == kept@.len(),
                index <= n,
                draws@ =~= Seq::new(
                    index as nat,
                    |i: int|
                        result_draw(
                            ResultDrawTarget::Group(kept@[i]),
                            ResultDrawKind::Solid,
                            RenderDepthScope::Shared,
                        ),
                ),
            decreases n - index,
        {
            draws.push(
                ResultDraw {
                    target: ResultDrawTarget::Group(kept[index]),
                    kind: ResultDrawKind::Solid,
                    depth: RenderDepthScope::Shared,
                },
            );
            index += 1;
        }
        if eyes {
            draws.push(
                ResultDraw {
                    target: ResultDrawTarget::LeftEye,
                    kind: ResultDrawKind::Solid,
                    depth: RenderDepthScope::Shared,
                },
            );
            draws.push(
                ResultDraw {
                    target: ResultDrawTarget::RightEye,
                    kind: ResultDrawKind::Solid,
                    depth: RenderDepthScope::Shared,
                },
            );
        }
    }
    assert(draws@ =~= spec_base_draws(*input, kept@));
    let ghost base = draws@;

    if input.wire {
        if !grouped {
            if input.visible.contains(SculptTarget::HeadSkin) {
                draws.push(
                    ResultDraw {
                        target: ResultDrawTarget::Whole,
                        kind: ResultDrawKind::Wire {
                            faded: !input.editable.contains(SculptTarget::HeadSkin),
                        },
                        depth: RenderDepthScope::Shared,
                    },
                );
            }
        } else {
            let mut index: usize = 0;
            while index < n
                invariant
                    n == kept@.len(),
                    index <= n,
                    draws@ =~= base + Seq::new(
                        index as nat,
                        |i: int|
                            result_draw(
                                ResultDrawTarget::Group(kept@[i]),
                                ResultDrawKind::Wire {
                                    faded: !input.editable.spec_contains(
                                        spec_sculpt_group_target(kept@[i]),
                                    ),
                                },
                                RenderDepthScope::Shared,
                            ),
                    ),
                decreases n - index,
            {
                let group = kept[index];
                let faded = !input.editable.contains(sculpt_group_target(group));
                draws.push(
                    ResultDraw {
                        target: ResultDrawTarget::Group(group),
                        kind: ResultDrawKind::Wire { faded },
                        depth: RenderDepthScope::Shared,
                    },
                );
                index += 1;
            }
        }
    }
    assert(draws@ =~= base + spec_wire_draws(*input, kept@));
    let ghost with_wire = draws@;

    if input.xray {
        if !grouped {
            if input.visible.contains(SculptTarget::HeadSkin) {
                draws.push(
                    ResultDraw {
                        target: ResultDrawTarget::Whole,
                        kind: ResultDrawKind::Xray,
                        depth: RenderDepthScope::ResetBeforeDraw,
                    },
                );
            }
        } else {
            let mut index: usize = 0;
            while index < n
                invariant
                    n == kept@.len(),
                    index <= n,
                    draws@ =~= with_wire + Seq::new(
                        index as nat,
                        |i: int|
                            result_draw(
                                ResultDrawTarget::Group(kept@[i]),
                                ResultDrawKind::Xray,
                                spec_depth_scope_at(i),
                            ),
                    ),
                decreases n - index,
            {
                draws.push(
                    ResultDraw {
                        target: ResultDrawTarget::Group(kept[index]),
                        kind: ResultDrawKind::Xray,
                        depth: depth_scope_at(index),
                    },
                );
                index += 1;
            }
        }
    }
    assert(draws@ =~= with_wire + spec_xray_draws(*input, kept@));
    draws
}

/// Under a skin, the grouped surfaces clear depth once, on the first skin
/// draw of the run, and share it after; and no group of a hidden target is
/// ever drawn.
pub proof fn lemma_grouped_skin_clears_depth_once(
    input: SculptResultInput,
    surfaces: Seq<SculptSurfaceGroup>,
    i: int,
)
    requires
        input.skin,
        0 <= i < spec_kept_groups(surfaces, input.visible, input.eye_preview).len(),
    ensures
        ({
            let kept = spec_kept_groups(surfaces, input.visible, input.eye_preview);
            let draws = spec_sculpt_result_draws(input, surfaces);
            &&& draws[i].target == ResultDrawTarget::Group(kept[i])
            &&& draws[i].kind == ResultDrawKind::Skin ==> (draws[i].depth
                == RenderDepthScope::ResetBeforeDraw <==> i == 0)
            &&& input.visible.spec_contains(spec_sculpt_group_target(kept[i]))
        }),
{
    lemma_kept_groups_are_shown(surfaces, input.visible, input.eye_preview);
    let kept = spec_kept_groups(surfaces, input.visible, input.eye_preview);
    let base = spec_base_draws(input, kept);
    assert(spec_sculpt_result_draws(input, surfaces)[i] == base[i]);
}

/// Every group kept for drawing has its target shown.
pub proof fn lemma_kept_groups_are_shown(
    surfaces: Seq<SculptSurfaceGroup>,
    visible: SculptTargets,
    eye_preview: bool,
)
    ensures
        forall|k: int|
            0 <= k < spec_kept_groups(surfaces, visible, eye_preview).len() ==> spec_group_kept(
                #[trigger] spec_kept_groups(surfaces, visible, eye_preview)[k],
                visible,
                eye_preview,
            ),
    decreases surfaces.len(),
{
    if surfaces.len() > 0 {
        lemma_kept_groups_are_shown(surfaces.drop_last(), visible, eye_preview);
        let before = spec_kept_groups(surfaces.drop_last(), visible, eye_preview);
        let kept = spec_kept_groups(surfaces, visible, eye_preview);
        assert forall|k: int| 0 <= k < kept.len() implies spec_group_kept(
            #[trigger] kept[k],
            visible,
            eye_preview,
        ) by {
            if k < before.len() {
                assert(kept[k] == before[k]);
            }
        }
    }
}

/// A mesh of the composed result head.
#[derive(Clone, Copy, Debug, PartialEq, Eq, Structural, Hash)]
pub enum ComposedMesh {
    Head,
    TearLacrimal,
    Eyelashes,
}

/// One draw call of the composed result.
#[derive(Clone, Copy, Debug, PartialEq, Eq, Structural, Hash)]
pub struct ComposedDraw {
    pub mesh: ComposedMesh,
    pub kind: ResultDrawKind,
    pub depth: RenderDepthScope,
}

/// What the composed result frame reads of the application.
#[derive(Clone, Copy, Debug, PartialEq, Eq, Structural, Hash)]
pub struct ComposedInput {
    pub texture_view: bool,
    pub skin_available: bool,
    /// The tear film is switched on and the result has one.
    pub tears: bool,
    /// The lashes are switched on and the result has them.
    pub lashes: bool,
    pub wire_visible: bool,
    pub wire_has_alpha: bool,
    pub xray_visible: bool,
    pub xray_has_alpha: bool,
}

pub open spec fn composed(mesh: ComposedMesh, kind: ResultDrawKind, depth: RenderDepthScope) -> ComposedDraw {
    ComposedDraw { mesh, kind, depth }
}

/// The meshes of the composed result: the head, then the tear film and the
/// lashes when they are switched on and present.
pub open spec fn spec_composed_meshes(input: ComposedInput) -> Seq<ComposedMesh> {
    seq![ComposedMesh::Head] + (if input.tears {
        seq![ComposedMesh::TearLacrimal]
    } else {
        seq![]
    }) + (if input.lashes {
        seq![ComposedMesh::Eyelashes]
    } else {
        seq![]
    })
}

/// Every draw of the composed result, in order.
pub open spec fn spec_composed_draws(input: ComposedInput) -> Seq<ComposedDraw> {
    let meshes = spec_composed_meshes(input);
    let textured = input.texture_view && input.skin_available;
    let base: Seq<ComposedDraw> = if textured {
        seq![composed(ComposedMesh::Head, ResultDrawKind::Skin, RenderDepthScope::ResetBeforeDraw)]
    } else {
        Seq::new(
            meshes.len(),
            |i: int| composed(meshes[i], ResultDrawKind::Solid, RenderDepthScope::Shared),
        )
    };
    let wire: Seq<ComposedDraw> = if input.wire_visible && input.wire_has_alpha {
        Seq::new(
            meshes.len(),
            |i: int|
                composed(meshes[i], ResultDrawKind::Wire { faded: false }, RenderDepthScope::Shared),
        )
    } else {
        seq![]
    };
    let xray: Seq<ComposedDraw> = if input.xray_visible && input.xray_has_alpha {
        Seq::new(meshes.len(), |i: int| composed(meshes[i], ResultDrawKind::Xray, spec_depth_scope_at(i)))
    } else {
        seq![]
    };
    base + wire + xray
}

/// Plans the draws of the composed result head.
///
/// With the texture view and a skin at hand the head is textured whole, its
/// attachments shown by the skin itself; otherwise the head and each
/// switched-on attachment are drawn solid. The wire overlay covers each mesh,
/// and the x-ray overlay covers each from a cleared depth buffer.
pub fn composed_result_draws(input: &ComposedInput) -> (result: Vec<ComposedDraw>)
    ensures
        result@ == spec_composed_draws(*input),
{
    let mut meshes: Vec<ComposedMesh> = vec![ComposedMesh::Head];
    if input.tears {
        meshes.push(ComposedMesh::TearLacrimal);
    }
    if input.lashes {
        meshes.push(ComposedMesh::Eyelashes);
    }
    assert(meshes@ =~= spec_composed_meshes(*input));
    let n = meshes.len();
    let mut draws: Vec<ComposedDraw> = Vec::new();
    if input.texture_view && input.skin_available {
        draws.push(
            ComposedDraw {
                mesh: ComposedMesh::Head,
                kind: ResultDrawKind::Skin,
                depth: RenderDepthScope::ResetBeforeDraw,
            },
        );
    } else {
        let mut index: usize = 0;
        while index < n
            invariant
                n == meshes@.len(),
                index <= n,
                draws@ =~= Seq::new(
                    index as nat,
                    |i: int| composed(meshes@[i], ResultDrawKind::Solid, RenderDepthScope::Shared),
                ),
            decreases n - index,
        {
            draws.push(
                ComposedDraw {
                    mesh: meshes[index],
                    kind: ResultDrawKind::Solid,
                    depth: RenderDepthScope::Shared,
                },
            );
            index += 1;
        }
    }
    let ghost base = draws@;
    if input.wire_visible && input.wire_has_alpha {
        let mut index: usize = 0;
        while index < n
            invariant
                n == meshes@.len(),
                index <= n,
                draws@ =~= base + Seq::new(
                    index as nat,
                    |i: int|
                        composed(
                            meshes@[i],
                            ResultDrawKind::Wire { faded: false },
                            RenderDepthScope::Shared,
                        ),
                ),
            decreases n - index,
        {
            draws.push(
                ComposedDraw {
                    mesh: meshes[index],
                    kind: ResultDrawKind::Wire { faded: false },
                    depth: RenderDepthScope::Shared,
                },
            );
            index += 1;
        }
    }
    let ghost with_wire = draws@;
    if input.xray_visible && input.xray_has_alpha {
        let mut index: usize = 0;
        while index < n
            invariant
                n == meshes@.len(),
                index <= n,
                draws@ =~= with_wire + Seq::new(
                    index as nat,
                    |i: int| composed(meshes@[i], ResultDrawKind::Xray, spec_depth_scope_at(i)),
                ),
            decreases n - index,
        {
            draws.push(
                ComposedDraw { mesh: meshes[index], kind: ResultDrawKind::Xray, depth: depth_scope_at(index) },
            );
            index += 1;
        }
    }
    assert(draws@ =~= spec_composed_draws(*input));
    draws
}

/// Previewed eyes are always drawn: when the eyes are shown and previewed,
/// the frame draws the left eye and the right eye, each once before any
/// overlay, textured under a skin and solid without one.
pub proof fn lemma_previewed_eyes_are_drawn(input: SculptResultInput, surfaces: Seq<SculptSurfaceGroup>)
    requires
        input.visible.eyes,
        input.eye_preview,
    ensures
        exists|i: int|
            0 <= i < spec_sculpt_result_draws(input, surfaces).len()
                && (#[trigger] spec_sculpt_result_draws(input, surfaces)[i]).target
                == ResultDrawTarget::LeftEye && spec_sculpt_result_draws(input, surfaces)[i].kind == (
            if input.skin {
                ResultDrawKind::Skin
            } else {
                ResultDrawKind::Solid
            }),
        exists|i: int|
            0 <= i < spec_sculpt_result_draws(input, surfaces).len()
                && (#[trigger] spec_sculpt_result_draws(input, surfaces)[i]).target
                == ResultDrawTarget::RightEye && spec_sculpt_result_draws(input, surfaces)[i].kind == (
            if input.skin {
                ResultDrawKind::Skin
            } else {
                ResultDrawKind::Solid
            }),
{
    let kept = spec_kept_groups(surfaces, input.visible, input.eye_preview);
    let n = kept.len() as int;
    let base = spec_base_draws(input, kept);
    let draws = spec_sculpt_result_draws(input, surfaces);
    assert(base.len() == n + 2);
    assert(draws == base + spec_wire_draws(input, kept) + spec_xray_draws(input, kept));
    assert(draws[n] == base[n]);
    assert(draws[n + 1] == base[n + 1]);
    assert(base[n].target == ResultDrawTarget::LeftEye);
    assert(base[n + 1].target == ResultDrawTarget::RightEye);
}

} // verus!
