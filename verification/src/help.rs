use vstd::prelude::*;

use crate::keys::TextKey;
use crate::scene::Tab;

verus! {

/// Which help card the viewport offers.
#[derive(Clone, Copy, Debug, PartialEq, Eq, Structural, Hash)]
pub enum HelpScope {
    Tab(Tab),
    Projection,
}

/// The projection tool has a card of its own; everything else follows the tab.
pub open spec fn spec_help_scope(texturing: bool, projection_tool: bool, tab: Tab) -> HelpScope {
    if texturing && projection_tool {
        HelpScope::Projection
    } else {
        HelpScope::Tab(tab)
    }
}

/// The help card for the current state: `texturing` says the texture tab is
/// painting, `projection_tool` that its active tool is the projection.
pub fn help_scope(texturing: bool, projection_tool: bool, tab: Tab) -> (result: HelpScope)
    ensures
        result == spec_help_scope(texturing, projection_tool, tab),
{
    if texturing && projection_tool {
        return HelpScope::Projection;
    }
    HelpScope::Tab(tab)
}

pub open spec fn spec_pin_help_rows() -> Seq<(TextKey, TextKey)> {
    seq![
        (TextKey::HelpPlace, TextKey::ShortcutPlace),
        (TextKey::HelpMove, TextKey::ShortcutMove),
        (TextKey::HelpDelete, TextKey::ShortcutDelete),
        (TextKey::HelpXSymmetry, TextKey::ShortcutXSymmetry),
        (TextKey::HelpOrbit, TextKey::ShortcutOrbit),
        (TextKey::HelpTrackball, TextKey::ShortcutTrackball),
        (TextKey::HelpLevelRoll, TextKey::ShortcutLevelRoll),
        (TextKey::HelpPan, TextKey::ShortcutPan),
        (TextKey::HelpZoom, TextKey::ShortcutZoom),
        (TextKey::HelpDragZoom, TextKey::ShortcutDragZoom),
        (TextKey::HelpFrameView, TextKey::ShortcutFrameView),
        (TextKey::HelpSnapView, TextKey::ShortcutSnapView),
        (TextKey::HelpStandardViews, TextKey::ShortcutStandardViews),
        (TextKey::HelpCameraProjection, TextKey::ShortcutCameraProjection),
        (TextKey::HelpLight, TextKey::ShortcutLight),
        (TextKey::HelpUndo, TextKey::ShortcutUndo),
        (TextKey::HelpRedo, TextKey::ShortcutRedo),
    ]
}

/// The pin tab's card: placing, moving and deleting pins, then the camera.
pub fn pin_help_rows() -> (result: Vec<(TextKey, TextKey)>)
    ensures
        result@ == spec_pin_help_rows(),
{
    let result = vec![
        (TextKey::HelpPlace, TextKey::ShortcutPlace),
        (TextKey::HelpMove, TextKey::ShortcutMove),
        (TextKey::HelpDelete, TextKey::ShortcutDelete),
        (TextKey::HelpXSymmetry, TextKey::ShortcutXSymmetry),
        (TextKey::HelpOrbit, TextKey::ShortcutOrbit),
        (TextKey::HelpTrackball, TextKey::ShortcutTrackball),
        (TextKey::HelpLevelRoll, TextKey::ShortcutLevelRoll),
        (TextKey::HelpPan, TextKey::ShortcutPan),
        (TextKey::HelpZoom, TextKey::ShortcutZoom),
        (TextKey::HelpDragZoom, TextKey::ShortcutDragZoom),
        (TextKey::HelpFrameView, TextKey::ShortcutFrameView),
        (TextKey::HelpSnapView, TextKey::ShortcutSnapView),
        (TextKey::HelpStandardViews, TextKey::ShortcutStandardViews),
        (TextKey::HelpCameraProjection, TextKey::ShortcutCameraProjection),
        (TextKey::HelpLight, TextKey::ShortcutLight),
        (TextKey::HelpUndo, TextKey::ShortcutUndo),
        (TextKey::HelpRedo, TextKey::ShortcutRedo),
    ];
    assert(result@ =~= spec_pin_help_rows());
    result
}

pub open spec fn spec_align_help_rows() -> Seq<(TextKey, TextKey)> {
    seq![
        (TextKey::HelpSnapRotation, TextKey::ShortcutSnapRotation),
        (TextKey::HelpOrbit, TextKey::ShortcutOrbit),
        (TextKey::HelpPan, TextKey::ShortcutPan),
        (TextKey::HelpZoom, TextKey::ShortcutZoom),
        (TextKey::HelpDragZoom, TextKey::ShortcutDragZoom),
        (TextKey::HelpFrameView, TextKey::ShortcutFrameView),
        (TextKey::HelpSnapView, TextKey::ShortcutSnapView),
        (TextKey::HelpStandardViews, TextKey::ShortcutStandardViews),
        (TextKey::HelpCameraProjection, TextKey::ShortcutCameraProjection),
        (TextKey::HelpLight, TextKey::ShortcutLight),
        (TextKey::HelpUndo, TextKey::ShortcutUndo),
        (TextKey::HelpRedo, TextKey::ShortcutRedo),
    ]
}

/// The alignment tab's card: snapping the scan's rotation, then the camera.
pub fn align_help_rows() -> (result: Vec<(TextKey, TextKey)>)
    ensures
        result@ == spec_align_help_rows(),
{
    let result = vec![
        (TextKey::HelpSnapRotation, TextKey::ShortcutSnapRotation),
        (TextKey::HelpOrbit, TextKey::ShortcutOrbit),
        (TextKey::HelpPan, TextKey::ShortcutPan),
        (TextKey::HelpZoom, TextKey::ShortcutZoom),
        (TextKey::HelpDragZoom, TextKey::ShortcutDragZoom),
        (TextKey::HelpFrameView, TextKey::ShortcutFrameView),
        (TextKey::HelpSnapView, TextKey::ShortcutSnapView),
        (TextKey::HelpStandardViews, TextKey::ShortcutStandardViews),
        (TextKey::HelpCameraProjection, TextKey::ShortcutCameraProjection),
        (TextKey::HelpLight, TextKey::ShortcutLight),
        (TextKey::HelpUndo, TextKey::ShortcutUndo),
        (TextKey::HelpRedo, TextKey::ShortcutRedo),
    ];
    assert(result@ =~= spec_align_help_rows());
    result
}

pub open spec fn spec_hair_help_rows() -> Seq<(TextKey, TextKey)> {
    seq![
        (TextKey::HairToolPlant, TextKey::HairToolPlantHint),
        (TextKey::HairToolGrow, TextKey::HairToolGrowHint),
        (TextKey::HairToolErase, TextKey::HairToolEraseHint),
        (TextKey::HairToolComb, TextKey::HairToolCombHint),
        (TextKey::HelpHairSmooth, TextKey::ShortcutHairSmooth),
        (TextKey::HelpHairPick, TextKey::ShortcutHairPick),
        (TextKey::HelpBrushSize, TextKey::ShortcutBrushSize),
        (TextKey::HairSegmentsShort, TextKey::ShortcutBrushStrength),
        (TextKey::HelpOrbit, TextKey::ShortcutOrbit),
        (TextKey::HelpPan, TextKey::ShortcutPan),
        (TextKey::HelpZoom, TextKey::ShortcutZoom),
        (TextKey::HelpDragZoom, TextKey::ShortcutDragZoom),
        (TextKey::HelpSnapView, TextKey::ShortcutSnapView),
        (TextKey::HelpStandardViews, TextKey::ShortcutStandardViews),
        (TextKey::HelpLight, TextKey::ShortcutLight),
    ]
}

/// The hair tab's card: the brushes first, then the camera.
pub fn hair_help_rows() -> (result: Vec<(TextKey, TextKey)>)
    ensures
        result@ == spec_hair_help_rows(),
{
    let result = vec![
        (TextKey::HairToolPlant, TextKey::HairToolPlantHint),
        (TextKey::HairToolGrow, TextKey::HairToolGrowHint),
        (TextKey::HairToolErase, TextKey::HairToolEraseHint),
        (TextKey::HairToolComb, TextKey::HairToolCombHint),
        (TextKey::HelpHairSmooth, TextKey::ShortcutHairSmooth),
        (TextKey::HelpHairPick, TextKey::ShortcutHairPick),
        (TextKey::HelpBrushSize, TextKey::ShortcutBrushSize),
        (TextKey::HairSegmentsShort, TextKey::ShortcutBrushStrength),
        (TextKey::HelpOrbit, TextKey::ShortcutOrbit),
        (TextKey::HelpPan, TextKey::ShortcutPan),
        (TextKey::HelpZoom, TextKey::ShortcutZoom),
        (TextKey::HelpDragZoom, TextKey::ShortcutDragZoom),
        (TextKey::HelpSnapView, TextKey::ShortcutSnapView),
        (TextKey::HelpStandardViews, TextKey::ShortcutStandardViews),
        (TextKey::HelpLight, TextKey::ShortcutLight),
    ];
    assert(result@ =~= spec_hair_help_rows());
    result
}

pub open spec fn spec_detail_help_rows() -> Seq<(TextKey, TextKey)> {
    seq![
        (TextKey::SculptGrab, TextKey::ShortcutSculptGrab),
        (TextKey::HelpBrushSize, TextKey::ShortcutBrushSize),
        (TextKey::HelpBrushStrength, TextKey::ShortcutBrushStrength),
        (TextKey::SculptSmooth, TextKey::ShortcutSculptSmooth),
        (TextKey::SculptPushPull, TextKey::ShortcutSculptPushPull),
        (TextKey::SculptXSymmetry, TextKey::ShortcutXSymmetry),
        (TextKey::HelpOrbit, TextKey::ShortcutOrbit),
        (TextKey::HelpPan, TextKey::ShortcutPan),
        (TextKey::HelpZoom, TextKey::ShortcutZoom),
        (TextKey::HelpDragZoom, TextKey::ShortcutDragZoom),
        (TextKey::HelpSnapView, TextKey::ShortcutSnapView),
        (TextKey::HelpStandardViews, TextKey::ShortcutStandardViews),
        (TextKey::HelpCameraProjection, TextKey::ShortcutCameraProjection),
        (TextKey::HelpLight, TextKey::ShortcutLight),
        (TextKey::HelpUndo, TextKey::ShortcutUndo),
        (TextKey::HelpRedo, TextKey::ShortcutRedo),
    ]
}

/// The sculpt and texture card: the brush gestures, then the camera.
pub fn detail_help_rows() -> (result: Vec<(TextKey, TextKey)>)
    ensures
        result@ == spec_detail_help_rows(),
{
    let result = vec![
        (TextKey::SculptGrab, TextKey::ShortcutSculptGrab),
        (TextKey::HelpBrushSize, TextKey::ShortcutBrushSize),
        (TextKey::HelpBrushStrength, TextKey::ShortcutBrushStrength),
        (TextKey::SculptSmooth, TextKey::ShortcutSculptSmooth),
        (TextKey::SculptPushPull, TextKey::ShortcutSculptPushPull),
        (TextKey::SculptXSymmetry, TextKey::ShortcutXSymmetry),
        (TextKey::HelpOrbit, TextKey::ShortcutOrbit),
        (TextKey::HelpPan, TextKey::ShortcutPan),
        (TextKey::HelpZoom, TextKey::ShortcutZoom),
        (TextKey::HelpDragZoom, TextKey::ShortcutDragZoom),
        (TextKey::HelpSnapView, TextKey::ShortcutSnapView),
        (TextKey::HelpStandardViews, TextKey::ShortcutStandardViews),
        (TextKey::HelpCameraProjection, TextKey::ShortcutCameraProjection),
        (TextKey::HelpLight, TextKey::ShortcutLight),
        (TextKey::HelpUndo, TextKey::ShortcutUndo),
        (TextKey::HelpRedo, TextKey::ShortcutRedo),
    ];
    assert(result@ =~= spec_detail_help_rows());
    result
}

pub open spec fn spec_projection_help_rows() -> Seq<(TextKey, TextKey)> {
    seq![
        (TextKey::HelpProjectionPaint, TextKey::ShortcutProjectionPaint),
        (TextKey::HelpProjectionMove, TextKey::ShortcutProjectionMove),
        (TextKey::HelpProjectionRotate, TextKey::ShortcutProjectionRotate),
        (TextKey::HelpProjectionZoom, TextKey::ShortcutProjectionZoom),
        (TextKey::HelpBrushSize, TextKey::ShortcutBrushSize),
        (TextKey::HelpBrushStrength, TextKey::ShortcutBrushStrength),
        (TextKey::HelpProjectionDone, TextKey::ShortcutProjectionDone),
    ]
}

/// The projection tool's card.
pub fn projection_help_rows() -> (result: Vec<(TextKey, TextKey)>)
    ensures
        result@ == spec_projection_help_rows(),
{
    let result = vec![
        (TextKey::HelpProjectionPaint, TextKey::ShortcutProjectionPaint),
        (TextKey::HelpProjectionMove, TextKey::ShortcutProjectionMove),
        (TextKey::HelpProjectionRotate, TextKey::ShortcutProjectionRotate),
        (TextKey::HelpProjectionZoom, TextKey::ShortcutProjectionZoom),
        (TextKey::HelpBrushSize, TextKey::ShortcutBrushSize),
        (TextKey::HelpBrushStrength, TextKey::ShortcutBrushStrength),
        (TextKey::HelpProjectionDone, TextKey::ShortcutProjectionDone),
    ];
    assert(result@ =~= spec_projection_help_rows());
    result
}

pub open spec fn spec_save_help_rows() -> Seq<(TextKey, TextKey)> {
    seq![
        (TextKey::HelpOrbit, TextKey::ShortcutOrbit),
        (TextKey::HelpPan, TextKey::ShortcutPan),
        (TextKey::HelpZoom, TextKey::ShortcutZoom),
        (TextKey::HelpDragZoom, TextKey::ShortcutDragZoom),
        (TextKey::HelpFrameView, TextKey::ShortcutFrameView),
        (TextKey::HelpSnapView, TextKey::ShortcutSnapView),
        (TextKey::HelpStandardViews, TextKey::ShortcutStandardViews),
        (TextKey::HelpCameraProjection, TextKey::ShortcutCameraProjection),
        (TextKey::HelpLight, TextKey::ShortcutLight),
    ]
}

/// The result tab's card: the camera alone.
pub fn save_help_rows() -> (result: Vec<(TextKey, TextKey)>)
    ensures
        result@ == spec_save_help_rows(),
{
    let result = vec![
        (TextKey::HelpOrbit, TextKey::ShortcutOrbit),
        (TextKey::HelpPan, TextKey::ShortcutPan),
        (TextKey::HelpZoom, TextKey::ShortcutZoom),
        (TextKey::HelpDragZoom, TextKey::ShortcutDragZoom),
        (TextKey::HelpFrameView, TextKey::ShortcutFrameView),
        (TextKey::HelpSnapView, TextKey::ShortcutSnapView),
        (TextKey::HelpStandardViews, TextKey::ShortcutStandardViews),
        (TextKey::HelpCameraProjection, TextKey::ShortcutCameraProjection),
        (TextKey::HelpLight, TextKey::ShortcutLight),
    ];
    assert(result@ =~= spec_save_help_rows());
    result
}

/// The rows of the card for `scope`.
pub open spec fn spec_viewport_help_rows(scope: HelpScope) -> Seq<(TextKey, TextKey)> {
    match scope {
        HelpScope::Tab(Tab::Alignment) => spec_align_help_rows(),
        HelpScope::Tab(Tab::Edit) => spec_pin_help_rows(),
        HelpScope::Tab(Tab::Morph) => spec_detail_help_rows(),
        HelpScope::Tab(Tab::Texture) => spec_detail_help_rows(),
        HelpScope::Tab(Tab::Hair) => spec_hair_help_rows(),
        HelpScope::Tab(Tab::Result) => spec_save_help_rows(),
        HelpScope::Projection => spec_projection_help_rows(),
    }
}

/// The rows of the card the viewport shows for `scope`, each a function and
/// the input that performs it.
pub fn viewport_help_rows(scope: HelpScope) -> (result: Vec<(TextKey, TextKey)>)
    ensures
        result@ == spec_viewport_help_rows(scope),
{
    match scope {
        HelpScope::Tab(Tab::Alignment) => align_help_rows(),
        HelpScope::Tab(Tab::Edit) => pin_help_rows(),
        HelpScope::Tab(Tab::Morph) | HelpScope::Tab(Tab::Texture) => detail_help_rows(),
        HelpScope::Tab(Tab::Hair) => hair_help_rows(),
        HelpScope::Tab(Tab::Result) => save_help_rows(),
        HelpScope::Projection => projection_help_rows(),
    }
}

/// Every card that drives the camera offers the snap to a view, the
/// standard views, the projection switch and drag-zoom; all but the sculpt
/// and texture card also frame the head; the pin card opens with placing a
/// pin and keeps the level roll and mirroring; the alignment card keeps the
/// rotation snap.
pub proof fn lemma_every_camera_card_keeps_the_view_rows()
    ensures
        forall|rows: Seq<(TextKey, TextKey)>|
            rows == spec_align_help_rows() || rows == spec_pin_help_rows() || rows
                == spec_detail_help_rows() || rows == spec_save_help_rows() ==> {
                &&& rows.contains((TextKey::HelpSnapView, TextKey::ShortcutSnapView))
                &&& rows.contains((TextKey::HelpStandardViews, TextKey::ShortcutStandardViews))
                &&& rows.contains(
                    (TextKey::HelpCameraProjection, TextKey::ShortcutCameraProjection),
                )
                &&& rows.contains((TextKey::HelpDragZoom, TextKey::ShortcutDragZoom))
            },
        spec_pin_help_rows().len() == 17,
        spec_pin_help_rows()[0] == (TextKey::HelpPlace, TextKey::ShortcutPlace),
        spec_pin_help_rows().contains((TextKey::HelpLevelRoll, TextKey::ShortcutLevelRoll)),
        spec_pin_help_rows().contains((TextKey::HelpXSymmetry, TextKey::ShortcutXSymmetry)),
        spec_pin_help_rows().contains((TextKey::HelpFrameView, TextKey::ShortcutFrameView)),
        spec_align_help_rows().contains((TextKey::HelpFrameView, TextKey::ShortcutFrameView)),
        spec_save_help_rows().contains((TextKey::HelpFrameView, TextKey::ShortcutFrameView)),
        !spec_detail_help_rows().contains((TextKey::HelpFrameView, TextKey::ShortcutFrameView)),
        spec_align_help_rows().contains((TextKey::HelpSnapRotation, TextKey::ShortcutSnapRotation)),
{
    let align = spec_align_help_rows();
    let pin = spec_pin_help_rows();
    let detail = spec_detail_help_rows();
    let save = spec_save_help_rows();
    assert(align[6] == (TextKey::HelpSnapView, TextKey::ShortcutSnapView));
    assert(align[7] == (TextKey::HelpStandardViews, TextKey::ShortcutStandardViews));
    assert(align[8] == (TextKey::HelpCameraProjection, TextKey::ShortcutCameraProjection));
    assert(align[4] == (TextKey::HelpDragZoom, TextKey::ShortcutDragZoom));
    assert(align[5] == (TextKey::HelpFrameView, TextKey::ShortcutFrameView));
    assert(align[0] == (TextKey::HelpSnapRotation, TextKey::ShortcutSnapRotation));
    assert(pin[11] == (TextKey::HelpSnapView, TextKey::ShortcutSnapView));
    assert(pin[12] == (TextKey::HelpStandardViews, TextKey::ShortcutStandardViews));
    assert(pin[13] == (TextKey::HelpCameraProjection, TextKey::ShortcutCameraProjection));
    assert(pin[9] == (TextKey::HelpDragZoom, TextKey::ShortcutDragZoom));
    assert(pin[10] == (TextKey::HelpFrameView, TextKey::ShortcutFrameView));
    assert(pin[6] == (TextKey::HelpLevelRoll, TextKey::ShortcutLevelRoll));
    assert(pin[3] == (TextKey::HelpXSymmetry, TextKey::ShortcutXSymmetry));
    assert(detail[10] == (TextKey::HelpSnapView, TextKey::ShortcutSnapView));
    assert(detail[11] == (TextKey::HelpStandardViews, TextKey::ShortcutStandardViews));
    assert(detail[12] == (TextKey::HelpCameraProjection, TextKey::ShortcutCameraProjection));
    assert(detail[9] == (TextKey::HelpDragZoom, TextKey::ShortcutDragZoom));
    assert(save[5] == (TextKey::HelpSnapView, TextKey::ShortcutSnapView));
    assert(save[6] == (TextKey::HelpStandardViews, TextKey::ShortcutStandardViews));
    assert(save[7] == (TextKey::HelpCameraProjection, TextKey::ShortcutCameraProjection));
    assert(save[3] == (TextKey::HelpDragZoom, TextKey::ShortcutDragZoom));
    assert(save[4] == (TextKey::HelpFrameView, TextKey::ShortcutFrameView));
    assert forall|i: int| 0 <= i < detail.len() implies detail[i] != (
        TextKey::HelpFrameView,
        TextKey::ShortcutFrameView,
    ) by {}
}

/// Whether some row of a card names `key`, as its function or its input.
pub open spec fn card_mentions(rows: Seq<(TextKey, TextKey)>, key: TextKey) -> bool {
    exists|i: int| 0 <= i < rows.len() && (#[trigger] rows[i].0 == key || rows[i].1 == key)
}

/// The brush cards name both sweeps: the sculpt and texture card the size
/// and the strength, the hair card the size and the segment count, each with
/// the keys that perform them.
pub proof fn lemma_the_brush_cards_name_both_sweeps()
    ensures
        card_mentions(spec_detail_help_rows(), TextKey::HelpBrushSize),
        card_mentions(spec_detail_help_rows(), TextKey::HelpBrushStrength),
        card_mentions(spec_detail_help_rows(), TextKey::ShortcutBrushSize),
        card_mentions(spec_detail_help_rows(), TextKey::ShortcutBrushStrength),
        card_mentions(spec_hair_help_rows(), TextKey::HelpBrushSize),
        card_mentions(spec_hair_help_rows(), TextKey::HairSegmentsShort),
        card_mentions(spec_hair_help_rows(), TextKey::ShortcutBrushSize),
        card_mentions(spec_hair_help_rows(), TextKey::ShortcutBrushStrength),
{
    let detail = spec_detail_help_rows();
    let hair = spec_hair_help_rows();
    assert(detail[1].0 == TextKey::HelpBrushSize && detail[1].1 == TextKey::ShortcutBrushSize);
    assert(detail[2].0 == TextKey::HelpBrushStrength && detail[2].1
        == TextKey::ShortcutBrushStrength);
    assert(hair[6].0 == TextKey::HelpBrushSize && hair[6].1 == TextKey::ShortcutBrushSize);
    assert(hair[7].0 == TextKey::HairSegmentsShort && hair[7].1 == TextKey::ShortcutBrushStrength);
}

/// Whether the pointer is on the help: its button, or the open card.
pub fn viewport_help_contains(on_button: bool, help_visible: bool, on_card: bool) -> (result: bool)
    ensures
        result == (on_button || (help_visible && on_card)),
{
    on_button || (help_visible && on_card)
}

/// A click anywhere off the help closes the open card.
pub fn help_dismissed_by_click(help_visible: bool, clicked: bool, on_help: bool) -> (result: bool)
    ensures
        result == (help_visible && clicked && !on_help),
{
    help_visible && clicked && !on_help
}

} // verus!
