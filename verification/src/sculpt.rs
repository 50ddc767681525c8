use vstd::prelude::*;

use crate::keys::{Icon, TextKey};
use crate::scene::{Modifiers, RenderDepthScope};

verus! {

/// The sculpt brushes a reader picks from the toolbox.
#[derive(Clone, Copy, Debug, PartialEq, Eq, Structural, Hash)]
pub enum SculptBrush {
    Move,
    Smooth,
    Restore,
    Mask,
}

/// What a stroke actually does once the held modifiers have had their say.
#[derive(Clone, Copy, Debug, PartialEq, Eq, Structural, Hash)]
pub enum SculptInputMode {
    Grab,
    Smooth,
    Restore,
    RestoreFit,
    Inflate,
    Mask,
}

impl SculptInputMode {
    /// Whether the mode lays dabs as the pointer travels, rather than dragging
    /// the surface along with it.
    pub open spec fn spec_is_paint_style(self) -> bool {
        self is Smooth || self is Restore || self is RestoreFit
    }
}

/// The mode of a stroke, from the held modifiers and the selected brush.
pub open spec fn spec_sculpt_input_mode(modifiers: Modifiers, brush: SculptBrush) -> SculptInputMode {
    if brush is Mask {
        SculptInputMode::Mask
    } else if modifiers.shift {
        SculptInputMode::Smooth
    } else if modifiers.alt && brush is Restore && !modifiers.ctrl {
        SculptInputMode::RestoreFit
    } else if modifiers.ctrl || modifiers.alt {
        SculptInputMode::Inflate
    } else {
        match brush {
            SculptBrush::Move => SculptInputMode::Grab,
            SculptBrush::Smooth => SculptInputMode::Smooth,
            SculptBrush::Restore => SculptInputMode::Restore,
            SculptBrush::Mask => SculptInputMode::Mask,
        }
    }
}

/// What a stroke does: the mask brush stays a mask brush under every
/// modifier; otherwise `Shift` smooths, `Alt` on the restore brush fits, and
/// `Ctrl` or `Alt` inflate.
pub fn sculpt_input_mode(modifiers: Modifiers, brush: SculptBrush) -> (result: SculptInputMode)
    ensures
        result == spec_sculpt_input_mode(modifiers, brush),
{
    if matches!(brush, SculptBrush::Mask) {
        SculptInputMode::Mask
    } else if modifiers.shift {
        SculptInputMode::Smooth
    } else if modifiers.alt && matches!(brush, SculptBrush::Restore) && !modifiers.ctrl {
        SculptInputMode::RestoreFit
    } else if modifiers.ctrl || modifiers.alt {
        SculptInputMode::Inflate
    } else {
        match brush {
            SculptBrush::Move => SculptInputMode::Grab,
            SculptBrush::Smooth => SculptInputMode::Smooth,
            SculptBrush::Restore => SculptInputMode::Restore,
            SculptBrush::Mask => SculptInputMode::Mask,
        }
    }
}

/// Whether a stroke of this mode is a paint-style stroke.
pub fn is_paint_style(mode: SculptInputMode) -> (result: bool)
    ensures
        result == mode.spec_is_paint_style(),
{
    matches!(mode, SculptInputMode::Smooth | SculptInputMode::Restore | SculptInputMode::RestoreFit)
}

/// The brush the island names: a smoothing stroke is shown as the smooth
/// brush, anything else as the brush that is selected.
pub open spec fn spec_brush_shown_for(mode: SculptInputMode, selected: SculptBrush) -> SculptBrush {
    if mode is Smooth {
        SculptBrush::Smooth
    } else {
        selected
    }
}

/// The brush the island highlights for a stroke of `mode`.
pub fn brush_shown_for(mode: SculptInputMode, selected: SculptBrush) -> (result: SculptBrush)
    ensures
        result == spec_brush_shown_for(mode, selected),
{
    match mode {
        SculptInputMode::Smooth => SculptBrush::Smooth,
        SculptInputMode::Grab
        | SculptInputMode::Inflate
        | SculptInputMode::Restore
        | SculptInputMode::RestoreFit
        | SculptInputMode::Mask => selected,
    }
}

/// The mask brush is a mask brush whatever is held, and it never edits
/// geometry; the island names the smooth brush exactly when a stroke would
/// smooth.
pub proof fn lemma_held_keys_never_turn_the_mask_into_a_geometry_brush(modifiers: Modifiers)
    ensures
        spec_sculpt_input_mode(modifiers, SculptBrush::Mask) == SculptInputMode::Mask,
        forall|brush: SculptBrush|
            (spec_brush_shown_for(spec_sculpt_input_mode(modifiers, brush), brush)
                == SculptBrush::Smooth) <==> (spec_sculpt_input_mode(modifiers, brush)
                == SculptInputMode::Smooth || brush == SculptBrush::Smooth),
{
}

/// With no modifier held a stroke does what the selected brush is for: the
/// move brush grabs, the smooth brush smooths, the restore brush restores
/// and the mask brush masks; so no two brushes share a mode.
pub proof fn lemma_a_bare_stroke_is_the_brush_itself(modifiers: Modifiers)
    requires
        !modifiers.alt,
        !modifiers.ctrl,
        !modifiers.shift,
    ensures
        spec_sculpt_input_mode(modifiers, SculptBrush::Move) == SculptInputMode::Grab,
        spec_sculpt_input_mode(modifiers, SculptBrush::Smooth) == SculptInputMode::Smooth,
        spec_sculpt_input_mode(modifiers, SculptBrush::Restore) == SculptInputMode::Restore,
        spec_sculpt_input_mode(modifiers, SculptBrush::Mask) == SculptInputMode::Mask,
        forall|first: SculptBrush, second: SculptBrush|
            first != second ==> spec_sculpt_input_mode(modifiers, first) != spec_sculpt_input_mode(
                modifiers,
                second,
            ),
{
}

/// The surface groups a sculpt can show, hide, edit and lock.
#[derive(Clone, Copy, Debug, PartialEq, Eq, Structural, Hash)]
pub enum SculptTarget {
    HeadSkin,
    Tear,
    Eyelashes,
    Eyes,
    Lips,
    TeethTongue,
    InnerMouth,
}

/// A set of sculpt targets.
#[derive(Clone, Copy, Debug, PartialEq, Eq, Structural, Hash)]
pub struct SculptTargets {
    pub head_skin: bool,
    pub tear: bool,
    pub eyelashes: bool,
    pub eyes: bool,
    pub lips: bool,
    pub teeth_tongue: bool,
    pub inner_mouth: bool,
}

impl SculptTargets {
    pub open spec fn spec_contains(self, target: SculptTarget) -> bool {
        match target {
            SculptTarget::HeadSkin => self.head_skin,
            SculptTarget::Tear => self.tear,
            SculptTarget::Eyelashes => self.eyelashes,
            SculptTarget::Eyes => self.eyes,
            SculptTarget::Lips => self.lips,
            SculptTarget::TeethTongue => self.teeth_tongue,
            SculptTarget::InnerMouth => self.inner_mouth,
        }
    }

    /// Every target.
    pub fn all() -> (result: SculptTargets)
        ensures
            forall|target: SculptTarget| result.spec_contains(target),
    {
        SculptTargets {
            head_skin: true,
            tear: true,
            eyelashes: true,
            eyes: true,
            lips: true,
            teeth_tongue: true,
            inner_mouth: true,
        }
    }

    /// Whether `target` is in the set.
    pub fn contains(&self, target: SculptTarget) -> (result: bool)
        ensures
            result == self.spec_contains(target),
    {
        match target {
            SculptTarget::HeadSkin => self.head_skin,
            SculptTarget::Tear => self.tear,
            SculptTarget::Eyelashes => self.eyelashes,
            SculptTarget::Eyes => self.eyes,
            SculptTarget::Lips => self.lips,
            SculptTarget::TeethTongue => self.teeth_tongue,
            SculptTarget::InnerMouth => self.inner_mouth,
        }
    }
}

/// The targets a sculpt stroke can land on: the mask brush reaches every
/// surface, any other brush only the editable ones.
pub fn sculpt_hit_targets(brush: SculptBrush, editable: SculptTargets) -> (result: SculptTargets)
    ensures
        brush is Mask ==> forall|target: SculptTarget| result.spec_contains(target),
        !(brush is Mask) ==> result == editable,
{
    if matches!(brush, SculptBrush::Mask) {
        return SculptTargets::all();
    }
    editable
}

/// The label of a target's row in the transform-groups island.
pub open spec fn spec_sculpt_target_text_key(target: SculptTarget) -> TextKey {
    match target {
        SculptTarget::HeadSkin => TextKey::Skin,
        SculptTarget::Tear => TextKey::SculptTear,
        SculptTarget::Eyelashes => TextKey::Eyelashes,
        SculptTarget::Eyes => TextKey::SculptEyes,
        SculptTarget::Lips => TextKey::SculptLips,
        SculptTarget::TeethTongue => TextKey::SculptTeethTongue,
        SculptTarget::InnerMouth => TextKey::SculptInnerMouth,
    }
}

/// The label of a target's row in the transform-groups island.
pub fn sculpt_target_text_key(target: SculptTarget) -> (result: TextKey)
    ensures
        result == spec_sculpt_target_text_key(target),
{
    match target {
        SculptTarget::HeadSkin => TextKey::Skin,
        SculptTarget::Tear => TextKey::SculptTear,
        SculptTarget::Eyelashes => TextKey::Eyelashes,
        SculptTarget::Eyes => TextKey::SculptEyes,
        SculptTarget::Lips => TextKey::SculptLips,
        SculptTarget::TeethTongue => TextKey::SculptTeethTongue,
        SculptTarget::InnerMouth => TextKey::SculptInnerMouth,
    }
}

/// The meshes a sculpted result is split into for drawing.
#[derive(Clone, Copy, Debug, PartialEq, Eq, Structural, Hash)]
pub enum SculptSurfaceGroup {
    HeadSkin,
    TearLacrimal,
    Eyelashes,
    Eyes,
    Lips,
    InnerMouth,
    TeethTongue,
}

/// The target a drawn surface group belongs to.
pub open spec fn spec_sculpt_group_target(group: SculptSurfaceGroup) -> SculptTarget {
    match group {
        SculptSurfaceGroup::HeadSkin => SculptTarget::HeadSkin,
        SculptSurfaceGroup::TearLacrimal => SculptTarget::Tear,
        SculptSurfaceGroup::Eyelashes => SculptTarget::Eyelashes,
        SculptSurfaceGroup::Eyes => SculptTarget::Eyes,
        SculptSurfaceGroup::Lips => SculptTarget::Lips,
        SculptSurfaceGroup::InnerMouth => SculptTarget::InnerMouth,
        SculptSurfaceGroup::TeethTongue => SculptTarget::TeethTongue,
    }
}

/// The target a drawn surface group belongs to.
pub fn sculpt_group_target(group: SculptSurfaceGroup) -> (result: SculptTarget)
    ensures
        result == spec_sculpt_group_target(group),
{
    match group {
        SculptSurfaceGroup::HeadSkin => SculptTarget::HeadSkin,
        SculptSurfaceGroup::TearLacrimal => SculptTarget::Tear,
        SculptSurfaceGroup::Eyelashes => SculptTarget::Eyelashes,
        SculptSurfaceGroup::Eyes => SculptTarget::Eyes,
        SculptSurfaceGroup::Lips => SculptTarget::Lips,
        SculptSurfaceGroup::InnerMouth => SculptTarget::InnerMouth,
        SculptSurfaceGroup::TeethTongue => SculptTarget::TeethTongue,
    }
}

/// The channels of a skin that the textured sculpt view can show.
#[derive(Clone, Copy, Debug, PartialEq, Eq, Structural, Hash)]
pub struct SkinVisibilityGroups {
    pub head_skin: bool,
    pub tear: bool,
    pub eyelashes: bool,
    pub eyes: bool,
    pub teeth_tongue: bool,
    pub inner_mouth: bool,
}

/// The skin channels shown for a set of visible targets; the lips are painted
/// by the head skin's channel, so showing either shows it.
pub open spec fn spec_sculpt_skin_visibility(visible: SculptTargets) -> SkinVisibilityGroups {
    SkinVisibilityGroups {
        head_skin: visible.head_skin || visible.lips,
        tear: visible.tear,
        eyelashes: visible.eyelashes,
        eyes: visible.eyes,
        teeth_tongue: visible.teeth_tongue,
        inner_mouth: visible.inner_mouth,
    }
}

/// The skin channels shown for a set of visible targets.
pub fn sculpt_skin_visibility(visible: &SculptTargets) -> (result: SkinVisibilityGroups)
    ensures
        result == spec_sculpt_skin_visibility(*visible),
{
    let mut groups = SkinVisibilityGroups {
        head_skin: false,
        tear: false,
        eyelashes: false,
        eyes: false,
        teeth_tongue: false,
        inner_mouth: false,
    };
    if visible.contains(SculptTarget::HeadSkin) {
        groups.head_skin = true;
    }
    if visible.contains(SculptTarget::Lips) {
        groups.head_skin = true;
    }
    if visible.contains(SculptTarget::Tear) {
        groups.tear = true;
    }
    if visible.contains(SculptTarget::Eyelashes) {
        groups.eyelashes = true;
    }
    if visible.contains(SculptTarget::Eyes) {
        groups.eyes = true;
    }
    if visible.contains(SculptTarget::TeethTongue) {
        groups.teeth_tongue = true;
    }
    if visible.contains(SculptTarget::InnerMouth) {
        groups.inner_mouth = true;
    }
    groups
}

/// The alpha a skin pixel must exceed to count as painted.
pub const SKIN_CHANNEL_VISIBLE_ALPHA: u8 = 8;

/// Whether pixel `pixel` of an RGBA8 image is painted.
pub open spec fn pixel_painted(rgba8: Seq<u8>, pixel: int) -> bool {
    rgba8[4 * pixel + 3] > SKIN_CHANNEL_VISIBLE_ALPHA
}

/// Whether a skin channel paints anything: some whole pixel of its RGBA8
/// bytes has an alpha above the threshold. Trailing bytes that do not make a
/// whole pixel are ignored.
pub fn skin_channel_is_visible(rgba8: &[u8]) -> (result: bool)
    ensures
        result == exists|pixel: int| 0 <= pixel < rgba8@.len() / 4 && pixel_painted(rgba8@, pixel),
{
    let pixels = rgba8.len() / 4;
    let mut pixel: usize = 0;
    while pixel < pixels
        invariant
            pixels == rgba8@.len() / 4,
            rgba8@.len() == rgba8.len(),
            pixel <= pixels,
            forall|earlier: int| 0 <= earlier < pixel ==> !pixel_painted(rgba8@, earlier),
        decreases pixels - pixel,
    {
        let length = rgba8.len();
        assert(4 * pixel + 3 < length) by (nonlinear_arith)
            requires
                pixel < pixels,
                pixels == length / 4,
        ;
        if rgba8[4 * pixel + 3] > SKIN_CHANNEL_VISIBLE_ALPHA {
            assert(pixel_painted(rgba8@, pixel as int));
            return true;
        }
        pixel += 1;
    }
    false
}

/// Whether a surface group is drawn solid rather than textured: the tear film
/// and the lashes fall back to solid when the skin leaves their channel blank.
pub fn sculpt_group_needs_solid(tear_blank: bool, lashes_blank: bool, group: SculptSurfaceGroup) -> (result:
    bool)
    ensures
        result == match group {
            SculptSurfaceGroup::TearLacrimal => tear_blank,
            SculptSurfaceGroup::Eyelashes => lashes_blank,
            _ => false,
        },
{
    match group {
        SculptSurfaceGroup::TearLacrimal => tear_blank,
        SculptSurfaceGroup::Eyelashes => lashes_blank,
        _ => false,
    }
}

/// The depth scope of the `index`-th of a run of draws that must occlude one
/// another but nothing drawn before them.
pub open spec fn spec_depth_scope_at(index: int) -> RenderDepthScope {
    if index == 0 {
        RenderDepthScope::ResetBeforeDraw
    } else {
        RenderDepthScope::Shared
    }
}

/// The depth scopes of a run of grouped skin draws: the first clears depth,
/// the rest share it, so the groups hide one another and nothing else.
pub fn grouped_skin_depth_sequence(callback_count: usize) -> (result: Vec<RenderDepthScope>)
    ensures
        result@.len() == callback_count,
        forall|i: int| 0 <= i < callback_count ==> result@[i] == spec_depth_scope_at(i),
{
    let mut sequence: Vec<RenderDepthScope> = Vec::new();
    let mut index: usize = 0;
    while index < callback_count
        invariant
            index <= callback_count,
            sequence@.len() == index,
            forall|i: int| 0 <= i < index ==> sequence@[i] == spec_depth_scope_at(i),
        decreases callback_count - index,
    {
        if index == 0 {
            sequence.push(RenderDepthScope::ResetBeforeDraw);
        } else {
            sequence.push(RenderDepthScope::Shared);
        }
        index += 1;
    }
    sequence
}

/// Which passes a result frame draws.
#[derive(Clone, Copy, Debug, PartialEq, Eq, Structural, Hash)]
pub struct RenderPassPlan {
    pub solid: bool,
    pub textured: bool,
    pub wire: bool,
    pub xray: bool,
}

/// The passes of a result frame. The textured pass replaces the solid one
/// when the texture view is chosen and a compatible skin is at hand; the wire
/// and x-ray overlays compose independently, each needing to be switched on
/// and to have some opacity (`wire_has_alpha`, `xray_has_alpha`).
pub fn render_pass_plan(
    texture_view: bool,
    texture_compatible: bool,
    texture_available: bool,
    wire_visible: bool,
    wire_has_alpha: bool,
    xray_visible: bool,
    xray_has_alpha: bool,
) -> (result: RenderPassPlan)
    ensures
        result.textured == (texture_view && texture_compatible && texture_available),
        result.solid == !result.textured,
        result.wire == (wire_visible && wire_has_alpha),
        result.xray == (xray_visible && xray_has_alpha),
{
    let textured = texture_view && texture_compatible && texture_available;
    RenderPassPlan {
        solid: !textured,
        textured,
        wire: wire_visible && wire_has_alpha,
        xray: xray_visible && xray_has_alpha,
    }
}

/// Keyboard-held keys that name a brush.
#[derive(Clone, Copy, Debug, PartialEq, Eq, Structural, Hash)]
pub enum BrushHint {
    /// The brush has a shortcut of its own.
    Shortcut(SculptBrush),
    /// The brush is reached by holding this key.
    Held(HeldKey),
}

/// A modifier key held to reach a brush.
#[derive(Clone, Copy, Debug, PartialEq, Eq, Structural, Hash)]
pub enum HeldKey {
    Shift,
    Alt,
}

/// How the toolbox names the way to a brush: grab and restore have shortcuts,
/// smoothing is `Shift` and masking `Alt`.
pub fn sculpt_brush_hint(brush: SculptBrush) -> (result: BrushHint)
    ensures
        result == match brush {
            SculptBrush::Move => BrushHint::Shortcut(SculptBrush::Move),
            SculptBrush::Smooth => BrushHint::Held(HeldKey::Shift),
            SculptBrush::Restore => BrushHint::Shortcut(SculptBrush::Restore),
            SculptBrush::Mask => BrushHint::Held(HeldKey::Alt),
        },
{
    match brush {
        SculptBrush::Move => BrushHint::Shortcut(SculptBrush::Move),
        SculptBrush::Smooth => BrushHint::Held(HeldKey::Shift),
        SculptBrush::Restore => BrushHint::Shortcut(SculptBrush::Restore),
        SculptBrush::Mask => BrushHint::Held(HeldKey::Alt),
    }
}

/// The brush selected after a frame's hotkeys: the grab key switches to the
/// move brush, then the restore key to the restore brush, each only when the
/// brush in force is not already that one.
pub open spec fn spec_brush_after_hotkeys(
    grab_pressed: bool,
    restore_pressed: bool,
    current: SculptBrush,
) -> SculptBrush {
    let after_grab = if grab_pressed && current != SculptBrush::Move {
        SculptBrush::Move
    } else {
        current
    };
    if restore_pressed && after_grab != SculptBrush::Restore {
        SculptBrush::Restore
    } else {
        after_grab
    }
}

/// Whether a frame's hotkeys select any brush at all.
pub open spec fn spec_hotkeys_switch(
    grab_pressed: bool,
    restore_pressed: bool,
    current: SculptBrush,
) -> bool {
    (grab_pressed && current != SculptBrush::Move) || (restore_pressed && current
        != SculptBrush::Restore) || (grab_pressed && restore_pressed)
}

/// The brush the sculpt hotkeys select, if they select one. Nothing is read
/// while a text field holds the keyboard.
pub fn sculpt_brush_hotkey(
    wants_keyboard: bool,
    grab_pressed: bool,
    restore_pressed: bool,
    current: SculptBrush,
) -> (result: Option<SculptBrush>)
    ensures
        result == (if !wants_keyboard && spec_hotkeys_switch(grab_pressed, restore_pressed, current) {
            Some(spec_brush_after_hotkeys(grab_pressed, restore_pressed, current))
        } else {
            None
        }),
{
    if wants_keyboard {
        return None;
    }
    let mut chosen: Option<SculptBrush> = None;
    let mut brush = current;
    if grab_pressed && brush != SculptBrush::Move {
        chosen = Some(SculptBrush::Move);
        brush = SculptBrush::Move;
    }
    if restore_pressed && brush != SculptBrush::Restore {
        chosen = Some(SculptBrush::Restore);
    }
    chosen
}

/// Which way the bracket keys step the brush: `Some(true)` grows it,
/// `Some(false)` shrinks it, and both or neither held does nothing.
pub fn brush_size_key_direction(wants_keyboard: bool, shrink: bool, grow: bool) -> (result: Option<
    bool,
>)
    ensures
        result == (if wants_keyboard || shrink == grow {
            None
        } else {
            Some(grow)
        }),
{
    if wants_keyboard {
        return None;
    }
    if shrink == grow {
        return None;
    }
    Some(grow)
}

/// The brush the island names: the selected brush while the strength sweep
/// runs, otherwise the brush a stroke would actually use under the held keys.
pub fn displayed_sculpt_brush(strength_sweep_active: bool, modifiers: Modifiers, selected: SculptBrush) -> (result:
    SculptBrush)
    ensures
        result == (if strength_sweep_active {
            selected
        } else {
            spec_brush_shown_for(spec_sculpt_input_mode(modifiers, selected), selected)
        }),
{
    if strength_sweep_active {
        return selected;
    }
    brush_shown_for(sculpt_input_mode(modifiers, selected), selected)
}

/// Whether strokes of a brush change the surface; the mask brush only
/// paints coverage.
pub open spec fn spec_edits_geometry(brush: SculptBrush) -> bool {
    brush != SculptBrush::Mask
}

/// Whether strokes of a brush change the surface.
pub fn edits_geometry(brush: SculptBrush) -> (result: bool)
    ensures
        result == spec_edits_geometry(brush),
{
    !matches!(brush, SculptBrush::Mask)
}

/// What the sculpt stroke reads of a frame.
#[derive(Clone, Copy, Debug, PartialEq, Eq, Structural, Hash)]
pub struct SculptStrokeInput {
    /// This pane holds the sculpt stroke, or nobody does, once this frame's
    /// claim and release are made.
    pub pane_owns_stroke: bool,
    pub input_blocked: bool,
    /// A stroke was held from an earlier frame.
    pub stroke_held: bool,
    /// The held stroke paints the mask.
    pub held_mask: bool,
    /// The size sweep, when it ran, took the pointer.
    pub size_sweep_consumed: bool,
    /// The strength sweep, when it ran, took the pointer.
    pub strength_sweep_consumed: bool,
    pub pressed: bool,
    pub hovered: bool,
    pub pointer_present: bool,
    /// The press lands on a surface the brush reaches.
    pub surface_hit: bool,
    pub primary_down: bool,
    pub primary_released: bool,
    pub brush: SculptBrush,
    pub modifiers: Modifiers,
}

/// What the sculpt stroke does in a frame.
#[derive(Clone, Copy, Debug, PartialEq, Eq, Structural, Hash)]
pub struct SculptStrokeStep {
    /// Claim the sculpt stroke for this pane.
    pub claim_stroke_pane: bool,
    /// Let go of the sculpt stroke's pane.
    pub release_stroke_pane: bool,
    /// The brush size sweep may run and change the radius.
    pub size_sweep: bool,
    /// The strength sweep may run and change the strength.
    pub strength_sweep: bool,
    /// The brush hotkeys and the bracket keys may run.
    pub hotkeys: bool,
    /// A stroke starts, in this mode.
    pub start: Option<SculptInputMode>,
    /// Open a sculpt step for the new stroke.
    pub begin_stroke: bool,
    /// Prime the timer so a stationary smoothing stroke dabs at once.
    pub prime_timer: bool,
    /// Lay the stroke's samples for this frame.
    pub sample: bool,
    /// Forget the stroke.
    pub finish: bool,
    /// Close the sculpt step.
    pub end_stroke: bool,
}

pub open spec fn spec_sculpt_stroke_step(input: SculptStrokeInput) -> SculptStrokeStep {
    let claim = input.pressed && input.hovered;
    let release = !input.primary_down && !input.primary_released;
    let size_sweep = input.pane_owns_stroke && !input.input_blocked;
    let strength_sweep = size_sweep && !input.size_sweep_consumed;
    let hotkeys = strength_sweep && !input.strength_sweep_consumed;
    let idle = SculptStrokeStep {
        claim_stroke_pane: claim,
        release_stroke_pane: release,
        size_sweep,
        strength_sweep,
        hotkeys,
        start: None,
        begin_stroke: false,
        prime_timer: false,
        sample: false,
        finish: false,
        end_stroke: false,
    };
    if !input.pane_owns_stroke {
        idle
    } else if input.input_blocked {
        SculptStrokeStep { finish: input.stroke_held, end_stroke: input.stroke_held, ..idle }
    } else if !hotkeys {
        idle
    } else {
        let starts = input.pressed && input.hovered && input.pointer_present && input.surface_hit;
        let mode = spec_sculpt_input_mode(input.modifiers, input.brush);
        let held = input.stroke_held || starts;
        let sample = (input.primary_down || input.primary_released) && input.pointer_present && held;
        let masking = if starts {
            mode == SculptInputMode::Mask
        } else {
            input.held_mask
        };
        let finish = (input.primary_released || !input.primary_down) && held && !(sample && masking);
        SculptStrokeStep {
            start: if starts {
                Some(mode)
            } else {
                None
            },
            begin_stroke: starts && spec_edits_geometry(input.brush),
            prime_timer: starts && mode.spec_is_paint_style(),
            sample,
            finish,
            end_stroke: finish && spec_edits_geometry(input.brush),
            ..idle
        }
    }
}

/// A frame of a sculpt stroke.
///
/// A press over the pane claims the stroke for it, and the button coming up
/// lets go; a pane that does not hold the stroke does nothing else. There, a
/// blocked pointer drops the stroke and closes its step. Otherwise the size
/// sweep runs, then the strength sweep unless the size sweep took the
/// pointer, then, unless a sweep took it, the brush hotkeys and the bracket
/// keys and the stroke itself. A press on a reachable surface starts a
/// stroke in the mode the held keys give, opening a sculpt step unless the
/// brush only masks; a live stroke lays its samples while the button is down
/// and on its release; and once the button is up the stroke is forgotten
/// and, for a brush that edits the surface, its step closed. A mask stroke
/// that lays samples in that frame, though, is kept until the next frame,
/// and forgotten then.
pub fn sculpt_stroke_step(input: &SculptStrokeInput) -> (result: SculptStrokeStep)
    ensures
        result == spec_sculpt_stroke_step(*input),
{
    let claim = input.pressed && input.hovered;
    let release = !input.primary_down && !input.primary_released;
    let size_sweep = input.pane_owns_stroke && !input.input_blocked;
    let strength_sweep = size_sweep && !input.size_sweep_consumed;
    let hotkeys = strength_sweep && !input.strength_sweep_consumed;
    let idle = SculptStrokeStep {
        claim_stroke_pane: claim,
        release_stroke_pane: release,
        size_sweep,
        strength_sweep,
        hotkeys,
        start: None,
        begin_stroke: false,
        prime_timer: false,
        sample: false,
        finish: false,
        end_stroke: false,
    };
    if !input.pane_owns_stroke {
        return idle;
    }
    if input.input_blocked {
        return SculptStrokeStep { finish: input.stroke_held, end_stroke: input.stroke_held, ..idle };
    }
    if !hotkeys {
        return idle;
    }
    let starts = input.pressed && input.hovered && input.pointer_present && input.surface_hit;
    let mode = sculpt_input_mode(input.modifiers, input.brush);
    let geometry = edits_geometry(input.brush);
    let held = input.stroke_held || starts;
    let sample = (input.primary_down || input.primary_released) && input.pointer_present && held;
    let masking = if starts {
        match mode {
            SculptInputMode::Mask => true,
            _ => false,
        }
    } else {
        input.held_mask
    };
    let finish = (input.primary_released || !input.primary_down) && held && !(sample && masking);
    SculptStrokeStep {
        start: if starts {
            Some(mode)
        } else {
            None
        },
        begin_stroke: starts && geometry,
        prime_timer: starts && is_paint_style(mode),
        sample,
        finish,
        end_stroke: finish && geometry,
        ..idle
    }
}

/// Sculpt steps open and close in pairs: a step opens only for a stroke that
/// starts with a brush that edits the surface, it closes when that stroke
/// ends with the button, and the mask brush opens none; a stroke still held
/// once the button is up and its release has passed is forgotten in the pane
/// that holds it; and a pane that does not hold the stroke runs no sweep, no
/// key and no stroke.
pub proof fn lemma_sculpt_steps_open_and_close_in_pairs(input: SculptStrokeInput)
    ensures
        spec_sculpt_stroke_step(input).begin_stroke ==> spec_sculpt_stroke_step(input).start is Some
            && input.brush != SculptBrush::Mask,
        spec_sculpt_stroke_step(input).begin_stroke && !input.primary_down
            ==> spec_sculpt_stroke_step(input).end_stroke,
        !input.input_blocked && input.brush == SculptBrush::Mask ==> !spec_sculpt_stroke_step(
            input,
        ).begin_stroke && !spec_sculpt_stroke_step(input).end_stroke,
        input.pane_owns_stroke && input.stroke_held && !input.primary_down && !input.primary_released
            && !input.size_sweep_consumed && !input.strength_sweep_consumed
            ==> spec_sculpt_stroke_step(input).finish,
        !input.pane_owns_stroke ==> !spec_sculpt_stroke_step(input).size_sweep
            && !spec_sculpt_stroke_step(input).hotkeys && !spec_sculpt_stroke_step(input).finish,
{
}

/// A press on a reachable surface, in the pane that holds the stroke, with
/// the pointer free and no modifier held, starts a stroke that does what the
/// selected brush is for.
pub proof fn lemma_a_bare_press_starts_the_brush_itself(input: SculptStrokeInput)
    requires
        input.pane_owns_stroke,
        !input.input_blocked,
        !input.size_sweep_consumed,
        !input.strength_sweep_consumed,
        input.pressed,
        input.hovered,
        input.pointer_present,
        input.surface_hit,
        !input.modifiers.alt,
        !input.modifiers.ctrl,
        !input.modifiers.shift,
    ensures
        spec_sculpt_stroke_step(input).start == Some(
            match input.brush {
                SculptBrush::Move => SculptInputMode::Grab,
                SculptBrush::Smooth => SculptInputMode::Smooth,
                SculptBrush::Restore => SculptInputMode::Restore,
                SculptBrush::Mask => SculptInputMode::Mask,
            },
        ),
{
    lemma_a_bare_stroke_is_the_brush_itself(input.modifiers);
}

/// What a frame of the mask brush sends.
#[derive(Clone, Copy, Debug, PartialEq, Eq, Structural, Hash)]
pub struct MaskPaintStep {
    /// Paint the gathered vertices.
    pub paint: bool,
    /// That paint opens a new history step.
    pub begins_step: bool,
    /// Paint towards full coverage (with `Alt`) rather than towards none.
    pub toward_full: bool,
    /// The stroke's step is open after this frame.
    pub step_open: bool,
}

/// The mask brush paints only when its dabs gathered some vertex; the first
/// paint of a stroke opens its step, and `Alt` paints the other way.
pub fn mask_paint_step(gathered_any: bool, step_open: bool, alt_held: bool) -> (result: MaskPaintStep)
    ensures
        result == (MaskPaintStep {
            paint: gathered_any,
            begins_step: gathered_any && !step_open,
            toward_full: alt_held,
            step_open: step_open || gathered_any,
        }),
{
    MaskPaintStep {
        paint: gathered_any,
        begins_step: gathered_any && !step_open,
        toward_full: alt_held,
        step_open: step_open || gathered_any,
    }
}

/// How a sculpt brush fades from its centre to its rim.
#[derive(Clone, Copy, Debug, PartialEq, Eq, Structural, Hash)]
pub enum SculptFalloff {
    Smooth,
    Smoother,
    Sharp,
    Linear,
}

/// The icon of a falloff choice: one icon per choice.
pub fn sculpt_falloff_icon(falloff: SculptFalloff) -> (result: Icon)
    ensures
        result == match falloff {
            SculptFalloff::Smooth => Icon::FalloffSmooth,
            SculptFalloff::Smoother => Icon::FalloffSmoother,
            SculptFalloff::Sharp => Icon::FalloffSharp,
            SculptFalloff::Linear => Icon::FalloffLinear,
        },
{
    match falloff {
        SculptFalloff::Smooth => Icon::FalloffSmooth,
        SculptFalloff::Smoother => Icon::FalloffSmoother,
        SculptFalloff::Sharp => Icon::FalloffSharp,
        SculptFalloff::Linear => Icon::FalloffLinear,
    }
}

} // verus!
