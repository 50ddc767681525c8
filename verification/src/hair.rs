use vstd::prelude::*;

use vstd::string::StringSliceAdditionalSpecFns;

use crate::keys::{Icon, TextKey};

verus! {

/// The hair tab's tools, in toolbox order.
#[derive(Clone, Copy, Debug, PartialEq, Eq, Structural, Hash)]
pub enum HairTool {
    Pick,
    Vertex,
    Plant,
    Grow,
    Cut,
    Erase,
    Comb,
    Pinch,
    Puff,
    Rigidity,
}

/// What the second slot in the brush island holds, for a given tool.
///
/// Segment count is the plant tool's number and nobody else's: it decides how
/// many joints a new strand is born with, and changing it on a part that is
/// already grown resamples every strand in it.
#[derive(Clone, Copy, Debug, PartialEq, Eq, Structural, Hash)]
pub enum BrushSlot {
    /// How many joints a planted strand gets.
    Segments,
    /// How hard the brush presses.
    Strength,
    /// Nothing; the slot is still reserved so the toggles beside it stay put.
    Empty,
}

pub open spec fn spec_brush_slot(tool: HairTool) -> BrushSlot {
    match tool {
        HairTool::Plant => BrushSlot::Segments,
        HairTool::Comb
        | HairTool::Pinch
        | HairTool::Cut
        | HairTool::Grow
        | HairTool::Puff
        | HairTool::Rigidity => BrushSlot::Strength,
        HairTool::Erase | HairTool::Pick | HairTool::Vertex => BrushSlot::Empty,
    }
}

/// The second slot of the brush island for `tool`: the plant tool sets the
/// segment count, the shaping brushes a strength, and the eraser, the picker
/// and the joint tool nothing.
pub fn brush_slot(tool: HairTool) -> (result: BrushSlot)
    ensures
        result == spec_brush_slot(tool),
{
    match tool {
        HairTool::Plant => BrushSlot::Segments,
        HairTool::Comb
        | HairTool::Pinch
        | HairTool::Cut
        | HairTool::Grow
        | HairTool::Puff
        | HairTool::Rigidity => BrushSlot::Strength,
        HairTool::Erase | HairTool::Pick | HairTool::Vertex => BrushSlot::Empty,
    }
}

/// Keyboard shortcuts that pick a hair tool.
#[derive(Clone, Copy, Debug, PartialEq, Eq, Structural, Hash)]
pub enum HairShortcut {
    HairPickTool,
    HairPlantTool,
    HairGrowTool,
    HairCutTool,
    HairEraseTool,
    HairCombBrush,
    HairPuffTool,
    HairPinchTool,
}

pub open spec fn spec_tool_shortcut(tool: HairTool) -> Option<HairShortcut> {
    match tool {
        HairTool::Pick => Some(HairShortcut::HairPickTool),
        HairTool::Plant => Some(HairShortcut::HairPlantTool),
        HairTool::Grow => Some(HairShortcut::HairGrowTool),
        HairTool::Cut => Some(HairShortcut::HairCutTool),
        HairTool::Erase => Some(HairShortcut::HairEraseTool),
        HairTool::Comb => Some(HairShortcut::HairCombBrush),
        HairTool::Vertex => None,
        HairTool::Puff => Some(HairShortcut::HairPuffTool),
        HairTool::Pinch => Some(HairShortcut::HairPinchTool),
        HairTool::Rigidity => None,
    }
}

/// The shortcut a tool's toolbox tooltip names; the joint tool and the
/// rigidity brush have none.
pub fn tool_shortcut(tool: HairTool) -> (result: Option<HairShortcut>)
    ensures
        result == spec_tool_shortcut(tool),
{
    match tool {
        HairTool::Pick => Some(HairShortcut::HairPickTool),
        HairTool::Plant => Some(HairShortcut::HairPlantTool),
        HairTool::Grow => Some(HairShortcut::HairGrowTool),
        HairTool::Cut => Some(HairShortcut::HairCutTool),
        HairTool::Erase => Some(HairShortcut::HairEraseTool),
        HairTool::Comb => Some(HairShortcut::HairCombBrush),
        HairTool::Vertex => None,
        HairTool::Puff => Some(HairShortcut::HairPuffTool),
        HairTool::Pinch => Some(HairShortcut::HairPinchTool),
        HairTool::Rigidity => None,
    }
}

/// A tool of the hair toolbox: the tool, its icon, its name and its hint.
pub type HairToolEntry = (HairTool, Icon, TextKey, TextKey);

pub open spec fn spec_hair_tools() -> Seq<HairToolEntry> {
    seq![
        (HairTool::Pick, Icon::CursorPick, TextKey::HairToolPick, TextKey::HairToolPickHint),
        (HairTool::Vertex, Icon::HairVertex, TextKey::HairToolVertex, TextKey::HairToolVertexHint),
        (HairTool::Plant, Icon::HairPlant, TextKey::HairToolPlant, TextKey::HairToolPlantHint),
        (HairTool::Grow, Icon::HairLength, TextKey::HairToolGrow, TextKey::HairToolGrowHint),
        (HairTool::Cut, Icon::Scissors, TextKey::HairToolCut, TextKey::HairToolCutHint),
        (HairTool::Erase, Icon::Eraser, TextKey::HairToolErase, TextKey::HairToolEraseHint),
        (HairTool::Comb, Icon::Comb, TextKey::HairToolComb, TextKey::HairToolCombHint),
        (HairTool::Pinch, Icon::Pinch, TextKey::HairToolPinch, TextKey::HairToolPinchHint),
        (HairTool::Puff, Icon::HairPuff, TextKey::HairToolPuff, TextKey::HairToolPuffHint),
        (
            HairTool::Rigidity,
            Icon::HairRigidity,
            TextKey::HairToolRigidity,
            TextKey::HairToolRigidityHint,
        ),
    ]
}

/// The tools of the hair toolbox, in the order they are drawn.
pub fn hair_tools() -> (result: Vec<HairToolEntry>)
    ensures
        result@ == spec_hair_tools(),
{
    let result = vec![
        (HairTool::Pick, Icon::CursorPick, TextKey::HairToolPick, TextKey::HairToolPickHint),
        (HairTool::Vertex, Icon::HairVertex, TextKey::HairToolVertex, TextKey::HairToolVertexHint),
        (HairTool::Plant, Icon::HairPlant, TextKey::HairToolPlant, TextKey::HairToolPlantHint),
        (HairTool::Grow, Icon::HairLength, TextKey::HairToolGrow, TextKey::HairToolGrowHint),
        (HairTool::Cut, Icon::Scissors, TextKey::HairToolCut, TextKey::HairToolCutHint),
        (HairTool::Erase, Icon::Eraser, TextKey::HairToolErase, TextKey::HairToolEraseHint),
        (HairTool::Comb, Icon::Comb, TextKey::HairToolComb, TextKey::HairToolCombHint),
        (HairTool::Pinch, Icon::Pinch, TextKey::HairToolPinch, TextKey::HairToolPinchHint),
        (HairTool::Puff, Icon::HairPuff, TextKey::HairToolPuff, TextKey::HairToolPuffHint),
        (
            HairTool::Rigidity,
            Icon::HairRigidity,
            TextKey::HairToolRigidity,
            TextKey::HairToolRigidityHint,
        ),
    ];
    assert(result@ =~= spec_hair_tools());
    result
}

/// One slot per tool, plus one for mirroring the selected part.
pub fn toolbox_slots() -> (result: usize)
    ensures
        result == spec_hair_tools().len() + 1,
{
    hair_tools().len() + 1
}

/// What a slot of the hair toolbox holds.
#[derive(Clone, Copy, Debug, PartialEq, Eq, Structural, Hash)]
pub enum HairToolboxSlot {
    Tool(HairTool, Icon, TextKey, TextKey),
    MirrorPart,
}

/// The content of toolbox slot `slot`: the tools in order, then the mirror
/// button in every slot past them.
pub fn hair_toolbox_slot(slot: usize) -> (result: HairToolboxSlot)
    ensures
        slot < spec_hair_tools().len() ==> result == HairToolboxSlot::Tool(
            spec_hair_tools()[slot as int].0,
            spec_hair_tools()[slot as int].1,
            spec_hair_tools()[slot as int].2,
            spec_hair_tools()[slot as int].3,
        ),
        slot >= spec_hair_tools().len() ==> result == HairToolboxSlot::MirrorPart,
{
    let tools = hair_tools();
    if slot < tools.len() {
        let (tool, icon, name, hint) = tools[slot];
        HairToolboxSlot::Tool(tool, icon, name, hint)
    } else {
        HairToolboxSlot::MirrorPart
    }
}

/// The column count a toolbox is drawn with: what is stored, held to one or
/// two.
pub fn toolbox_columns(stored: u8) -> (result: usize)
    ensures
        result == (if stored < 1 {
            1
        } else if stored > 2 {
            2
        } else {
            stored as int
        }),
        1 <= result <= 2,
{
    if stored < 1 {
        1
    } else if stored > 2 {
        2
    } else {
        stored as usize
    }
}

/// Whether strands wear their part's tint: the switch is on, no portrait is
/// being framed, and the hair tab is being edited.
pub fn part_tint_active(part_tint: bool, framing_portrait: bool, hair_editing: bool) -> (result:
    bool)
    ensures
        result == (part_tint && !framing_portrait && hair_editing),
{
    part_tint && !framing_portrait && hair_editing
}

/// Whether a part's preview is drawn: while a portrait isolates one part only
/// that part is, otherwise every visible part.
pub open spec fn spec_hair_part_drawn(isolated: Option<u64>, part: u64, visible: bool) -> bool {
    match isolated {
        Some(solo) => solo == part,
        None => visible,
    }
}

/// Whether a part's preview is drawn this frame.
pub fn hair_part_drawn(isolated: Option<u64>, part: u64, visible: bool) -> (result: bool)
    ensures
        result == spec_hair_part_drawn(isolated, part, visible),
{
    match isolated {
        Some(solo) => solo == part,
        None => visible,
    }
}

/// A portrait that isolates a part shows that part and no other, hidden or
/// not.
pub proof fn lemma_an_isolated_portrait_shows_one_part(solo: u64, part: u64, visible: bool)
    ensures
        spec_hair_part_drawn(Some(solo), part, visible) <==> part == solo,
{
}

/// Whether the settle pass should capture a part's drape this frame: only
/// once the settle timer has run out, and only if a settle was asked for.
pub fn settle_capture_wanted(settle_running: bool, settle_requested: bool) -> (result: bool)
    ensures
        result == (!settle_running && settle_requested),
{
    if settle_running {
        return false;
    }
    settle_requested
}

/// The offset basis of the 64-bit FNV-1a hash.
pub const FX_OFFSET: u64 = 0xcbf2_9ce4_8422_2325;

/// The 64-bit FNV-1a prime.
pub const FX_PRIME: u64 = 0x0000_0100_0000_01b3;

/// The low 52 bits that a hash keeps.
pub const FX_MASK: u64 = 0x000f_ffff_ffff_ffff;

/// FNV-1a over `bytes`, before masking.
pub open spec fn spec_fnv1a(bytes: Seq<u8>) -> u64
    decreases bytes.len(),
{
    if bytes.len() == 0 {
        FX_OFFSET
    } else {
        let before = spec_fnv1a(bytes.drop_last());
        vstd::wrapping::u64_specs::wrapping_mul((before ^ (bytes.last() as u64)), FX_PRIME)
    }
}

/// The cache key of a name: 64-bit FNV-1a over its UTF-8 bytes, kept to 52 bits.
pub open spec fn spec_fxhash(bytes: Seq<u8>) -> u64 {
    spec_fnv1a(bytes) & FX_MASK
}

/// The cache key of a name.
pub fn fxhash(text: &str) -> (result: u64)
    ensures
        result == spec_fxhash(text.spec_bytes()),
{
    let bytes = text.as_bytes();
    let mut hash: u64 = FX_OFFSET;
    let mut index: usize = 0;
    while index < bytes.len()
        invariant
            index <= bytes@.len(),
            hash == spec_fnv1a(bytes@.take(index as int)),
        decreases bytes@.len() - index,
    {
        assert(bytes@.take(index + 1).drop_last() =~= bytes@.take(index as int));
        hash = hash ^ (bytes[index] as u64);
        hash = hash.wrapping_mul(FX_PRIME);
        index += 1;
    }
    assert(bytes@.take(bytes@.len() as int) =~= bytes@);
    hash & FX_MASK
}

/// A key never reaches past its 52 bits.
pub proof fn lemma_fxhash_fits_in_52_bits(bytes: Seq<u8>)
    ensures
        spec_fxhash(bytes) <= FX_MASK,
{
    let hash = spec_fnv1a(bytes);
    assert(hash & 0x000f_ffff_ffff_ffffu64 <= 0x000f_ffff_ffff_ffffu64) by (bit_vector);
}

/// Whether a tool reshapes hair that is already there, and so wants a brush
/// strength: the brushes whose second slot is a strength.
pub open spec fn spec_shapes_existing_hair(tool: HairTool) -> bool {
    spec_brush_slot(tool) == BrushSlot::Strength
}

/// Whether a tool reshapes hair that is already there: comb, pinch, puff,
/// cut, grow and rigidity do; planting and erasing make or remove hair, and
/// the picker and the joint tool are not brushes.
pub fn shapes_existing_hair(tool: HairTool) -> (result: bool)
    ensures
        result == spec_shapes_existing_hair(tool),
{
    match brush_slot(tool) {
        BrushSlot::Strength => true,
        BrushSlot::Segments | BrushSlot::Empty => false,
    }
}

/// The setting the strength sweep drives.
#[derive(Clone, Copy, Debug, PartialEq, Eq, Structural, Hash)]
pub enum StrengthSweepTarget {
    /// The brush strength, for a tool that reshapes hair.
    BrushStrength,
    /// The segment count of the selected part.
    PartSegments(u64),
    /// Nothing: the sweep would set segments but no part is selected.
    Nothing,
}

/// The strength sweep sets the brush strength of a shaping tool and the
/// segment count of the selected part otherwise.
pub fn strength_sweep_target(tool: HairTool, selected_part: Option<u64>) -> (result:
    StrengthSweepTarget)
    ensures
        result == (if spec_shapes_existing_hair(tool) {
            StrengthSweepTarget::BrushStrength
        } else {
            match selected_part {
                Some(part) => StrengthSweepTarget::PartSegments(part),
                None => StrengthSweepTarget::Nothing,
            }
        }),
{
    if shapes_existing_hair(tool) {
        return StrengthSweepTarget::BrushStrength;
    }
    match selected_part {
        Some(part) => StrengthSweepTarget::PartSegments(part),
        None => StrengthSweepTarget::Nothing,
    }
}

/// What the hair brushes read of a frame.
#[derive(Clone, Copy, Debug, PartialEq, Eq, Structural, Hash)]
pub struct HairInput {
    /// An edit would drop the steps ahead of a deep rewind, and the
    /// application is asking first.
    pub pending_history_branch: bool,
    /// The size sweep, when it ran, took the pointer this frame.
    pub size_sweep_consumed: bool,
    /// The strength sweep, when it ran, took the pointer this frame.
    pub strength_sweep_consumed: bool,
    pub input_blocked: bool,
    /// The comb shortcut was pressed.
    pub comb_key_pressed: bool,
    pub tool: HairTool,
    /// The command modifier is held, which picks parts with any tool.
    pub command_held: bool,
    pub clicked: bool,
    pub has_selected_part: bool,
    /// The selected part is a scalp layer, which no brush edits directly.
    pub selected_is_scalp: bool,
    /// The selected part may be edited and its scalp is at hand, so planting
    /// has somewhere to land.
    pub plant_ready: bool,
    /// Brushes reach the parts under the pointer rather than the editable
    /// ones.
    pub auto_part: bool,
    /// The primary button went down this frame.
    pub pressed: bool,
    /// The pointer is over this pane.
    pub hovered: bool,
    /// This pane holds the comb stroke, or nobody does, once this frame's
    /// claim and release are made.
    pub pane_owns_stroke: bool,
    pub primary_down: bool,
    pub primary_released: bool,
}

/// The handler a frame of the hair tab runs.
#[derive(Clone, Copy, Debug, PartialEq, Eq, Structural, Hash)]
pub enum HairRoute {
    /// Nothing runs.
    Idle,
    /// Activate the part under the pointer.
    PickPart,
    /// The joint gizmo.
    Vertex,
    /// Plant on the selected part.
    Plant,
    /// Erase from every targeted part.
    Erase,
    /// Cut every targeted part.
    Cut,
    /// Grow every targeted part.
    Grow,
    /// Stroke every targeted part with the comb family of brushes.
    Comb,
}

/// Which parts a brush reaches.
#[derive(Clone, Copy, Debug, PartialEq, Eq, Structural, Hash)]
pub enum HairTargets {
    /// The parts under the pointer.
    UnderPointer,
    /// Every editable part.
    Editable,
}

/// A frame of the hair tab.
#[derive(Clone, Copy, Debug, PartialEq, Eq, Structural, Hash)]
pub struct HairStep {
    /// The brush size sweep may run and change the radius.
    pub size_sweep: bool,
    /// The strength sweep may run and change the strength or the segments.
    pub strength_sweep: bool,
    /// The bracket keys may step the brush size.
    pub size_keys: bool,
    /// Forget the comb stroke in progress.
    pub drop_comb_stroke: bool,
    /// Switch to the comb.
    pub switch_to_comb: bool,
    /// Claim the comb stroke for this pane.
    pub claim_stroke_pane: bool,
    /// Let go of the comb stroke's pane.
    pub release_stroke_pane: bool,
    pub route: HairRoute,
    pub targets: HairTargets,
    /// Ask for another frame while the button is held.
    pub repaint: bool,
    /// Close the hair stroke.
    pub end_stroke: bool,
}

/// The route of a tool that reached the brushes.
pub open spec fn spec_tool_route(tool: HairTool) -> HairRoute {
    match tool {
        HairTool::Pick => HairRoute::Idle,
        HairTool::Vertex => HairRoute::Vertex,
        HairTool::Plant => HairRoute::Plant,
        HairTool::Erase => HairRoute::Erase,
        HairTool::Cut => HairRoute::Cut,
        HairTool::Grow => HairRoute::Grow,
        HairTool::Comb | HairTool::Pinch | HairTool::Puff | HairTool::Rigidity => HairRoute::Comb,
    }
}

/// The size sweep runs unless a rewind question is open.
pub open spec fn spec_size_sweep_runs(input: HairInput) -> bool {
    !input.pending_history_branch
}

/// The strength sweep runs after a size sweep that kept off the pointer.
pub open spec fn spec_strength_sweep_runs(input: HairInput) -> bool {
    spec_size_sweep_runs(input) && !input.size_sweep_consumed
}

/// The frame goes on past the sweeps: neither took the pointer and the
/// pointer is not blocked.
pub open spec fn spec_past_sweeps(input: HairInput) -> bool {
    spec_strength_sweep_runs(input) && !input.strength_sweep_consumed && !input.input_blocked
}

/// The tool after the comb key had its say.
pub open spec fn spec_hair_tool(input: HairInput) -> HairTool {
    if input.comb_key_pressed && input.tool != HairTool::Comb {
        HairTool::Comb
    } else {
        input.tool
    }
}

/// The frame reaches the tool's own handler: past the sweeps, neither
/// picking nor command-held, with a selected part that is no scalp layer.
pub open spec fn spec_reaches_tool(input: HairInput) -> bool {
    let tool = spec_hair_tool(input);
    spec_past_sweeps(input) && !(tool == HairTool::Pick || input.command_held)
        && input.has_selected_part && !input.selected_is_scalp
}

pub open spec fn spec_hair_step(input: HairInput) -> HairStep {
    let switch = spec_past_sweeps(input) && input.comb_key_pressed && input.tool != HairTool::Comb;
    let tool = spec_hair_tool(input);
    let reaches = spec_reaches_tool(input);
    let combing = reaches && spec_tool_route(tool) == HairRoute::Comb;
    let brushing = reaches && !(tool == HairTool::Plant && !input.plant_ready) && !(combing
        && !input.pane_owns_stroke);
    HairStep {
        size_sweep: spec_size_sweep_runs(input),
        strength_sweep: spec_strength_sweep_runs(input),
        size_keys: spec_past_sweeps(input),
        drop_comb_stroke: spec_strength_sweep_runs(input) && !input.strength_sweep_consumed
            && input.input_blocked,
        switch_to_comb: switch,
        claim_stroke_pane: combing && input.pressed && input.hovered,
        release_stroke_pane: combing && !input.primary_down,
        route: if brushing {
            spec_tool_route(tool)
        } else if spec_past_sweeps(input) && (tool == HairTool::Pick || input.command_held)
            && input.clicked {
            HairRoute::PickPart
        } else {
            HairRoute::Idle
        },
        targets: if brushing && input.auto_part && tool != HairTool::Plant {
            HairTargets::UnderPointer
        } else {
            HairTargets::Editable
        },
        repaint: brushing && input.primary_down,
        end_stroke: brushing && !input.primary_down && input.primary_released,
    }
}

/// Routes a frame of the hair tab to its brush.
///
/// Nothing at all runs while the application asks about a deep rewind: no
/// sweep, no key, no brush. Otherwise the size sweep runs, then the strength
/// sweep unless the size sweep took the pointer; a sweep that took the
/// pointer ends the frame, and a blocked pointer drops the comb stroke and
/// ends it too. Past those, the bracket keys step the size and the comb key
/// switches to the comb. The picker, or any tool with the command key,
/// activates the part under a click. Otherwise, with a part selected that is
/// not a scalp layer, the tool's brush runs over the parts under the pointer
/// when auto-part is on (planting always works on the selected part) and
/// over the editable parts otherwise, and a release closes the stroke; but
/// planting without an editable selected part and its scalp does nothing,
/// and the comb family, having claimed the stroke for this pane on a press
/// and let go of it with the button, does nothing in a pane that does not
/// hold the stroke. The rigidity tool has no brush of its own here and
/// strokes with the comb family.
pub fn hair_step(input: &HairInput) -> (result: HairStep)
    ensures
        result == spec_hair_step(*input),
{
    let size_sweep = !input.pending_history_branch;
    let strength_sweep = size_sweep && !input.size_sweep_consumed;
    let past_sweeps = strength_sweep && !input.strength_sweep_consumed && !input.input_blocked;
    let switch = past_sweeps && input.comb_key_pressed && input.tool != HairTool::Comb;
    let tool = if input.comb_key_pressed && input.tool != HairTool::Comb {
        HairTool::Comb
    } else {
        input.tool
    };
    let picking = tool == HairTool::Pick || input.command_held;
    let reaches = past_sweeps && !picking && input.has_selected_part && !input.selected_is_scalp;
    let route_of_tool = match tool {
        HairTool::Pick => HairRoute::Idle,
        HairTool::Vertex => HairRoute::Vertex,
        HairTool::Plant => HairRoute::Plant,
        HairTool::Erase => HairRoute::Erase,
        HairTool::Cut => HairRoute::Cut,
        HairTool::Grow => HairRoute::Grow,
        HairTool::Comb | HairTool::Pinch | HairTool::Puff | HairTool::Rigidity => HairRoute::Comb,
    };
    let combing = reaches && route_of_tool == HairRoute::Comb;
    let brushing = reaches && !(tool == HairTool::Plant && !input.plant_ready) && !(combing
        && !input.pane_owns_stroke);
    let route = if brushing {
        route_of_tool
    } else if past_sweeps && picking && input.clicked {
        HairRoute::PickPart
    } else {
        HairRoute::Idle
    };
    let targets = if brushing && input.auto_part && tool != HairTool::Plant {
        HairTargets::UnderPointer
    } else {
        HairTargets::Editable
    };
    HairStep {
        size_sweep,
        strength_sweep,
        size_keys: past_sweeps,
        drop_comb_stroke: strength_sweep && !input.strength_sweep_consumed && input.input_blocked,
        switch_to_comb: switch,
        claim_stroke_pane: combing && input.pressed && input.hovered,
        release_stroke_pane: combing && !input.primary_down,
        route,
        targets,
        repaint: brushing && input.primary_down,
        end_stroke: brushing && !input.primary_down && input.primary_released,
    }
}

/// While a rewind question is open the frame changes nothing: no sweep, no
/// key, no stroke, no brush. No brush runs while a sweep holds the pointer,
/// and no brush ever runs on a scalp layer or without a selected part;
/// planting always goes to the selected part, and only when it is ready.
pub proof fn lemma_brushes_run_only_on_a_selected_hair_part(input: HairInput)
    ensures
        input.pending_history_branch ==> ({
            let step = spec_hair_step(input);
            &&& !step.size_sweep && !step.strength_sweep && !step.size_keys
            &&& !step.drop_comb_stroke && !step.switch_to_comb
            &&& !step.claim_stroke_pane && !step.release_stroke_pane
            &&& step.route == HairRoute::Idle && !step.repaint && !step.end_stroke
        }),
        (input.size_sweep_consumed || input.strength_sweep_consumed) ==> spec_hair_step(input).route
            == HairRoute::Idle && !spec_hair_step(input).size_keys,
        spec_hair_step(input).route != HairRoute::Idle && spec_hair_step(input).route
            != HairRoute::PickPart ==> input.has_selected_part && !input.selected_is_scalp
            && !input.input_blocked,
        spec_hair_step(input).route == HairRoute::Plant ==> spec_hair_step(input).targets
            == HairTargets::Editable && input.plant_ready,
        spec_hair_step(input).end_stroke ==> spec_hair_step(input).route != HairRoute::Idle,
{
}

/// The id of a latched part and whether it may still be edited.
pub type LatchedPart = (u64, bool);

/// The ids of the latched parts that may still be edited, in order.
pub open spec fn spec_editable_ids(latched: Seq<LatchedPart>) -> Seq<u64>
    decreases latched.len(),
{
    if latched.len() == 0 {
        seq![]
    } else {
        let before = spec_editable_ids(latched.drop_last());
        if latched.last().1 {
            before.push(latched.last().0)
        } else {
            before
        }
    }
}

/// What happens to the latch of parts a stroke holds on to.
#[derive(Clone, Copy, Debug, PartialEq, Eq, Structural, Hash)]
pub enum LatchUpdate {
    Keep,
    Clear,
    /// Latch the parts found this frame.
    Latch,
}

/// The parts an auto-part brush reaches this frame, and the latch after it.
#[derive(Clone, Debug, PartialEq, Eq)]
pub struct AutoPartTargets {
    pub targets: Vec<u64>,
    pub latch: LatchUpdate,
}

/// The parts found under the pointer: the one under it, then the one under
/// its mirror image when mirroring and different.
pub open spec fn spec_found_parts(direct: Option<u64>, mirrored: Option<u64>, mirror: bool) -> Seq<u64> {
    let first: Seq<u64> = match direct {
        Some(part) => seq![part],
        None => seq![],
    };
    match mirrored {
        Some(part) => if mirror && !first.contains(part) {
            first.push(part)
        } else {
            first
        },
        None => first,
    }
}

/// The parts an auto-part brush works on.
///
/// A comb-family stroke latches the parts it started on and keeps to them,
/// those still editable, for as long as the button is down; otherwise the
/// brush reaches the part under the pointer and, when mirroring, the part
/// under its mirror image. Letting go clears the latch, and a stroke that
/// found parts latches them.
pub fn auto_part_targets(
    stroking: bool,
    down: bool,
    latched: Option<&Vec<LatchedPart>>,
    direct: Option<u64>,
    mirrored: Option<u64>,
    mirror: bool,
) -> (result: AutoPartTargets)
    ensures
        stroking && down && latched is Some ==> result.targets@ == spec_editable_ids(
            latched->0@,
        ) && result.latch == LatchUpdate::Keep,
        !(stroking && down && latched is Some) ==> {
            &&& result.targets@ == spec_found_parts(direct, mirrored, mirror)
            &&& result.latch == if stroking && down && spec_found_parts(
                direct,
                mirrored,
                mirror,
            ).len() > 0 {
                LatchUpdate::Latch
            } else if !down {
                LatchUpdate::Clear
            } else {
                LatchUpdate::Keep
            }
        },
{
    if stroking && down {
        if let Some(parts) = latched {
            let mut kept: Vec<u64> = Vec::new();
            let mut index: usize = 0;
            while index < parts.len()
                invariant
                    index <= parts@.len(),
                    kept@ == spec_editable_ids(parts@.take(index as int)),
                decreases parts@.len() - index,
            {
                assert(parts@.take(index + 1).drop_last() =~= parts@.take(index as int));
                let (id, editable) = parts[index];
                if editable {
                    kept.push(id);
                }
                index += 1;
            }
            assert(parts@.take(parts@.len() as int) =~= parts@);
            return AutoPartTargets { targets: kept, latch: LatchUpdate::Keep };
        }
    }
    let mut targets: Vec<u64> = Vec::new();
    if let Some(part) = direct {
        targets.push(part);
    }
    let ghost first = targets@;
    assert(first =~= match direct {
        Some(part) => seq![part],
        None => seq![],
    });
    if let Some(part) = mirrored {
        if mirror {
            let seen = match direct {
                Some(found) => found == part,
                None => false,
            };
            assert(seen == first.contains(part)) by {
                if first.contains(part) {
                    let i = choose|i: int| 0 <= i < first.len() && first[i] == part;
                    assert(first[i] == part);
                }
                if seen {
                    assert(first[0] == part);
                }
            }
            if !seen {
                targets.push(part);
            }
        }
    }
    assert(targets@ =~= spec_found_parts(direct, mirrored, mirror));
    let latch = if stroking && down && targets.len() > 0 {
        LatchUpdate::Latch
    } else if !down {
        LatchUpdate::Clear
    } else {
        LatchUpdate::Keep
    };
    AutoPartTargets { targets, latch }
}

/// Whether the authoring overlays are drawn: the authored hair is shown and
/// the selected part's scalp is loaded.
pub fn hair_authoring_visible(shows_authored_hair: bool, selected_scalp_loaded: bool) -> (result:
    bool)
    ensures
        result == (shows_authored_hair && selected_scalp_loaded),
{
    shows_authored_hair && selected_scalp_loaded
}

/// The surface the hair overlays are drawn against.
#[derive(Clone, Copy, Debug, PartialEq, Eq, Structural, Hash)]
pub enum OverlaySurface {
    /// The morphed result head.
    Result,
    /// The scalp of the selected part.
    SelectedScalp,
    /// Nothing to draw against.
    Missing,
}

/// The overlays lie on the result head when there is one and on the
/// selected part's scalp otherwise.
pub fn overlay_surface(has_result: bool, selected_scalp_loaded: bool) -> (result: OverlaySurface)
    ensures
        result == (if has_result {
            OverlaySurface::Result
        } else if selected_scalp_loaded {
            OverlaySurface::SelectedScalp
        } else {
            OverlaySurface::Missing
        }),
{
    if has_result {
        OverlaySurface::Result
    } else if selected_scalp_loaded {
        OverlaySurface::SelectedScalp
    } else {
        OverlaySurface::Missing
    }
}

/// What the hair tab's overlays read of a frame.
#[derive(Clone, Copy, Debug, PartialEq, Eq, Structural, Hash)]
pub struct HairOverlayInput {
    /// A part is selected and its scalp could be posed on the head.
    pub selected_scalp_posed: bool,
    /// The project has any part at all.
    pub any_parts: bool,
    /// The pane carries the editing furniture, not just the hair.
    pub furniture: bool,
    pub tool: HairTool,
    pub show_streams: bool,
    pub show_points: bool,
    pub show_colliders: bool,
    /// The strands are switched off in the viewport.
    pub hide_strands: bool,
    /// A thumbnail is being framed, which always shows the strands.
    pub framing_thumbnail: bool,
    /// Viewport physics is switched on.
    pub physics: bool,
    pub hair_editing: bool,
}

/// The lines drawn along the strands.
#[derive(Clone, Copy, Debug, PartialEq, Eq, Structural, Hash)]
pub enum StrandLines {
    Nothing,
    /// The stiffness ribbons of the rigidity tool.
    Ribbons,
    /// The strand streams.
    Streams,
}

/// Which hair overlays a pane draws.
#[derive(Clone, Copy, Debug, PartialEq, Eq, Structural, Hash)]
pub struct HairOverlayPlan {
    /// The faint scalp guide under the selected part.
    pub scalp_guide: bool,
    pub lines: StrandLines,
    /// The joint handles of the vertex tool.
    pub joint_handles: bool,
    /// The planted and open scalp points.
    pub scalp_points: bool,
    /// The strands of the parts themselves.
    pub strands: bool,
    /// The strands move under physics.
    pub simulate: bool,
    /// The body's collision capsules.
    pub colliders: bool,
}

pub open spec fn spec_hair_overlay_plan(input: HairOverlayInput) -> HairOverlayPlan {
    let strands = (input.selected_scalp_posed || input.any_parts) && !(input.hide_strands
        && !input.framing_thumbnail);
    let furniture = input.selected_scalp_posed && input.furniture;
    HairOverlayPlan {
        scalp_guide: furniture,
        lines: if furniture && input.tool == HairTool::Rigidity {
            StrandLines::Ribbons
        } else if furniture && input.show_streams {
            StrandLines::Streams
        } else {
            StrandLines::Nothing
        },
        joint_handles: furniture && input.tool == HairTool::Vertex,
        scalp_points: furniture && input.show_points,
        strands,
        simulate: strands && input.physics && input.hair_editing,
        colliders: furniture && input.show_colliders,
    }
}

/// Which hair overlays a pane draws.
///
/// Without a posed scalp for the selected part only the parts' strands are
/// drawn, when there are any. With one, a pane with furniture also draws the
/// scalp guide; the rigidity tool's stiffness ribbons or else, when switched
/// on, the strand streams; the vertex tool's joint handles; the scalp points
/// and the body's colliders when they are switched on. The strands are
/// hidden only when switched off outside a thumbnail shot, and move under
/// physics only while the hair is being edited.
pub fn hair_overlay_plan(input: &HairOverlayInput) -> (result: HairOverlayPlan)
    ensures
        result == spec_hair_overlay_plan(*input),
{
    let strands = (input.selected_scalp_posed || input.any_parts) && !(input.hide_strands
        && !input.framing_thumbnail);
    let furniture = input.selected_scalp_posed && input.furniture;
    let lines = if furniture && input.tool == HairTool::Rigidity {
        StrandLines::Ribbons
    } else if furniture && input.show_streams {
        StrandLines::Streams
    } else {
        StrandLines::Nothing
    };
    HairOverlayPlan {
        scalp_guide: furniture,
        lines,
        joint_handles: furniture && input.tool == HairTool::Vertex,
        scalp_points: furniture && input.show_points,
        strands,
        simulate: strands && input.physics && input.hair_editing,
        colliders: furniture && input.show_colliders,
    }
}

/// What a part's strand preview was built for.
#[derive(Clone, Copy, Debug, PartialEq, Eq, Structural, Hash)]
pub struct PreviewKey {
    /// The part's revision.
    pub revision: u64,
    /// The strands wear the part's tint.
    pub tinted: bool,
    /// The part is lit as the one being worked on.
    pub lit: bool,
}

/// A part is lit as the one being worked on while it is active, the hair is
/// being edited and no thumbnail is being framed.
pub fn preview_lit(part_active: bool, framing_thumbnail: bool, hair_editing: bool) -> (result: bool)
    ensures
        result == (part_active && !framing_thumbnail && hair_editing),
{
    part_active && !framing_thumbnail && hair_editing
}

/// Whether a cached strand preview can stand in for the one wanted.
///
/// The tint and the lighting must match. A preview of an older revision is
/// still good while a stroke or a control drag is open, outside a thumbnail
/// shot, and while it was built only a moment ago, so that a stroke rebuilds
/// its preview at a steady pace rather than every frame.
pub fn reuse_cached_preview(
    cached: PreviewKey,
    wanted: PreviewKey,
    edit_open: bool,
    framing_thumbnail: bool,
    built_a_moment_ago: bool,
) -> (result: bool)
    ensures
        result == (cached.tinted == wanted.tinted && cached.lit == wanted.lit && (cached.revision
            == wanted.revision || (edit_open && !framing_thumbnail && built_a_moment_ago))),
{
    cached.tinted == wanted.tinted && cached.lit == wanted.lit && (cached.revision == wanted.revision
        || (edit_open && !framing_thumbnail && built_a_moment_ago))
}

/// The view switches of the hair tab's header.
#[derive(Clone, Copy, Debug, PartialEq, Eq, Structural, Hash)]
pub struct HairViewFlags {
    /// Brushes act on both sides of the head.
    pub mirror_edit: bool,
    /// Brushes reach the parts under the pointer.
    pub auto_part: bool,
    /// Strands wear their part's tint.
    pub part_tint: bool,
    pub show_points: bool,
    /// The strands move under physics in the viewport.
    pub physics: bool,
    pub show_streams: bool,
    pub hide_strands: bool,
}

/// A switch of the hair header.
#[derive(Clone, Copy, Debug, PartialEq, Eq, Structural, Hash)]
pub enum HairViewSwitch {
    MirrorEdit,
    AutoPart,
    PartTint,
    ShowPoints,
    Physics,
    ShowStreams,
    HideStrands,
}

impl HairViewFlags {
    pub open spec fn spec_get(self, switch: HairViewSwitch) -> bool {
        match switch {
            HairViewSwitch::MirrorEdit => self.mirror_edit,
            HairViewSwitch::AutoPart => self.auto_part,
            HairViewSwitch::PartTint => self.part_tint,
            HairViewSwitch::ShowPoints => self.show_points,
            HairViewSwitch::Physics => self.physics,
            HairViewSwitch::ShowStreams => self.show_streams,
            HairViewSwitch::HideStrands => self.hide_strands,
        }
    }

    /// Whether a switch is on.
    pub fn get(&self, switch: HairViewSwitch) -> (result: bool)
        ensures
            result == self.spec_get(switch),
    {
        match switch {
            HairViewSwitch::MirrorEdit => self.mirror_edit,
            HairViewSwitch::AutoPart => self.auto_part,
            HairViewSwitch::PartTint => self.part_tint,
            HairViewSwitch::ShowPoints => self.show_points,
            HairViewSwitch::Physics => self.physics,
            HairViewSwitch::ShowStreams => self.show_streams,
            HairViewSwitch::HideStrands => self.hide_strands,
        }
    }

    /// A click on a switch flips it and leaves every other alone.
    pub fn flip(&mut self, switch: HairViewSwitch)
        ensures
            final(self).spec_get(switch) == !old(self).spec_get(switch),
            forall|other: HairViewSwitch|
                other != switch ==> final(self).spec_get(other) == old(self).spec_get(other),
    {
        match switch {
            HairViewSwitch::MirrorEdit => self.mirror_edit = !self.mirror_edit,
            HairViewSwitch::AutoPart => self.auto_part = !self.auto_part,
            HairViewSwitch::PartTint => self.part_tint = !self.part_tint,
            HairViewSwitch::ShowPoints => self.show_points = !self.show_points,
            HairViewSwitch::Physics => self.physics = !self.physics,
            HairViewSwitch::ShowStreams => self.show_streams = !self.show_streams,
            HairViewSwitch::HideStrands => self.hide_strands = !self.hide_strands,
        }
    }
}

/// One switch of the hair header as it is painted.
#[derive(Clone, Copy, Debug, PartialEq, Eq, Structural, Hash)]
pub struct HeaderToggle {
    pub switch: HairViewSwitch,
    pub icon: Icon,
    pub on: bool,
    pub name: TextKey,
    pub hint: TextKey,
}

pub open spec fn header_toggle(switch: HairViewSwitch, icon: Icon, flags: HairViewFlags, name: TextKey, hint: TextKey) -> HeaderToggle {
    HeaderToggle { switch, icon, on: flags.spec_get(switch), name, hint }
}

/// The header's switches, left to right: the editing pair, then the view
/// switches.
pub open spec fn spec_header_toggles(flags: HairViewFlags) -> Seq<HeaderToggle> {
    seq![
        header_toggle(HairViewSwitch::MirrorEdit, Icon::MirrorX, flags, TextKey::HairMirrorEdit, TextKey::HairMirrorEditHint),
        header_toggle(HairViewSwitch::AutoPart, Icon::ConnectedTopology, flags, TextKey::HairAutoPart, TextKey::HairAutoPartHint),
        header_toggle(HairViewSwitch::PartTint, Icon::VennThree, flags, TextKey::HairPartTint, TextKey::HairPartTintHint),
        header_toggle(HairViewSwitch::ShowPoints, Icon::CrosshairBox, flags, TextKey::HairShowPoints, TextKey::HairShowPointsHint),
        header_toggle(HairViewSwitch::Physics, Icon::GlobeGravity, flags, TextKey::HairViewportPhysics, TextKey::HairViewportPhysicsHint),
        header_toggle(HairViewSwitch::ShowStreams, Icon::HairStream, flags, TextKey::HairShowStreams, TextKey::HairShowStreamsHint),
        header_toggle(HairViewSwitch::HideStrands, Icon::EyeClosed, flags, TextKey::HairHideStrands, TextKey::HairHideStrandsHint),
    ]
}

/// The switches of the hair header, each lit while on.
pub fn hair_header_toggles(flags: &HairViewFlags) -> (result: Vec<HeaderToggle>)
    ensures
        result@ == spec_header_toggles(*flags),
{
    let result = vec![
        HeaderToggle {
            switch: HairViewSwitch::MirrorEdit,
            icon: Icon::MirrorX,
            on: flags.mirror_edit,
            name: TextKey::HairMirrorEdit,
            hint: TextKey::HairMirrorEditHint,
        },
        HeaderToggle {
            switch: HairViewSwitch::AutoPart,
            icon: Icon::ConnectedTopology,
            on: flags.auto_part,
            name: TextKey::HairAutoPart,
            hint: TextKey::HairAutoPartHint,
        },
        HeaderToggle {
            switch: HairViewSwitch::PartTint,
            icon: Icon::VennThree,
            on: flags.part_tint,
            name: TextKey::HairPartTint,
            hint: TextKey::HairPartTintHint,
        },
        HeaderToggle {
            switch: HairViewSwitch::ShowPoints,
            icon: Icon::CrosshairBox,
            on: flags.show_points,
            name: TextKey::HairShowPoints,
            hint: TextKey::HairShowPointsHint,
        },
        HeaderToggle {
            switch: HairViewSwitch::Physics,
            icon: Icon::GlobeGravity,
            on: flags.physics,
            name: TextKey::HairViewportPhysics,
            hint: TextKey::HairViewportPhysicsHint,
        },
        HeaderToggle {
            switch: HairViewSwitch::ShowStreams,
            icon: Icon::HairStream,
            on: flags.show_streams,
            name: TextKey::HairShowStreams,
            hint: TextKey::HairShowStreamsHint,
        },
        HeaderToggle {
            switch: HairViewSwitch::HideStrands,
            icon: Icon::EyeClosed,
            on: flags.hide_strands,
            name: TextKey::HairHideStrands,
            hint: TextKey::HairHideStrandsHint,
        },
    ];
    assert(result@ =~= spec_header_toggles(*flags));
    result
}

/// What the second slot of the hair header shows.
#[derive(Clone, Copy, Debug, PartialEq, Eq, Structural, Hash)]
pub enum HeaderSlot {
    /// The brush strength.
    Strength,
    /// The selected part's segment count; greyed when no part is selected.
    Segments { enabled: bool },
    /// A held gap, so the switches beside it do not move.
    Gap,
}

/// The second slot of the hair header for the tool in hand.
pub fn hair_header_slot(tool: HairTool, part_selected: bool) -> (result: HeaderSlot)
    ensures
        result == match spec_brush_slot(tool) {
            BrushSlot::Strength => HeaderSlot::Strength,
            BrushSlot::Segments => HeaderSlot::Segments { enabled: part_selected },
            BrushSlot::Empty => HeaderSlot::Gap,
        },
{
    match brush_slot(tool) {
        BrushSlot::Strength => HeaderSlot::Strength,
        BrushSlot::Segments => HeaderSlot::Segments { enabled: part_selected },
        BrushSlot::Empty => HeaderSlot::Gap,
    }
}

/// Whether the hair tab's header island stands: while the hair tab is
/// edited, with no portrait being framed, and when its controls fit the
/// width between the split toggle and the axis gizmo. The selection plays no
/// part: the switches on the row steer the viewport, not a layer.
pub fn hair_hud_shown(hair_editing: bool, framing_portrait: bool, controls_fit: bool) -> (result:
    bool)
    ensures
        result == (hair_editing && !framing_portrait && controls_fit),
{
    if !hair_editing || framing_portrait {
        return false;
    }
    controls_fit
}

} // verus!
