use vstd::prelude::*;

use crate::keys::{Icon, TextKey};
use crate::scene::ViewPane;
use crate::sculpt::{spec_sculpt_target_text_key, sculpt_target_text_key, SculptTarget, SculptTargets};

verus! {

/// The sculpt targets in the order their rows are listed.
pub open spec fn spec_target_order() -> Seq<SculptTarget> {
    seq![
        SculptTarget::HeadSkin,
        SculptTarget::Tear,
        SculptTarget::Eyelashes,
        SculptTarget::Eyes,
        SculptTarget::Lips,
        SculptTarget::TeethTongue,
        SculptTarget::InnerMouth,
    ]
}

/// The sculpt targets in the order their rows are listed.
pub fn target_order() -> (result: Vec<SculptTarget>)
    ensures
        result@ == spec_target_order(),
{
    let result = vec![
        SculptTarget::HeadSkin,
        SculptTarget::Tear,
        SculptTarget::Eyelashes,
        SculptTarget::Eyes,
        SculptTarget::Lips,
        SculptTarget::TeethTongue,
        SculptTarget::InnerMouth,
    ];
    assert(result@ =~= spec_target_order());
    result
}

/// One row of the collapsed transform-groups island.
#[derive(Clone, Copy, Debug, PartialEq, Eq, Structural, Hash)]
pub struct CollapsedGroupRow {
    pub target: SculptTarget,
    pub label: TextKey,
    /// The target takes sculpt strokes and is filled.
    pub editable: bool,
    /// The row's upper corners are rounded.
    pub round_top: bool,
    /// The row's lower corners are rounded.
    pub round_bottom: bool,
}

/// Whether the row at `index` lists an editable target; false past the ends.
pub open spec fn editable_at(editable: SculptTargets, index: int) -> bool {
    0 <= index < spec_target_order().len() && editable.spec_contains(spec_target_order()[index])
}

/// The row at `index` of the collapsed island.
pub open spec fn spec_collapsed_row(editable: SculptTargets, index: int) -> CollapsedGroupRow {
    let here = editable_at(editable, index);
    CollapsedGroupRow {
        target: spec_target_order()[index],
        label: spec_sculpt_target_text_key(spec_target_order()[index]),
        editable: here,
        round_top: !here || !editable_at(editable, index - 1),
        round_bottom: !here || !editable_at(editable, index + 1),
    }
}

/// The rows of the collapsed transform-groups island, one per target in
/// order. A run of editable rows is filled as one capsule: a row drops the
/// rounding on a side where its neighbour is editable too, and a row that is
/// not editable is rounded all round.
pub fn collapsed_group_rows(editable: &SculptTargets) -> (result: Vec<CollapsedGroupRow>)
    ensures
        result@.len() == spec_target_order().len(),
        forall|i: int| 0 <= i < result@.len() ==> result@[i] == spec_collapsed_row(*editable, i),
{
    let order = target_order();
    let count = order.len();
    let mut rows: Vec<CollapsedGroupRow> = Vec::new();
    let mut index: usize = 0;
    while index < count
        invariant
            order@ == spec_target_order(),
            count == order@.len(),
            index <= count,
            rows@.len() == index,
            forall|i: int| 0 <= i < index ==> rows@[i] == spec_collapsed_row(*editable, i),
        decreases count - index,
    {
        let target = order[index];
        let here = editable.contains(target);
        let previous = index > 0 && editable.contains(order[index - 1]);
        let next = index + 1 < count && editable.contains(order[index + 1]);
        rows.push(
            CollapsedGroupRow {
                target,
                label: sculpt_target_text_key(target),
                editable: here,
                round_top: !here || !previous,
                round_bottom: !here || !next,
            },
        );
        index += 1;
    }
    rows
}

/// Two neighbouring editable rows meet square, so a run of them reads as one
/// capsule; and a row's corners are rounded wherever its run ends.
pub proof fn lemma_an_editable_run_is_one_capsule(editable: SculptTargets, i: int)
    requires
        0 <= i < spec_target_order().len(),
    ensures
        editable_at(editable, i) && editable_at(editable, i + 1) ==> !spec_collapsed_row(
            editable,
            i,
        ).round_bottom && !spec_collapsed_row(editable, i + 1).round_top,
        i == 0 ==> spec_collapsed_row(editable, i).round_top,
        i == spec_target_order().len() - 1 ==> spec_collapsed_row(editable, i).round_bottom,
        !editable_at(editable, i) ==> spec_collapsed_row(editable, i).round_top
            && spec_collapsed_row(editable, i).round_bottom,
{
}

/// What a row of the expanded transform-groups island reads in a frame.
#[derive(Clone, Copy, Debug, PartialEq, Eq, Structural, Hash)]
pub struct GroupRowInput {
    /// The row's target takes sculpt strokes.
    pub editable: bool,
    /// A drag started on the row or its label this frame.
    pub drag_started: bool,
    pub pointer_down: bool,
    /// The value a drag across the rows is painting, if one is under way.
    pub stored_paint: Option<bool>,
    pub pointer_over_row: bool,
    pub over_visibility_toggle: bool,
    pub over_lock_toggle: bool,
    /// The solo key is held.
    pub solo_held: bool,
    pub row_clicked: bool,
    pub label_clicked: bool,
    pub lock_clicked: bool,
    pub visibility_clicked: bool,
}

/// What a row does to its target after the visibility toggle has had its say.
#[derive(Clone, Copy, Debug, PartialEq, Eq, Structural, Hash)]
pub enum GroupRowEffect {
    /// A drag is painting editability across the rows; `Some` carries the
    /// value to set when this row does not have it yet.
    Paint(Option<bool>),
    /// Solo the target, or restore the view when it was soloed.
    ToggleSolo,
    /// Set the target's editability.
    SetEditable(bool),
    Nothing,
}

/// The whole of a row's frame.
#[derive(Clone, Copy, Debug, PartialEq, Eq, Structural, Hash)]
pub struct GroupRowOutcome {
    /// Flip the target's visibility.
    pub toggle_visibility: bool,
    /// The painting value kept for the next frame.
    pub stored_paint: Option<bool>,
    pub effect: GroupRowEffect,
}

/// The painting value after this frame: a drag that starts on a row paints
/// the opposite of that row's editability, and letting go forgets it.
pub open spec fn spec_stored_paint(input: GroupRowInput) -> Option<bool> {
    if input.drag_started {
        Some(!input.editable)
    } else if !input.pointer_down {
        None
    } else {
        input.stored_paint
    }
}

/// The value this row is painted with, if a drag paints it this frame.
pub open spec fn spec_painted_value(input: GroupRowInput) -> Option<bool> {
    if input.pointer_down && input.pointer_over_row && !input.over_visibility_toggle
        && !input.over_lock_toggle {
        spec_stored_paint(input)
    } else {
        None
    }
}

pub open spec fn spec_group_row_effect(input: GroupRowInput) -> GroupRowEffect {
    match spec_painted_value(input) {
        Some(enabled) => GroupRowEffect::Paint(
            if enabled != input.editable {
                Some(enabled)
            } else {
                None
            },
        ),
        None => if input.solo_held && (input.row_clicked || input.label_clicked
            || input.lock_clicked) {
            GroupRowEffect::ToggleSolo
        } else if input.lock_clicked || input.label_clicked || (input.row_clicked
            && !input.visibility_clicked) {
            GroupRowEffect::SetEditable(!input.editable)
        } else {
            GroupRowEffect::Nothing
        },
    }
}

/// A row of the transform-groups island.
///
/// The eye toggles visibility. A drag that starts on a row paints every row
/// it then passes, off the toggles, with the opposite of the starting row's
/// editability; a click with the solo key held solos the target; and any
/// other click on the row, its label or its lock flips editability.
pub fn group_row_step(input: &GroupRowInput) -> (outcome: GroupRowOutcome)
    ensures
        outcome.toggle_visibility == input.visibility_clicked,
        outcome.stored_paint == spec_stored_paint(*input),
        outcome.effect == spec_group_row_effect(*input),
{
    let stored_paint = if input.drag_started {
        Some(!input.editable)
    } else if !input.pointer_down {
        None
    } else {
        input.stored_paint
    };
    let painted = if input.pointer_down && input.pointer_over_row && !input.over_visibility_toggle
        && !input.over_lock_toggle {
        stored_paint
    } else {
        None
    };
    let effect = match painted {
        Some(enabled) => GroupRowEffect::Paint(
            if enabled != input.editable {
                Some(enabled)
            } else {
                None
            },
        ),
        None => {
            if input.solo_held && (input.row_clicked || input.label_clicked || input.lock_clicked) {
                GroupRowEffect::ToggleSolo
            } else if input.lock_clicked || input.label_clicked || (input.row_clicked
                && !input.visibility_clicked) {
                GroupRowEffect::SetEditable(!input.editable)
            } else {
                GroupRowEffect::Nothing
            }
        },
    };
    GroupRowOutcome { toggle_visibility: input.visibility_clicked, stored_paint, effect }
}

/// A painting drag sets rows to the one value it started with and never
/// flips a row back: a row it passes either takes that value or already has
/// it; and a drag that starts on a row paints that row to its opposite.
pub proof fn lemma_painting_sets_one_value(input: GroupRowInput, started_from: bool)
    ensures
        !input.drag_started && input.stored_paint == Some(started_from) ==> match spec_group_row_effect(
            input,
        ) {
            GroupRowEffect::Paint(Some(value)) => value == started_from && value != input.editable,
            GroupRowEffect::Paint(None) => input.editable == started_from,
            _ => !(input.pointer_down && input.pointer_over_row && !input.over_visibility_toggle
                && !input.over_lock_toggle),
        },
        input.drag_started && input.pointer_down && input.pointer_over_row
            && !input.over_visibility_toggle && !input.over_lock_toggle ==> spec_group_row_effect(
            input,
        ) == GroupRowEffect::Paint(Some(!input.editable)),
{
}

/// The words and icons of an expanded row.
#[derive(Clone, Copy, Debug, PartialEq, Eq, Structural, Hash)]
pub struct GroupRowLabels {
    pub label: TextKey,
    pub visibility_icon: Icon,
    pub visibility_tooltip: TextKey,
    pub lock_tooltip: TextKey,
    pub solo_hint: TextKey,
}

/// The eye is open on a visible target and offers to hide it; the lock offers
/// to lock an editable target and to unlock another; the solo hint offers to
/// restore the view on the soloed target and to solo any other.
pub fn group_row_labels(target: SculptTarget, visible: bool, editable: bool, soloed: Option<
    SculptTarget,
>) -> (result: GroupRowLabels)
    ensures
        result == (GroupRowLabels {
            label: spec_sculpt_target_text_key(target),
            visibility_icon: if visible {
                Icon::EyeOpen
            } else {
                Icon::EyeClosed
            },
            visibility_tooltip: if visible {
                TextKey::TooltipHide
            } else {
                TextKey::TooltipShow
            },
            lock_tooltip: if editable {
                TextKey::TooltipLock
            } else {
                TextKey::TooltipUnlock
            },
            solo_hint: if soloed == Some(target) {
                TextKey::SoloViewRestoreHint
            } else {
                TextKey::SoloViewHint
            },
        }),
{
    let soloed_here = match soloed {
        Some(solo) => solo == target,
        None => false,
    };
    GroupRowLabels {
        label: sculpt_target_text_key(target),
        visibility_icon: if visible {
            Icon::EyeOpen
        } else {
            Icon::EyeClosed
        },
        visibility_tooltip: if visible {
            TextKey::TooltipHide
        } else {
            TextKey::TooltipShow
        },
        lock_tooltip: if editable {
            TextKey::TooltipLock
        } else {
            TextKey::TooltipUnlock
        },
        solo_hint: if soloed_here {
            TextKey::SoloViewRestoreHint
        } else {
            TextKey::SoloViewHint
        },
    }
}

/// How a history slot is filled.
#[derive(Clone, Copy, Debug, PartialEq, Eq, Structural, Hash)]
pub enum SlotFill {
    /// The step the work stands at.
    Current,
    /// The slot under the pointer.
    Hovered,
    /// A step that can be undone to.
    Past,
    /// A step that can be redone to.
    Future,
}

/// Whether the history dial is drawn: there is a step to go to and the row
/// has room for a slot (`fits`).
pub fn history_dial_shown(back: usize, forward: usize, fits: bool) -> (result: bool)
    requires
        back + forward <= usize::MAX,
    ensures
        result == (back + forward > 0 && fits),
{
    let steps = back + forward;
    steps > 0 && fits
}

/// The fill of slot `index` when the work stands at step `back`.
pub fn history_slot_fill(index: usize, back: usize, aimed: bool) -> (result: SlotFill)
    ensures
        result == (if index == back {
            SlotFill::Current
        } else if aimed {
            SlotFill::Hovered
        } else if index < back {
            SlotFill::Past
        } else {
            SlotFill::Future
        }),
{
    if index == back {
        SlotFill::Current
    } else if aimed {
        SlotFill::Hovered
    } else if index < back {
        SlotFill::Past
    } else {
        SlotFill::Future
    }
}

/// The step the dial walks to: the slot a clean press lands on, or the
/// current step.
pub fn history_target(back: usize, pressed: bool, aimed_slot: Option<usize>) -> (result: usize)
    ensures
        result == (match aimed_slot {
            Some(slot) => if pressed {
                slot
            } else {
                back
            },
            None => back,
        }),
{
    match aimed_slot {
        Some(slot) => if pressed {
            slot
        } else {
            back
        },
        None => back,
    }
}

/// Where the dial's walk stands: first it steps back while past the target,
/// then forward while short of it.
#[derive(Clone, Copy, Debug, PartialEq, Eq, Structural, Hash)]
pub enum WalkPhase {
    Back,
    Forward,
    Done,
}

/// One history step of the walk.
#[derive(Clone, Copy, Debug, PartialEq, Eq, Structural, Hash)]
pub enum HistoryStep {
    Undo,
    Redo,
}

/// The walk of the history dial towards the step a press chose.
#[derive(Clone, Copy, Debug, PartialEq, Eq, Structural, Hash)]
pub struct HistoryWalk {
    /// The step the work stands at.
    pub at: usize,
    pub target: usize,
    pub phase: WalkPhase,
}

/// The step the walk takes next, if any.
pub open spec fn spec_walk_action(walk: HistoryWalk) -> Option<HistoryStep> {
    match walk.phase {
        WalkPhase::Back => if walk.at > walk.target {
            Some(HistoryStep::Undo)
        } else if walk.at < walk.target {
            Some(HistoryStep::Redo)
        } else {
            None
        },
        WalkPhase::Forward => if walk.at < walk.target {
            Some(HistoryStep::Redo)
        } else {
            None
        },
        WalkPhase::Done => None,
    }
}

/// Starts a walk from `at` towards `target`.
pub fn history_walk(at: usize, target: usize) -> (result: HistoryWalk)
    ensures
        result == (HistoryWalk { at, target, phase: WalkPhase::Back }),
{
    HistoryWalk { at, target, phase: WalkPhase::Back }
}

/// The step the walk takes next: undo while past the target, redo while
/// short of it, nothing once there or once a step made no headway.
pub fn history_walk_action(walk: &HistoryWalk) -> (result: Option<HistoryStep>)
    ensures
        result == spec_walk_action(*walk),
{
    match walk.phase {
        WalkPhase::Back => {
            if walk.at > walk.target {
                Some(HistoryStep::Undo)
            } else if walk.at < walk.target {
                Some(HistoryStep::Redo)
            } else {
                None
            }
        },
        WalkPhase::Forward => {
            if walk.at < walk.target {
                Some(HistoryStep::Redo)
            } else {
                None
            }
        },
        WalkPhase::Done => None,
    }
}

/// The walk after `step` left the work at `now`.
pub open spec fn spec_walk_after(walk: HistoryWalk, step: HistoryStep, now: usize) -> HistoryWalk {
    match step {
        HistoryStep::Undo => if now >= walk.at {
            HistoryWalk { phase: WalkPhase::Done, ..walk }
        } else {
            HistoryWalk { at: now, phase: WalkPhase::Back, ..walk }
        },
        HistoryStep::Redo => if now <= walk.at {
            HistoryWalk { phase: WalkPhase::Done, ..walk }
        } else {
            HistoryWalk { at: now, phase: WalkPhase::Forward, ..walk }
        },
    }
}

/// The walk after `step` left the work at `now`: a step that did not move
/// the right way ends the walk; an undo keeps walking back, a redo forward.
pub fn history_walk_after(walk: &HistoryWalk, step: HistoryStep, now: usize) -> (result: HistoryWalk)
    ensures
        result == (match step {
            HistoryStep::Undo => if now >= walk.at {
                HistoryWalk { phase: WalkPhase::Done, ..*walk }
            } else {
                HistoryWalk { at: now, phase: WalkPhase::Back, ..*walk }
            },
            HistoryStep::Redo => if now <= walk.at {
                HistoryWalk { phase: WalkPhase::Done, ..*walk }
            } else {
                HistoryWalk { at: now, phase: WalkPhase::Forward, ..*walk }
            },
        }),
        result == spec_walk_after(*walk, step, now),
{
    match step {
        HistoryStep::Undo => {
            if now >= walk.at {
                HistoryWalk { at: walk.at, target: walk.target, phase: WalkPhase::Done }
            } else {
                HistoryWalk { at: now, target: walk.target, phase: WalkPhase::Back }
            }
        },
        HistoryStep::Redo => {
            if now <= walk.at {
                HistoryWalk { at: walk.at, target: walk.target, phase: WalkPhase::Done }
            } else {
                HistoryWalk { at: now, target: walk.target, phase: WalkPhase::Forward }
            }
        },
    }
}

/// The dial only ever steps towards its target: it undoes only while past
/// it and redoes only while short of it; once the work stands on the target
/// it takes no step at all, and once it walks forward it never turns back.
pub proof fn lemma_the_dial_walks_towards_its_target(walk: HistoryWalk)
    ensures
        spec_walk_action(walk) == Some(HistoryStep::Undo) ==> walk.at > walk.target
            && walk.phase == WalkPhase::Back,
        spec_walk_action(walk) == Some(HistoryStep::Redo) ==> walk.at < walk.target,
        walk.at == walk.target ==> spec_walk_action(walk) is None,
        walk.phase == WalkPhase::Forward ==> spec_walk_action(walk) != Some(HistoryStep::Undo),
{
}

/// How the model area of the sculpt, texture and hair workspaces is split.
#[derive(Clone, Copy, Debug, PartialEq, Eq, Structural, Hash)]
pub enum PaneLayout {
    /// One pane; the first pane becomes the active one.
    Single,
    /// Two panes, one above the other when `stacked`, side by side otherwise.
    Split { stacked: bool },
}

/// The panes of the model area: two only when the split view is on, no
/// portrait is being framed and the area has room for two panes and the gap;
/// the texture tab stacks them. With one pane, that pane, the primary one,
/// becomes the active pane; with two, the active pane is left for the
/// pointer to settle.
pub fn draw_model_panes(
    split_model_view: bool,
    framing_portrait: bool,
    texturing: bool,
    room_for_two: bool,
    active: &mut ViewPane,
) -> (result: PaneLayout)
    ensures
        result == (if !split_model_view || framing_portrait || !room_for_two {
            PaneLayout::Single
        } else {
            PaneLayout::Split { stacked: texturing }
        }),
        *final(active) == (if result == PaneLayout::Single {
            ViewPane::Primary
        } else {
            *old(active)
        }),
{
    if !split_model_view || framing_portrait || !room_for_two {
        *active = ViewPane::Primary;
        return PaneLayout::Single;
    }
    PaneLayout::Split { stacked: texturing }
}

/// The island across the top of the detail workspace.
#[derive(Clone, Copy, Debug, PartialEq, Eq, Structural, Hash)]
pub enum DetailHeader {
    /// The texture tab's paint controls.
    Paint,
    /// The sculpt brush controls.
    Sculpt,
}

/// The walk a dial press sets off when each step moves the work by one:
/// `steps` turns of taking the walk's action and letting it settle.
pub open spec fn spec_unit_walk(walk: HistoryWalk, steps: nat) -> HistoryWalk
    decreases steps,
{
    if steps == 0 {
        walk
    } else {
        match spec_walk_action(walk) {
            None => walk,
            Some(HistoryStep::Undo) => spec_unit_walk(
                spec_walk_after(walk, HistoryStep::Undo, (walk.at - 1) as usize),
                (steps - 1) as nat,
            ),
            Some(HistoryStep::Redo) => spec_unit_walk(
                spec_walk_after(walk, HistoryStep::Redo, (walk.at + 1) as usize),
                (steps - 1) as nat,
            ),
        }
    }
}

/// A walk that has neither reached its target nor stalled keeps stepping
/// towards it: it redoes while short of the target, in either phase, and
/// undoes while past it on the way back.
pub proof fn lemma_an_unfinished_walk_keeps_stepping(walk: HistoryWalk)
    ensures
        walk.phase != WalkPhase::Done && walk.at < walk.target ==> spec_walk_action(walk) == Some(
            HistoryStep::Redo,
        ),
        walk.phase == WalkPhase::Back && walk.at > walk.target ==> spec_walk_action(walk) == Some(
            HistoryStep::Undo,
        ),
{
}

/// A press on the dial lands on the pressed step: when every undo and redo
/// moves the work by one, a walk started at `at` stands on `target` after
/// as many steps as lie between them.
pub proof fn lemma_a_dial_press_lands_on_its_slot(at: usize, target: usize)
    ensures
        spec_unit_walk(
            HistoryWalk { at, target, phase: WalkPhase::Back },
            (if at > target {
                at - target
            } else {
                target - at
            }) as nat,
        ).at == target,
{
    lemma_unit_walk_arrives(HistoryWalk { at, target, phase: WalkPhase::Back });
}

proof fn lemma_unit_walk_arrives(walk: HistoryWalk)
    requires
        walk.phase != WalkPhase::Done,
        walk.phase == WalkPhase::Forward ==> walk.at <= walk.target,
    ensures
        spec_unit_walk(
            walk,
            (if walk.at > walk.target {
                walk.at - walk.target
            } else {
                walk.target - walk.at
            }) as nat,
        ).at == walk.target,
    decreases if walk.at > walk.target {
        walk.at - walk.target
    } else {
        walk.target - walk.at
    },
{
    if walk.at > walk.target {
        let next = spec_walk_after(walk, HistoryStep::Undo, (walk.at - 1) as usize);
        assert(next.at == walk.at - 1 && next.phase == WalkPhase::Back);
        lemma_unit_walk_arrives(next);
    } else if walk.at < walk.target {
        let next = spec_walk_after(walk, HistoryStep::Redo, (walk.at + 1) as usize);
        assert(next.at == walk.at + 1 && next.phase == WalkPhase::Forward);
        lemma_unit_walk_arrives(next);
    }
}

/// What the sculpt and texture workspace lays out in a frame.
#[derive(Clone, Copy, Debug, PartialEq, Eq, Structural, Hash)]
pub struct DetailWorkspacePlan {
    /// The source picture stands beside the model, with the prompt on the
    /// divider between them.
    pub source_beside_model: bool,
    pub panes: PaneLayout,
    pub header: DetailHeader,
    /// The icon of the split-view toggle.
    pub split_icon: Icon,
}

/// Lays out the detail workspace: below the history dial, the texture tab
/// puts its source picture beside the model, the prompt on the divider and
/// the paint controls on top; the sculpt tab gives the whole area to the
/// model under the brush controls. The split toggle shows rows on the texture
/// tab and columns otherwise. A single model pane makes the primary pane the
/// active one.
pub fn draw_detail_workspace(
    texturing: bool,
    split_model_view: bool,
    framing_portrait: bool,
    room_for_two: bool,
    active: &mut ViewPane,
) -> (plan: DetailWorkspacePlan)
    ensures
        plan.source_beside_model == texturing,
        plan.panes == (if !split_model_view || framing_portrait || !room_for_two {
            PaneLayout::Single
        } else {
            PaneLayout::Split { stacked: texturing }
        }),
        plan.header == (if texturing {
            DetailHeader::Paint
        } else {
            DetailHeader::Sculpt
        }),
        plan.split_icon == (if texturing {
            Icon::SplitRows
        } else {
            Icon::SplitColumns
        }),
        *final(active) == (if plan.panes == PaneLayout::Single {
            ViewPane::Primary
        } else {
            *old(active)
        }),
{
    let panes = draw_model_panes(split_model_view, framing_portrait, texturing, room_for_two, active);
    if texturing {
        DetailWorkspacePlan {
            source_beside_model: true,
            panes,
            header: DetailHeader::Paint,
            split_icon: Icon::SplitRows,
        }
    } else {
        DetailWorkspacePlan {
            source_beside_model: false,
            panes,
            header: DetailHeader::Sculpt,
            split_icon: Icon::SplitColumns,
        }
    }
}

/// Whether the pointer is over the workspace's own controls: on the hair tab
/// its header and toolbox; on the sculpt and texture tabs the header band,
/// and on the sculpt tab also the groups island; nowhere on other tabs.
pub fn detail_viewport_controls_contains(
    hair_editing: bool,
    detail_editing: bool,
    texturing: bool,
    in_hair_header: bool,
    in_hair_toolbox: bool,
    in_header_band: bool,
    in_groups_island: bool,
) -> (result: bool)
    ensures
        result == (if hair_editing {
            in_hair_header || in_hair_toolbox
        } else if !detail_editing {
            false
        } else {
            in_header_band || (!texturing && in_groups_island)
        }),
{
    if hair_editing {
        return in_hair_header || in_hair_toolbox;
    }
    if !detail_editing {
        return false;
    }
    in_header_band || (!texturing && in_groups_island)
}

/// The eyes are at rest: gazing by hand, nothing frozen, and the hand-set
/// gaze still at the centre.
pub fn eye_gaze_is_untouched(manual_mode: bool, frozen: bool, centred: bool) -> (result: bool)
    ensures
        result == (manual_mode && !frozen && centred),
{
    manual_mode && !frozen && centred
}

/// Whether closing the gaze popup turns eye tracking off: it does when the
/// popup was open, is now closed, tracking is on and nobody touched the gaze.
pub fn eye_tracking_off_on_close(was_open: bool, open: bool, tracking: bool, untouched: bool) -> (result:
    bool)
    ensures
        result == (was_open && !open && tracking && untouched),
{
    was_open && !open && tracking && untouched
}

/// A click on the eyes turns tracking on; it never turns it off.
pub fn eye_click_turns_tracking_on(clicked: bool, tracking: bool) -> (result: bool)
    ensures
        result == (clicked && !tracking),
{
    clicked && !tracking
}

/// How much room the sculpt brush island has, widest first.
#[derive(Clone, Copy, Debug, PartialEq, Eq, Structural, Hash)]
pub enum DetailHudTier {
    /// One roomy row with separators.
    Full,
    /// One tight row.
    Compact,
    /// The sliders above, the rest below.
    TwoRow,
    /// The sliders, the brush row, and the eyes on a row of their own.
    ThreeRow,
}

/// A control of the sculpt brush island.
#[derive(Clone, Copy, Debug, PartialEq, Eq, Structural, Hash)]
pub enum HudControl {
    /// The brush picker, compact or labelled.
    Brush { compact: bool },
    /// The size and strength sliders.
    Sliders,
    /// The falloff picker, compact or labelled.
    Falloff { compact: bool },
    /// The symmetry, backface and topology toggles.
    Toggles,
    /// The eye-gaze control.
    Eyes,
    Separator,
}

pub open spec fn spec_detail_hud_rows(tier: DetailHudTier) -> Seq<Seq<HudControl>> {
    match tier {
        DetailHudTier::Full => seq![
            seq![
                HudControl::Brush { compact: false },
                HudControl::Sliders,
                HudControl::Separator,
                HudControl::Falloff { compact: false },
                HudControl::Separator,
                HudControl::Toggles,
                HudControl::Separator,
                HudControl::Eyes,
            ],
        ],
        DetailHudTier::Compact => seq![
            seq![
                HudControl::Brush { compact: true },
                HudControl::Sliders,
                HudControl::Falloff { compact: true },
                HudControl::Toggles,
                HudControl::Eyes,
            ],
        ],
        DetailHudTier::TwoRow => seq![
            seq![HudControl::Sliders],
            seq![
                HudControl::Brush { compact: true },
                HudControl::Falloff { compact: true },
                HudControl::Toggles,
                HudControl::Eyes,
            ],
        ],
        DetailHudTier::ThreeRow => seq![
            seq![HudControl::Sliders],
            seq![HudControl::Brush { compact: true }, HudControl::Falloff { compact: true }, HudControl::Toggles],
            seq![HudControl::Eyes],
        ],
    }
}

/// The rows of the sculpt brush island at each tier, top to bottom and
/// left to right.
pub fn detail_hud_rows(tier: DetailHudTier) -> (result: Vec<Vec<HudControl>>)
    ensures
        result@.len() == spec_detail_hud_rows(tier).len(),
        forall|r: int| 0 <= r < result@.len() ==> #[trigger] result@[r]@ == spec_detail_hud_rows(tier)[r],
{
    let rows: Vec<Vec<HudControl>> = match tier {
        DetailHudTier::Full => vec![
            vec![
                HudControl::Brush { compact: false },
                HudControl::Sliders,
                HudControl::Separator,
                HudControl::Falloff { compact: false },
                HudControl::Separator,
                HudControl::Toggles,
                HudControl::Separator,
                HudControl::Eyes,
            ],
        ],
        DetailHudTier::Compact => vec![
            vec![
                HudControl::Brush { compact: true },
                HudControl::Sliders,
                HudControl::Falloff { compact: true },
                HudControl::Toggles,
                HudControl::Eyes,
            ],
        ],
        DetailHudTier::TwoRow => vec![
            vec![HudControl::Sliders],
            vec![
                HudControl::Brush { compact: true },
                HudControl::Falloff { compact: true },
                HudControl::Toggles,
                HudControl::Eyes,
            ],
        ],
        DetailHudTier::ThreeRow => vec![
            vec![HudControl::Sliders],
            vec![HudControl::Brush { compact: true }, HudControl::Falloff { compact: true }, HudControl::Toggles],
            vec![HudControl::Eyes],
        ],
    };
    proof {
        let spec = spec_detail_hud_rows(tier);
        assert(rows@.len() == spec.len());
        assert forall|r: int| 0 <= r < rows@.len() implies #[trigger] rows@[r]@ == spec[r] by {
            assert(rows@[r]@ =~= spec[r]);
        }
    }
    rows
}

/// The kind of a control, compact or not: a number for each kind, and none
/// for a separator.
pub open spec fn control_kind(control: HudControl) -> int {
    match control {
        HudControl::Brush { .. } => 0,
        HudControl::Sliders => 1,
        HudControl::Falloff { .. } => 2,
        HudControl::Toggles => 3,
        HudControl::Eyes => 4,
        HudControl::Separator => 5,
    }
}

/// How many controls of kind `kind` a row holds.
pub open spec fn count_in_row(row: Seq<HudControl>, kind: int) -> int
    decreases row.len(),
{
    if row.len() == 0 {
        0
    } else {
        count_in_row(row.drop_last(), kind) + if control_kind(row.last()) == kind {
            1int
        } else {
            0int
        }
    }
}

/// How many controls of kind `kind` a layout holds.
pub open spec fn count_in_rows(rows: Seq<Seq<HudControl>>, kind: int) -> int
    decreases rows.len(),
{
    if rows.len() == 0 {
        0
    } else {
        count_in_rows(rows.drop_last(), kind) + count_in_row(rows.last(), kind)
    }
}

/// However narrow the island gets, until it hides, it keeps every control
/// exactly once: narrowing moves controls to other rows and drops none.
pub proof fn lemma_every_tier_keeps_every_control(tier: DetailHudTier, kind: int)
    requires
        0 <= kind < 5,
    ensures
        count_in_rows(spec_detail_hud_rows(tier), kind) == 1,
{
    reveal_with_fuel(count_in_row, 9);
    reveal_with_fuel(count_in_rows, 4);
}

/// A request the eye-gaze popup makes of the application.
#[derive(Clone, Copy, Debug, PartialEq, Eq, Structural, Hash)]
pub enum EyeGazeRequest {
    /// Aim the eyes at the point set on the grid.
    SetManualGaze,
    /// Let the eyes follow the cursor.
    FollowCursor,
    /// Turn eye tracking on.
    TrackingOn,
    /// Put the gaze back to rest.
    ResetGaze,
    /// Freeze the eyes where they look.
    FreezeGaze,
}

/// The requests of a frame of the gaze popup, in order: touching the grid
/// sets a hand-aimed gaze and the cursor button follows the cursor, each
/// turning tracking on if it is off; then the reset and freeze buttons.
pub fn eye_gaze_popup_requests(
    grid_touched: bool,
    follow_clicked: bool,
    reset_clicked: bool,
    freeze_clicked: bool,
    tracking: bool,
) -> (result: Vec<EyeGazeRequest>)
    ensures
        result@ == (if grid_touched {
            seq![EyeGazeRequest::SetManualGaze] + if tracking {
                seq![]
            } else {
                seq![EyeGazeRequest::TrackingOn]
            }
        } else {
            seq![]
        }) + (if follow_clicked {
            seq![EyeGazeRequest::FollowCursor] + if tracking || grid_touched {
                seq![]
            } else {
                seq![EyeGazeRequest::TrackingOn]
            }
        } else {
            seq![]
        }) + (if reset_clicked {
            seq![EyeGazeRequest::ResetGaze]
        } else {
            seq![]
        }) + (if freeze_clicked {
            seq![EyeGazeRequest::FreezeGaze]
        } else {
            seq![]
        }),
{
    let mut requests: Vec<EyeGazeRequest> = Vec::new();
    let mut on = tracking;
    if grid_touched {
        requests.push(EyeGazeRequest::SetManualGaze);
        if !on {
            requests.push(EyeGazeRequest::TrackingOn);
            on = true;
        }
    }
    let ghost grid = requests@;
    if follow_clicked {
        requests.push(EyeGazeRequest::FollowCursor);
        if !on {
            requests.push(EyeGazeRequest::TrackingOn);
        }
    }
    let ghost follow = requests@;
    if reset_clicked {
        requests.push(EyeGazeRequest::ResetGaze);
    }
    let ghost reset = requests@;
    if freeze_clicked {
        requests.push(EyeGazeRequest::FreezeGaze);
    }
    let ghost first: Seq<EyeGazeRequest> = if grid_touched {
        seq![EyeGazeRequest::SetManualGaze] + if tracking {
            seq![]
        } else {
            seq![EyeGazeRequest::TrackingOn]
        }
    } else {
        seq![]
    };
    let ghost second: Seq<EyeGazeRequest> = if follow_clicked {
        seq![EyeGazeRequest::FollowCursor] + if tracking || grid_touched {
            seq![]
        } else {
            seq![EyeGazeRequest::TrackingOn]
        }
    } else {
        seq![]
    };
    let ghost third: Seq<EyeGazeRequest> = if reset_clicked {
        seq![EyeGazeRequest::ResetGaze]
    } else {
        seq![]
    };
    let ghost fourth: Seq<EyeGazeRequest> = if freeze_clicked {
        seq![EyeGazeRequest::FreezeGaze]
    } else {
        seq![]
    };
    assert(grid =~= first);
    assert(follow =~= first + second);
    assert(reset =~= first + second + third);
    assert(requests@ =~= first + second + third + fourth);
    requests
}

} // verus!
