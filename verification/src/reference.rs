use vstd::prelude::*;

use crate::backdrop::Triangle;
use crate::keys::{Icon, TextKey};

verus! {

/// A row of the reference list: the head, or a picture by its id.
#[derive(Clone, Copy, Debug, PartialEq, Eq, Structural, Hash)]
pub enum ReferenceRow {
    Head,
    Image(u64),
}

/// The rows as the list shows them: the board paints back to front, and the
/// list puts the front-most row at the top.
pub fn listed_rows(painted: &Vec<ReferenceRow>) -> (result: Vec<ReferenceRow>)
    ensures
        result@.len() == painted@.len(),
        forall|i: int|
            0 <= i < painted@.len() ==> #[trigger] result@[i] == painted@[painted@.len() - 1 - i],
{
    let count = painted.len();
    let mut listed: Vec<ReferenceRow> = Vec::new();
    let mut taken: usize = 0;
    while taken < count
        invariant
            count == painted@.len(),
            taken <= count,
            listed@.len() == taken,
            forall|i: int| 0 <= i < taken ==> #[trigger] listed@[i] == painted@[count - 1 - i],
        decreases count - taken,
    {
        listed.push(painted[count - 1 - taken]);
        taken += 1;
    }
    listed
}

/// The most rows the list shows before it scrolls.
pub const REFERENCE_VISIBLE_ROWS: usize = 6;

/// How many rows tall the list is: one even when empty, so the empty row
/// has a place, and never more than the rows it shows before scrolling.
pub fn reference_list_rows_tall(row_count: usize) -> (result: usize)
    ensures
        result == (if row_count < 1 {
            1
        } else if row_count > REFERENCE_VISIBLE_ROWS {
            REFERENCE_VISIBLE_ROWS as int
        } else {
            row_count as int
        }),
{
    if row_count < 1 {
        1
    } else if row_count > REFERENCE_VISIBLE_ROWS {
        REFERENCE_VISIBLE_ROWS
    } else {
        row_count
    }
}

/// The badges at the end of a picture's row: a closed eye when it is hidden,
/// then a lock when it is locked.
pub fn row_badges(visible: bool, locked: bool) -> (result: Vec<Icon>)
    ensures
        result@ == (if visible {
            seq![]
        } else {
            seq![Icon::EyeClosed]
        }) + (if locked {
            seq![Icon::Lock]
        } else {
            seq![]
        }),
{
    let mut badges: Vec<Icon> = Vec::new();
    if !visible {
        badges.push(Icon::EyeClosed);
    }
    if locked {
        badges.push(Icon::Lock);
    }
    let ghost hidden: Seq<Icon> = if visible {
        seq![]
    } else {
        seq![Icon::EyeClosed]
    };
    let ghost lock: Seq<Icon> = if locked {
        seq![Icon::Lock]
    } else {
        seq![]
    };
    assert(badges@ =~= hidden + lock);
    badges
}

/// A grab of a picture held across frames.
#[derive(Clone, Copy, Debug, PartialEq, Eq, Structural, Hash)]
pub enum Grabbed {
    /// The picture follows the pointer.
    Move(u64),
    /// The picture's corner follows the pointer.
    Resize(u64),
}

/// What the pointer finds on the selected picture.
#[derive(Clone, Copy, Debug, PartialEq, Eq, Structural, Hash)]
pub struct SelectedPicture {
    pub id: u64,
    pub visible: bool,
    /// The picture is listed above the head.
    pub in_front: bool,
    pub locked: bool,
    /// The pointer is on its close button.
    pub on_close: bool,
    /// The pointer is on its lock button.
    pub on_lock: bool,
    /// The pointer is on its resize corner.
    pub on_corner: bool,
}

/// What the reference drag reads of a frame.
#[derive(Clone, Copy, Debug, PartialEq, Eq, Structural, Hash)]
pub struct ReferenceInput {
    /// The board is shown, holds a picture, and no portrait is being framed.
    pub board_active: bool,
    pub held: Option<Grabbed>,
    pub released: bool,
    pub primary_down: bool,
    /// The pointer moved since the last frame.
    pub pointer_moved: bool,
    /// A held resize can be measured: the pointer is known, the picture still
    /// exists and the viewport has height.
    pub resize_measurable: bool,
    pub pointer_in_viewport: bool,
    pub pressed: bool,
    pub selected: Option<SelectedPicture>,
    /// The picture the pointer lands on, if any.
    pub hit: Option<u64>,
    /// That picture is listed above the head.
    pub hit_in_front: bool,
    /// The model is under the pointer.
    pub model_under_pointer: bool,
}

/// What a frame does to the reference board.
#[derive(Clone, Copy, Debug, PartialEq, Eq, Structural, Hash)]
pub enum ReferenceEffect {
    Nothing,
    /// Let go of the held grab.
    LetGo,
    /// Move the picture by the pointer's motion.
    DragBy(u64),
    /// Size the picture to the pointer.
    ResizeTo(u64),
    Remove(u64),
    ToggleLock(u64),
    /// Start holding the picture's corner.
    HoldCorner(u64),
    /// Start holding and select the picture.
    HoldAndSelect(u64),
}

/// The pointer the reference drag asks for.
#[derive(Clone, Copy, Debug, PartialEq, Eq, Structural, Hash)]
pub enum ReferenceCursor {
    Untouched,
    Grabbing,
    Resize,
    PointingHand,
}

/// A frame of the reference drag.
#[derive(Clone, Copy, Debug, PartialEq, Eq, Structural, Hash)]
pub struct ReferenceStep {
    /// The board took the pointer; nothing behind it sees it.
    pub claimed: bool,
    pub effect: ReferenceEffect,
    pub cursor: ReferenceCursor,
}

pub open spec fn step(claimed: bool, effect: ReferenceEffect, cursor: ReferenceCursor) -> ReferenceStep {
    ReferenceStep { claimed, effect, cursor }
}

/// The selected picture answers the pointer when it is visible and either
/// listed above the head or not covering the model.
pub open spec fn spec_selected_reachable(picture: SelectedPicture, model_under_pointer: bool) -> bool {
    picture.visible && (picture.in_front || !model_under_pointer)
}

pub open spec fn spec_fresh_grab(input: ReferenceInput) -> ReferenceStep {
    match input.hit {
        None => step(false, ReferenceEffect::Nothing, ReferenceCursor::Untouched),
        Some(hit) => if !input.pressed || (input.model_under_pointer && !input.hit_in_front) {
            step(false, ReferenceEffect::Nothing, ReferenceCursor::Untouched)
        } else {
            step(true, ReferenceEffect::HoldAndSelect(hit), ReferenceCursor::Grabbing)
        },
    }
}

/// The reference drag as a function of what it reads.
pub open spec fn spec_reference_step(input: ReferenceInput) -> ReferenceStep {
    if !input.board_active {
        step(false, ReferenceEffect::Nothing, ReferenceCursor::Untouched)
    } else if input.held is Some {
        if input.released || !input.primary_down {
            step(true, ReferenceEffect::LetGo, ReferenceCursor::Untouched)
        } else {
            match input.held->0 {
                Grabbed::Move(id) => step(
                    true,
                    if input.pointer_moved {
                        ReferenceEffect::DragBy(id)
                    } else {
                        ReferenceEffect::Nothing
                    },
                    ReferenceCursor::Grabbing,
                ),
                Grabbed::Resize(id) => step(
                    true,
                    if input.resize_measurable {
                        ReferenceEffect::ResizeTo(id)
                    } else {
                        ReferenceEffect::Nothing
                    },
                    ReferenceCursor::Resize,
                ),
            }
        }
    } else if !input.pointer_in_viewport {
        step(false, ReferenceEffect::Nothing, ReferenceCursor::Untouched)
    } else {
        match input.selected {
            Some(picture) => if spec_selected_reachable(picture, input.model_under_pointer) && (
            picture.on_close || picture.on_lock) {
                step(
                    true,
                    if !input.pressed {
                        ReferenceEffect::Nothing
                    } else if picture.on_close {
                        ReferenceEffect::Remove(picture.id)
                    } else {
                        ReferenceEffect::ToggleLock(picture.id)
                    },
                    ReferenceCursor::PointingHand,
                )
            } else if spec_selected_reachable(picture, input.model_under_pointer) && !picture.locked
                && picture.on_corner {
                step(
                    true,
                    if input.pressed {
                        ReferenceEffect::HoldCorner(picture.id)
                    } else {
                        ReferenceEffect::Nothing
                    },
                    ReferenceCursor::Resize,
                )
            } else {
                spec_fresh_grab(input)
            },
            None => spec_fresh_grab(input),
        }
    }
}

/// A frame of dragging the reference pictures around the viewport.
///
/// A held grab lasts while the button is down: a moved picture follows the
/// pointer and a held corner sizes it. Otherwise, on the selected picture,
/// its close and lock buttons answer a press and its corner starts a resize
/// unless it is locked; and a press on any picture grabs and selects it,
/// unless the model is under the pointer and the picture lies behind the
/// head. The board takes nothing while it is hidden, empty or framed away.
pub fn reference_drag_step(input: &ReferenceInput) -> (result: ReferenceStep)
    ensures
        result == spec_reference_step(*input),
{
    if !input.board_active {
        return ReferenceStep {
            claimed: false,
            effect: ReferenceEffect::Nothing,
            cursor: ReferenceCursor::Untouched,
        };
    }
    if let Some(grabbed) = input.held {
        if input.released || !input.primary_down {
            return ReferenceStep {
                claimed: true,
                effect: ReferenceEffect::LetGo,
                cursor: ReferenceCursor::Untouched,
            };
        }
        return match grabbed {
            Grabbed::Move(id) => ReferenceStep {
                claimed: true,
                effect: if input.pointer_moved {
                    ReferenceEffect::DragBy(id)
                } else {
                    ReferenceEffect::Nothing
                },
                cursor: ReferenceCursor::Grabbing,
            },
            Grabbed::Resize(id) => ReferenceStep {
                claimed: true,
                effect: if input.resize_measurable {
                    ReferenceEffect::ResizeTo(id)
                } else {
                    ReferenceEffect::Nothing
                },
                cursor: ReferenceCursor::Resize,
            },
        };
    }
    if !input.pointer_in_viewport {
        return ReferenceStep {
            claimed: false,
            effect: ReferenceEffect::Nothing,
            cursor: ReferenceCursor::Untouched,
        };
    }
    if let Some(picture) = input.selected {
        let reachable = picture.visible && (picture.in_front || !input.model_under_pointer);
        if reachable && (picture.on_close || picture.on_lock) {
            let effect = if !input.pressed {
                ReferenceEffect::Nothing
            } else if picture.on_close {
                ReferenceEffect::Remove(picture.id)
            } else {
                ReferenceEffect::ToggleLock(picture.id)
            };
            return ReferenceStep { claimed: true, effect, cursor: ReferenceCursor::PointingHand };
        }
        if reachable && !picture.locked && picture.on_corner {
            let effect = if input.pressed {
                ReferenceEffect::HoldCorner(picture.id)
            } else {
                ReferenceEffect::Nothing
            };
            return ReferenceStep { claimed: true, effect, cursor: ReferenceCursor::Resize };
        }
    }
    match input.hit {
        None => ReferenceStep {
            claimed: false,
            effect: ReferenceEffect::Nothing,
            cursor: ReferenceCursor::Untouched,
        },
        Some(hit) => {
            if !input.pressed || (input.model_under_pointer && !input.hit_in_front) {
                ReferenceStep {
                    claimed: false,
                    effect: ReferenceEffect::Nothing,
                    cursor: ReferenceCursor::Untouched,
                }
            } else {
                ReferenceStep {
                    claimed: true,
                    effect: ReferenceEffect::HoldAndSelect(hit),
                    cursor: ReferenceCursor::Grabbing,
                }
            }
        },
    }
}

/// A board that is hidden, empty or framed away never takes the pointer;
/// with nothing held and no press, only the selected picture's own buttons
/// and corner can; and over the model, a press grabs a picture listed above
/// the head but never one behind it.
pub proof fn lemma_the_board_takes_only_what_it_is_given(input: ReferenceInput)
    ensures
        !input.board_active ==> !spec_reference_step(input).claimed,
        input.board_active && input.held is None && !input.pressed && spec_reference_step(
            input,
        ).claimed ==> input.selected is Some && (input.selected->0.on_close
            || input.selected->0.on_lock || input.selected->0.on_corner),
        input.board_active && input.held is None && input.pointer_in_viewport && input.pressed
            && input.model_under_pointer && input.hit is Some && (input.selected is None
            || !spec_selected_reachable(input.selected->0, true)) ==> (spec_reference_step(
            input,
        ).claimed <==> input.hit_in_front),
{
}

/// The selected picture, as the list's controls read it.
#[derive(Clone, Copy, Debug, PartialEq, Eq, Structural, Hash)]
pub struct SelectedImage {
    pub id: u64,
    pub visible: bool,
    pub locked: bool,
}

/// The state of the buttons under the reference list.
#[derive(Clone, Copy, Debug, PartialEq, Eq, Structural, Hash)]
pub struct LayerControls {
    /// The raise and lower buttons work.
    pub reorder_enabled: bool,
    /// The eye, lock and remove buttons work.
    pub image_buttons_enabled: bool,
    pub eye_icon: Icon,
    pub eye_tooltip: TextKey,
    pub lock_tooltip: TextKey,
}

/// The buttons under the list: raising and lowering need a selected row,
/// the head's included; the eye, the lock and the bin need a selected
/// picture, and offer the opposite of its state.
pub fn reference_layer_controls(row_selected: bool, image: Option<SelectedImage>) -> (result: LayerControls)
    ensures
        result.reorder_enabled == row_selected,
        result.image_buttons_enabled == image is Some,
        ({
            let visible = image is Some && image->0.visible;
            let locked = image is Some && image->0.locked;
            &&& result.eye_icon == if visible {
                Icon::EyeOpen
            } else {
                Icon::EyeClosed
            }
            &&& result.eye_tooltip == if visible {
                TextKey::TooltipHide
            } else {
                TextKey::TooltipShow
            }
            &&& result.lock_tooltip == if locked {
                TextKey::ReferenceImageUnlock
            } else {
                TextKey::ReferenceImageLock
            }
        }),
{
    let (visible, locked) = match image {
        Some(picture) => (picture.visible, picture.locked),
        None => (false, false),
    };
    LayerControls {
        reorder_enabled: row_selected,
        image_buttons_enabled: image.is_some(),
        eye_icon: if visible {
            Icon::EyeOpen
        } else {
            Icon::EyeClosed
        },
        eye_tooltip: if visible {
            TextKey::TooltipHide
        } else {
            TextKey::TooltipShow
        },
        lock_tooltip: if locked {
            TextKey::ReferenceImageUnlock
        } else {
            TextKey::ReferenceImageLock
        },
    }
}

/// A request of the buttons under the list.
#[derive(Clone, Copy, Debug, PartialEq, Eq, Structural, Hash)]
pub enum LayerRequest {
    Reorder { row: ReferenceRow, toward_front: bool },
    ToggleVisible(u64),
    ToggleLocked(u64),
    Remove(u64),
}

/// The buttons that were clicked under the list.
#[derive(Clone, Copy, Debug, PartialEq, Eq, Structural, Hash)]
pub struct LayerClicks {
    pub raise: bool,
    pub lower: bool,
    pub eye: bool,
    pub lock: bool,
    pub remove: bool,
}

/// The request a frame's clicks make: of the buttons that can act, the last
/// one along the row wins, raise, lower, eye, lock, then the bin.
pub fn layer_request(selected_row: Option<ReferenceRow>, image: Option<u64>, clicks: LayerClicks) -> (result:
    Option<LayerRequest>)
    ensures
        result == (if clicks.remove && image is Some {
            Some(LayerRequest::Remove(image->0))
        } else if clicks.lock && image is Some {
            Some(LayerRequest::ToggleLocked(image->0))
        } else if clicks.eye && image is Some {
            Some(LayerRequest::ToggleVisible(image->0))
        } else if clicks.lower && selected_row is Some {
            Some(LayerRequest::Reorder { row: selected_row->0, toward_front: false })
        } else if clicks.raise && selected_row is Some {
            Some(LayerRequest::Reorder { row: selected_row->0, toward_front: true })
        } else {
            None
        }),
{
    let mut wanted: Option<LayerRequest> = None;
    if let Some(row) = selected_row {
        if clicks.raise {
            wanted = Some(LayerRequest::Reorder { row, toward_front: true });
        }
        if clicks.lower {
            wanted = Some(LayerRequest::Reorder { row, toward_front: false });
        }
    }
    if let Some(id) = image {
        if clicks.eye {
            wanted = Some(LayerRequest::ToggleVisible(id));
        }
        if clicks.lock {
            wanted = Some(LayerRequest::ToggleLocked(id));
        }
        if clicks.remove {
            wanted = Some(LayerRequest::Remove(id));
        }
    }
    wanted
}

/// Triangle `k` of a fan round a centre vertex `0` over rim vertices
/// `1..=rim`: each triangle joins the centre to two neighbouring rim vertices,
/// and the last closes the rim on its first vertex.
pub open spec fn spec_fan_triangle(rim: int, k: int) -> Triangle {
    (0, (k + 1) as u32, if k + 1 == rim {
        1
    } else {
        (k + 2) as u32
    })
}

/// The triangles of a picture's rounded outline, fanned out from its centre.
pub fn rounded_fan_triangles(rim: u32) -> (result: Vec<Triangle>)
    requires
        1 <= rim < u32::MAX,
    ensures
        result@.len() == rim,
        forall|k: int| 0 <= k < rim ==> #[trigger] result@[k] == spec_fan_triangle(rim as int, k),
{
    let mut out: Vec<Triangle> = Vec::new();
    let mut index: u32 = 1;
    while index < rim
        invariant
            1 <= index <= rim,
            rim < u32::MAX,
            out@.len() == index - 1,
            forall|k: int| 0 <= k < index - 1 ==> #[trigger] out@[k] == spec_fan_triangle(rim as int, k),
        decreases rim - index,
    {
        out.push((0, index, index + 1));
        index += 1;
    }
    out.push((0, rim, 1));
    out
}

/// Every fan triangle has the centre for a corner and two rim vertices for
/// the others, and no triangle reaches past the rim.
pub proof fn lemma_the_fan_stays_on_its_rim(rim: nat, k: int)
    requires
        1 <= rim < u32::MAX,
        0 <= k < rim,
    ensures
        spec_fan_triangle(rim as int, k).0 == 0,
        1 <= spec_fan_triangle(rim as int, k).1 <= rim,
        1 <= spec_fan_triangle(rim as int, k).2 <= rim,
{
}

} // verus!
