use vstd::prelude::*;

use crate::scene::MeshSide;

verus! {

/// The positions to delete, in order, when the pin at `index` is deleted
/// along with its mirrored partner `mirror`: the later position first, so
/// that deleting it leaves the earlier one where it was.
pub open spec fn spec_pin_delete_order(index: usize, mirror: Option<usize>) -> Seq<usize> {
    match mirror {
        Some(partner) => if partner > index {
            seq![partner, index]
        } else {
            seq![index, partner]
        },
        None => seq![index],
    }
}

/// The positions to delete when a pin is deleted, with its partner when
/// mirroring found one.
pub fn pin_delete_order(index: usize, mirror: Option<usize>) -> (result: Vec<usize>)
    ensures
        result@ == spec_pin_delete_order(index, mirror),
{
    match mirror {
        Some(partner) => {
            if partner > index {
                let result = vec![partner, index];
                assert(result@ =~= spec_pin_delete_order(index, mirror));
                result
            } else {
                let result = vec![index, partner];
                assert(result@ =~= spec_pin_delete_order(index, mirror));
                result
            }
        },
        None => {
            let result = vec![index];
            assert(result@ =~= spec_pin_delete_order(index, mirror));
            result
        },
    }
}

/// The pins left after deleting, one after another, the positions `order`.
pub open spec fn spec_after_deletions<T>(pins: Seq<T>, order: Seq<usize>) -> Seq<T>
    decreases order.len(),
{
    if order.len() == 0 {
        pins
    } else {
        spec_after_deletions(pins.remove(order[0] as int), order.drop_first())
    }
}

/// The pin that ends up at position `k` once the positions `low < high` are
/// gone: everything before `low` stays, everything between moves up one,
/// and everything after `high` moves up two.
pub open spec fn spec_kept_position(k: int, low: int, high: int) -> int {
    if k < low {
        k
    } else if k < high - 1 {
        k + 1
    } else {
        k + 2
    }
}

/// Deleting a pin and its mirrored partner in the order given removes exactly
/// those two pins and keeps every other in its order: the first deletion
/// never shifts the position of the second.
pub proof fn lemma_deleting_a_mirrored_pair_removes_exactly_the_pair<T>(
    pins: Seq<T>,
    index: usize,
    partner: usize,
)
    requires
        index < pins.len(),
        partner < pins.len(),
        index != partner,
    ensures
        ({
            let left = spec_after_deletions(pins, spec_pin_delete_order(index, Some(partner)));
            let low: int = if index < partner {
                index as int
            } else {
                partner as int
            };
            let high: int = if index < partner {
                partner as int
            } else {
                index as int
            };
            &&& left.len() == pins.len() - 2
            &&& forall|k: int|
                0 <= k < left.len() ==> #[trigger] left[k] == pins[spec_kept_position(k, low, high)]
        }),
{
    let order = spec_pin_delete_order(index, Some(partner));
    let low: int = if index < partner {
        index as int
    } else {
        partner as int
    };
    let high: int = if index < partner {
        partner as int
    } else {
        index as int
    };
    let first = pins.remove(high);
    let second = first.remove(low);
    assert(order[0] as int == high);
    assert(order.drop_first() =~= seq![low as usize]);
    assert(order.drop_first().drop_first() =~= Seq::<usize>::empty());
    assert(spec_after_deletions(first, seq![low as usize]) == spec_after_deletions(
        second,
        Seq::<usize>::empty(),
    ));
    pins.remove_ensures(high);
    first.remove_ensures(low);
    let left = spec_after_deletions(pins, order);
    assert(left == second);
    assert forall|k: int| 0 <= k < left.len() implies #[trigger] left[k] == pins[spec_kept_position(
        k,
        low,
        high,
    )] by {
        if k < low {
            assert(second[k] == first[k]);
        } else {
            assert(second[k] == first[k + 1]);
        }
    }
}

/// Whether a pin's marker is painted as a mismatch: from the first pair that
/// no longer matches onward, and any pair marked as doubtful.
pub fn pin_marker_mismatch(pair_index: usize, mismatch_start: Option<usize>, doubtful: bool) -> (result:
    bool)
    ensures
        result == (match mismatch_start {
            Some(start) => pair_index >= start,
            None => false,
        } || doubtful),
{
    let from_mismatch = match mismatch_start {
        Some(start) => pair_index >= start,
        None => false,
    };
    from_mismatch || doubtful
}

/// What adding a mirrored pin learned about the picked point and its mirror.
#[derive(Clone, Copy, Debug, PartialEq, Eq, Structural, Hash)]
pub struct MirrorAddFacts {
    /// Mirroring is switched on.
    pub x_mirror: bool,
    /// The picked point resolves to a point on the mesh.
    pub picked_resolves: bool,
    /// The picked point sits on the centreline and has no partner.
    pub centreline_single: bool,
    /// The projection accepted a partner on the surface.
    pub partner_found: bool,
    /// The partner lies on the editable surface.
    pub partner_editable: bool,
    /// The picked point lies on the low side of the centreline.
    pub picked_on_low_side: bool,
}

/// The pins a click adds.
#[derive(Clone, Copy, Debug, PartialEq, Eq, Structural, Hash)]
pub enum PinAddition {
    /// The picked pin alone.
    Picked,
    /// The picked pin, then its partner.
    PickedThenPartner,
    /// The partner, then the picked pin.
    PartnerThenPicked,
}

/// Why mirroring was refused and switched off.
#[derive(Clone, Copy, Debug, PartialEq, Eq, Structural, Hash)]
pub enum MirrorRejection {
    /// The picked point does not resolve on the mesh.
    InvalidAttachment,
    /// The partner lies off the editable surface.
    OutsideEditable,
    /// The projection found no partner.
    NoPartner,
}

/// What a click with mirroring adds, and whether mirroring was refused.
#[derive(Clone, Copy, Debug, PartialEq, Eq, Structural, Hash)]
pub struct MirrorAddOutcome {
    pub added: PinAddition,
    /// `Some` when mirroring is switched off with a warning.
    pub rejection: Option<MirrorRejection>,
}

pub open spec fn spec_mirror_add(facts: MirrorAddFacts) -> MirrorAddOutcome {
    if !facts.x_mirror {
        MirrorAddOutcome { added: PinAddition::Picked, rejection: None }
    } else if !facts.picked_resolves {
        MirrorAddOutcome {
            added: PinAddition::Picked,
            rejection: Some(MirrorRejection::InvalidAttachment),
        }
    } else if facts.centreline_single {
        MirrorAddOutcome { added: PinAddition::Picked, rejection: None }
    } else if facts.partner_found {
        if !facts.partner_editable {
            MirrorAddOutcome {
                added: PinAddition::Picked,
                rejection: Some(MirrorRejection::OutsideEditable),
            }
        } else if facts.picked_on_low_side {
            MirrorAddOutcome { added: PinAddition::PickedThenPartner, rejection: None }
        } else {
            MirrorAddOutcome { added: PinAddition::PartnerThenPicked, rejection: None }
        }
    } else {
        MirrorAddOutcome { added: PinAddition::Picked, rejection: Some(MirrorRejection::NoPartner) }
    }
}

/// Adds a pin, with its mirrored partner when mirroring is on.
///
/// A pin on the centreline stays single. A pair is stored low side first,
/// whichever side was clicked. When the picked point does not resolve, the
/// partner falls off the editable surface or no partner is found, the picked
/// pin is still added and mirroring is switched off with a warning.
pub fn add_pin_with_optional_mirror(facts: &MirrorAddFacts) -> (result: MirrorAddOutcome)
    ensures
        result == spec_mirror_add(*facts),
{
    if !facts.x_mirror {
        return MirrorAddOutcome { added: PinAddition::Picked, rejection: None };
    }
    if !facts.picked_resolves {
        return MirrorAddOutcome {
            added: PinAddition::Picked,
            rejection: Some(MirrorRejection::InvalidAttachment),
        };
    }
    if facts.centreline_single {
        return MirrorAddOutcome { added: PinAddition::Picked, rejection: None };
    }
    if facts.partner_found {
        if !facts.partner_editable {
            return MirrorAddOutcome {
                added: PinAddition::Picked,
                rejection: Some(MirrorRejection::OutsideEditable),
            };
        }
        if facts.picked_on_low_side {
            return MirrorAddOutcome { added: PinAddition::PickedThenPartner, rejection: None };
        }
        return MirrorAddOutcome { added: PinAddition::PartnerThenPicked, rejection: None };
    }
    MirrorAddOutcome { added: PinAddition::Picked, rejection: Some(MirrorRejection::NoPartner) }
}

/// A click always adds the picked pin; a pair is stored low side first; and
/// mirroring is switched off exactly when it was on and no pair or
/// centreline pin came of it.
pub proof fn lemma_a_mirrored_pair_is_stored_low_side_first(facts: MirrorAddFacts)
    ensures
        spec_mirror_add(facts).added == PinAddition::PickedThenPartner ==> facts.picked_on_low_side,
        spec_mirror_add(facts).added == PinAddition::PartnerThenPicked ==> !facts.picked_on_low_side,
        spec_mirror_add(facts).rejection is Some <==> (facts.x_mirror && spec_mirror_add(facts).added
            == PinAddition::Picked && !(facts.picked_resolves && facts.centreline_single)),
        spec_mirror_add(facts).rejection is Some ==> facts.x_mirror,
{
}

/// What a pane's pin handling reads of a frame.
#[derive(Clone, Copy, Debug, PartialEq, Eq, Structural, Hash)]
pub struct PinInput {
    /// The side the pane shows.
    pub side: MeshSide,
    /// The side of the pin drag in progress, if any.
    pub active_drag_side: Option<MeshSide>,
    pub alt_held: bool,
    pub shift_held: bool,
    pub primary_pressed: bool,
    pub primary_down: bool,
    pub primary_released: bool,
    pub primary_clicked: bool,
    pub secondary_clicked: bool,
    pub hovered: bool,
    pub pointer_present: bool,
    /// A pin marker lies within reach of the pointer.
    pub pin_near: bool,
    /// The application lets that pin be dragged.
    pub drag_allowed: bool,
    /// The pointer meets the surface.
    pub surface_hit: bool,
}

/// The pin gestures a frame performs in a pane.
#[derive(Clone, Copy, Debug, PartialEq, Eq, Structural, Hash)]
pub struct PinGestures {
    /// Take hold of the nearest pin.
    pub begin_drag: bool,
    /// Move the held pin to the surface under the pointer.
    pub move_drag: bool,
    /// Let go of the held pin.
    pub end_drag: bool,
    /// Add a pin where the pointer meets the surface.
    pub add_pin: bool,
    /// Delete the nearest pin.
    pub delete_pin: bool,
}

/// A pane's pin gestures: `Alt` and a press take hold of the nearest pin, a
/// held pin of this pane follows the surface while the button is down and is
/// let go on release; a plain click adds a pin and a right click without
/// `Shift` deletes the nearest one.
pub fn pin_gestures(input: &PinInput) -> (result: PinGestures)
    ensures
        result.begin_drag == (input.primary_pressed && input.alt_held && input.hovered
            && input.pointer_present && input.pin_near && input.drag_allowed),
        result.move_drag == (input.primary_down && (result.begin_drag || input.active_drag_side
            == Some(input.side)) && input.pointer_present && input.surface_hit),
        result.end_drag == (input.primary_released && (result.begin_drag || input.active_drag_side
            == Some(input.side))),
        result.add_pin == (input.primary_clicked && !input.alt_held && input.pointer_present
            && input.surface_hit),
        result.delete_pin == (input.secondary_clicked && !input.shift_held && input.pointer_present
            && input.pin_near),
{
    let begin_drag = input.primary_pressed && input.alt_held && input.hovered
        && input.pointer_present && input.pin_near && input.drag_allowed;
    let held_here = begin_drag || match input.active_drag_side {
        Some(held) => held == input.side,
        None => false,
    };
    PinGestures {
        begin_drag,
        move_drag: input.primary_down && held_here && input.pointer_present && input.surface_hit,
        end_drag: input.primary_released && held_here,
        add_pin: input.primary_clicked && !input.alt_held && input.pointer_present
            && input.surface_hit,
        delete_pin: input.secondary_clicked && !input.shift_held && input.pointer_present
            && input.pin_near,
    }
}

} // verus!
