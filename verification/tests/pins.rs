use vkit_viewport::pins::{
    add_pin_with_optional_mirror, pin_delete_order, pin_gestures, pin_marker_mismatch,
    MirrorAddFacts, MirrorRejection, PinAddition, PinInput,
};
use vkit_viewport::scene::MeshSide;

fn facts() -> MirrorAddFacts {
    MirrorAddFacts {
        x_mirror: true,
        picked_resolves: true,
        centreline_single: false,
        partner_found: true,
        partner_editable: true,
        picked_on_low_side: true,
    }
}

#[test]
fn x_mirror_adds_stable_negative_then_positive_slots() {
    let low = add_pin_with_optional_mirror(&facts());
    assert_eq!(low.added, PinAddition::PickedThenPartner);
    assert_eq!(low.rejection, None);
    let high = add_pin_with_optional_mirror(&MirrorAddFacts { picked_on_low_side: false, ..facts() });
    assert_eq!(high.added, PinAddition::PartnerThenPicked);
}

#[test]
fn a_refused_mirror_still_adds_the_picked_pin_and_switches_off() {
    let outside = add_pin_with_optional_mirror(&MirrorAddFacts { partner_editable: false, ..facts() });
    assert_eq!(outside.added, PinAddition::Picked);
    assert_eq!(outside.rejection, Some(MirrorRejection::OutsideEditable));
    let invalid = add_pin_with_optional_mirror(&MirrorAddFacts { picked_resolves: false, ..facts() });
    assert_eq!(invalid.rejection, Some(MirrorRejection::InvalidAttachment));
    let none = add_pin_with_optional_mirror(&MirrorAddFacts { partner_found: false, ..facts() });
    assert_eq!(none.rejection, Some(MirrorRejection::NoPartner));
    let centre = add_pin_with_optional_mirror(&MirrorAddFacts { centreline_single: true, ..facts() });
    assert_eq!(centre.added, PinAddition::Picked);
    assert_eq!(centre.rejection, None, "a centreline pin is single by design");
    let off = add_pin_with_optional_mirror(&MirrorAddFacts { x_mirror: false, partner_found: false, ..facts() });
    assert_eq!(off.rejection, None);
}

#[test]
fn a_mirrored_pair_is_deleted_later_position_first() {
    assert_eq!(pin_delete_order(2, Some(5)), vec![5, 2]);
    assert_eq!(pin_delete_order(5, Some(2)), vec![5, 2]);
    assert_eq!(pin_delete_order(4, None), vec![4]);

    let mut pins: Vec<char> = "abcdefg".chars().collect();
    for index in pin_delete_order(1, Some(4)) {
        pins.remove(index);
    }
    assert_eq!(pins, vec!['a', 'c', 'd', 'f', 'g'], "exactly the pair is gone");
}

#[test]
fn markers_from_the_first_mismatch_on_are_flagged() {
    assert!(pin_marker_mismatch(5, Some(3), false));
    assert!(!pin_marker_mismatch(2, Some(3), false));
    assert!(pin_marker_mismatch(2, Some(3), true));
    assert!(!pin_marker_mismatch(2, None, false));
}

fn input() -> PinInput {
    PinInput {
        side: MeshSide::Scan,
        active_drag_side: None,
        alt_held: false,
        shift_held: false,
        primary_pressed: false,
        primary_down: false,
        primary_released: false,
        primary_clicked: false,
        secondary_clicked: false,
        hovered: true,
        pointer_present: true,
        pin_near: true,
        drag_allowed: true,
        surface_hit: true,
    }
}

#[test]
fn alt_drags_a_pin_and_a_plain_click_adds_one() {
    let grab = pin_gestures(&PinInput { alt_held: true, primary_pressed: true, primary_down: true, ..input() });
    assert!(grab.begin_drag && grab.move_drag && !grab.add_pin);
    let other_pane = pin_gestures(&PinInput {
        active_drag_side: Some(MeshSide::Template),
        primary_down: true,
        ..input()
    });
    assert!(!other_pane.move_drag, "a drag belongs to the pane it started in");
    let release = pin_gestures(&PinInput { active_drag_side: Some(MeshSide::Scan), primary_released: true, ..input() });
    assert!(release.end_drag);
    let click = pin_gestures(&PinInput { primary_clicked: true, ..input() });
    assert!(click.add_pin);
    let alt_click = pin_gestures(&PinInput { primary_clicked: true, alt_held: true, ..input() });
    assert!(!alt_click.add_pin);
    let delete = pin_gestures(&PinInput { secondary_clicked: true, ..input() });
    assert!(delete.delete_pin);
    let shifted = pin_gestures(&PinInput { secondary_clicked: true, shift_held: true, ..input() });
    assert!(!shifted.delete_pin);
}
