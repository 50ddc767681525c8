use vkit_viewport::keys::{Icon, TextKey};
use vkit_viewport::reference::{
    layer_request, listed_rows, reference_drag_step, reference_layer_controls,
    reference_list_rows_tall, rounded_fan_triangles, row_badges, Grabbed, LayerClicks, LayerRequest, ReferenceCursor,
    ReferenceEffect, ReferenceInput, ReferenceRow, SelectedImage, SelectedPicture,
};

#[test]
fn the_list_shows_the_front_picture_at_the_top() {
    let back = 1u64;
    let front = 2u64;
    let painted = vec![ReferenceRow::Image(back), ReferenceRow::Image(front)];
    let listed = listed_rows(&painted);
    assert_eq!(listed, vec![ReferenceRow::Image(front), ReferenceRow::Image(back)], "listed front to back");
    let with_head = vec![ReferenceRow::Image(back), ReferenceRow::Head, ReferenceRow::Image(front)];
    assert_eq!(listed_rows(&with_head)[1], ReferenceRow::Head);
    assert!(listed_rows(&Vec::new()).is_empty());
}

#[test]
fn the_list_is_one_to_six_rows_tall() {
    assert_eq!(reference_list_rows_tall(0), 1);
    assert_eq!(reference_list_rows_tall(4), 4);
    assert_eq!(reference_list_rows_tall(9), 6);
}

#[test]
fn a_row_wears_a_badge_for_each_state() {
    assert!(row_badges(true, false).is_empty());
    assert_eq!(row_badges(false, true), vec![Icon::EyeClosed, Icon::Lock]);
    assert_eq!(row_badges(true, true), vec![Icon::Lock]);
}

fn input() -> ReferenceInput {
    ReferenceInput {
        board_active: true,
        held: None,
        released: false,
        primary_down: false,
        pointer_moved: false,
        resize_measurable: true,
        pointer_in_viewport: true,
        pressed: false,
        selected: None,
        hit: Some(7),
        hit_in_front: false,
        model_under_pointer: false,
    }
}

#[test]
fn hovering_a_reference_does_not_take_the_pointer() {
    let step = reference_drag_step(&input());
    assert!(!step.claimed, "no press, no claim");
    assert_eq!(step.effect, ReferenceEffect::Nothing);
}

#[test]
fn an_empty_board_never_takes_the_pointer_or_paints() {
    let step = reference_drag_step(&ReferenceInput { board_active: false, pressed: true, ..input() });
    assert!(!step.claimed);
}

#[test]
fn a_picture_listed_above_the_head_takes_the_pointer_from_the_model() {
    let behind = reference_drag_step(&ReferenceInput { pressed: true, model_under_pointer: true, ..input() });
    assert!(!behind.claimed, "a backdrop gives way: the model is the thing being worked on");
    let over = reference_drag_step(&ReferenceInput {
        pressed: true,
        model_under_pointer: true,
        hit_in_front: true,
        ..input()
    });
    assert!(over.claimed, "an overlay is what the pointer lands on");
    assert_eq!(over.effect, ReferenceEffect::HoldAndSelect(7));
    assert_eq!(over.cursor, ReferenceCursor::Grabbing);
}

#[test]
fn a_held_picture_follows_until_the_button_lifts() {
    let moving = reference_drag_step(&ReferenceInput {
        held: Some(Grabbed::Move(3)),
        primary_down: true,
        pointer_moved: true,
        ..input()
    });
    assert_eq!(moving.effect, ReferenceEffect::DragBy(3));
    let resizing = reference_drag_step(&ReferenceInput {
        held: Some(Grabbed::Resize(3)),
        primary_down: true,
        ..input()
    });
    assert_eq!(resizing.effect, ReferenceEffect::ResizeTo(3));
    assert_eq!(resizing.cursor, ReferenceCursor::Resize);
    let lifted = reference_drag_step(&ReferenceInput { held: Some(Grabbed::Move(3)), released: true, ..input() });
    assert!(lifted.claimed);
    assert_eq!(lifted.effect, ReferenceEffect::LetGo);
}

fn selected(on_close: bool, on_lock: bool, on_corner: bool, locked: bool) -> SelectedPicture {
    SelectedPicture { id: 4, visible: true, in_front: false, locked, on_close, on_lock, on_corner }
}

#[test]
fn the_selected_pictures_buttons_answer_a_press() {
    let close = reference_drag_step(&ReferenceInput {
        pressed: true,
        selected: Some(selected(true, false, false, false)),
        ..input()
    });
    assert_eq!(close.effect, ReferenceEffect::Remove(4));
    let lock = reference_drag_step(&ReferenceInput {
        pressed: true,
        selected: Some(selected(false, true, false, false)),
        ..input()
    });
    assert_eq!(lock.effect, ReferenceEffect::ToggleLock(4));
    let hover = reference_drag_step(&ReferenceInput { selected: Some(selected(true, false, false, false)), ..input() });
    assert!(hover.claimed);
    assert_eq!(hover.cursor, ReferenceCursor::PointingHand);
    let corner = reference_drag_step(&ReferenceInput {
        pressed: true,
        selected: Some(selected(false, false, true, false)),
        ..input()
    });
    assert_eq!(corner.effect, ReferenceEffect::HoldCorner(4));
    let locked = reference_drag_step(&ReferenceInput {
        pressed: true,
        selected: Some(selected(false, false, true, true)),
        ..input()
    });
    assert_eq!(locked.effect, ReferenceEffect::HoldAndSelect(7), "a locked picture has no corner");
}

#[test]
fn the_list_buttons_follow_the_selection() {
    let none = reference_layer_controls(false, None);
    assert!(!none.reorder_enabled && !none.image_buttons_enabled);
    let picture = SelectedImage { id: 9, visible: false, locked: true };
    let some = reference_layer_controls(true, Some(picture));
    assert!(some.reorder_enabled && some.image_buttons_enabled);
    assert_eq!(some.eye_icon, Icon::EyeClosed);
    assert_eq!(some.eye_tooltip, TextKey::TooltipShow);
    assert_eq!(some.lock_tooltip, TextKey::ReferenceImageUnlock);

    let clicks = LayerClicks { raise: true, lower: false, eye: false, lock: false, remove: false };
    assert_eq!(
        layer_request(Some(ReferenceRow::Head), None, clicks),
        Some(LayerRequest::Reorder { row: ReferenceRow::Head, toward_front: true })
    );
    assert_eq!(layer_request(None, None, clicks), None);
    let remove = LayerClicks { remove: true, eye: true, ..clicks };
    assert_eq!(layer_request(Some(ReferenceRow::Image(9)), Some(9), remove), Some(LayerRequest::Remove(9)));
}

#[test]
fn a_rounded_picture_is_a_fan_that_closes_on_its_first_rim_vertex() {
    assert_eq!(rounded_fan_triangles(4), vec![(0, 1, 2), (0, 2, 3), (0, 3, 4), (0, 4, 1)]);
    let corners = rounded_fan_triangles(28);
    assert_eq!(corners.len(), 28);
    assert!(corners.iter().all(|&(centre, a, b)| centre == 0 && (1..=28).contains(&a) && (1..=28).contains(&b)));
}
