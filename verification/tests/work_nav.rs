use vkit_viewport::keys::{Icon, TextKey};
use vkit_viewport::scene::Tab;
use vkit_viewport::work_nav::{
    editable_parts_have_strands, nav_button_paint, nav_buttons, nav_click, NavAction,
    NavHoverFill, NavInk, NavState,
};

fn fresh() -> NavState {
    NavState {
        busy: false,
        back: 0,
        forward: 0,
        sculpting: false,
        hair_editing: false,
        hair_has_strands: false,
        tab: Tab::Alignment,
        scan_loaded: false,
        selected_texture_layer: None,
    }
}

fn sculpting() -> NavState {
    NavState { tab: Tab::Morph, sculpting: true, ..fresh() }
}

#[test]
fn back_is_always_first_and_forward_always_last() {
    let hair = NavState { tab: Tab::Hair, hair_editing: true, ..fresh() };
    let texture = NavState { tab: Tab::Texture, ..fresh() };
    for state in [sculpting(), hair, texture, fresh()] {
        let buttons = nav_buttons(&state);
        assert!(buttons.len() >= 2);
        assert_eq!(buttons.first().map(|button| button.icon), Some(Icon::Undo));
        assert_eq!(buttons.last().map(|button| button.icon), Some(Icon::Redo));
    }
}

#[test]
fn the_sculpt_tab_offers_both_resets_between_the_arrows() {
    let buttons = nav_buttons(&sculpting());
    let icons: Vec<Icon> = buttons.iter().map(|button| button.icon).collect();
    assert_eq!(icons, vec![Icon::Undo, Icon::Hammer, Icon::Broom, Icon::Redo]);
    assert!(
        buttons[1].destructive && buttons[2].destructive,
        "both resets throw work away and have to look like it"
    );
    assert!(!buttons[0].destructive && !buttons[3].destructive);
}

#[test]
fn the_pin_tab_resets_its_pins_from_the_same_bar() {
    let mut state = NavState { tab: Tab::Edit, ..fresh() };
    assert_eq!(nav_buttons(&state).len(), 2, "no scan, nothing to reset");

    state.scan_loaded = true;
    let buttons = nav_buttons(&state);
    assert_eq!(buttons.len(), 3);
    assert_eq!(buttons[1].icon, Icon::Broom);
    assert!(buttons[1].destructive);
}

#[test]
fn a_tab_with_no_reset_still_has_somewhere_to_step_back_to() {
    let buttons = nav_buttons(&fresh());
    assert_eq!(buttons.len(), 2);
}

#[test]
fn an_unavailable_step_is_greyed_rather_than_removed() {
    let state = fresh();
    assert_eq!(state.back, 0, "a fresh session has nothing to undo");
    let buttons = nav_buttons(&state);
    assert!(!buttons[0].enabled);
    assert_eq!(buttons.len(), 2, "still drawn");
}

#[test]
fn a_busy_application_greys_every_step() {
    let state = NavState { busy: true, back: 3, forward: 2, ..sculpting() };
    assert!(nav_buttons(&state).iter().all(|button| !button.enabled));
    let idle = NavState { busy: false, ..state };
    assert!(nav_buttons(&idle).iter().all(|button| button.enabled));
}

#[test]
fn the_texture_tab_resets_the_selected_layer() {
    let state = NavState { tab: Tab::Texture, selected_texture_layer: Some(42), ..fresh() };
    let buttons = nav_buttons(&state);
    assert_eq!(buttons.len(), 3);
    assert_eq!(buttons[1].action, NavAction::ResetTextureLayer(42));
    assert_eq!(buttons[1].tooltip, TextKey::ResetSourceRetouch);
}

#[test]
fn the_hair_reset_waits_for_strands() {
    let bare = NavState { tab: Tab::Hair, hair_editing: true, ..fresh() };
    let buttons = nav_buttons(&bare);
    assert_eq!(buttons[1].action, NavAction::ResetHairShapes);
    assert!(!buttons[1].enabled);
    let grown = NavState { hair_has_strands: true, ..bare };
    assert!(nav_buttons(&grown)[1].enabled);
    assert!(!editable_parts_have_strands(&vec![0, 0]));
    assert!(editable_parts_have_strands(&vec![0, 7]));
}

#[test]
fn a_greyed_button_never_acts_and_never_lights() {
    let buttons = nav_buttons(&fresh());
    assert_eq!(nav_click(&buttons[0], true), None);
    let state = NavState { back: 1, ..fresh() };
    assert_eq!(nav_click(&nav_buttons(&state)[0], true), Some(NavAction::Undo));
    assert_eq!(nav_click(&nav_buttons(&state)[0], false), None);
    assert_eq!(nav_button_paint(false, true, true), (None, NavInk::Disabled));
    assert_eq!(
        nav_button_paint(true, true, true),
        (Some(NavHoverFill::Destructive), NavInk::OnDestructive)
    );
    assert_eq!(nav_button_paint(true, false, true), (Some(NavHoverFill::Hover), NavInk::Text));
    assert_eq!(nav_button_paint(true, true, false), (None, NavInk::Text));
}
