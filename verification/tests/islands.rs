use vkit_viewport::chrome::ChromeAnchor;
use vkit_viewport::islands::{
    pin_island_shown, reset_island_fill, result_island_rows, ResetFill, ResultIslandRow,
};

#[test]
fn the_result_island_lists_its_sliders_in_order() {
    assert_eq!(
        result_island_rows(false, true, true),
        vec![ResultIslandRow::ScanOverlay, ResultIslandRow::MorphCompare]
    );
    assert_eq!(result_island_rows(false, false, true), vec![ResultIslandRow::MorphCompare]);
    assert!(result_island_rows(false, false, false).is_empty());
    assert!(result_island_rows(true, true, true).is_empty(), "framing clears the stage");
}

#[test]
fn a_reset_button_turns_red_only_when_it_can_act() {
    assert_eq!(reset_island_fill(false, true), ResetFill::Surface);
    assert_eq!(reset_island_fill(true, true), ResetFill::Destructive);
    assert_eq!(reset_island_fill(true, false), ResetFill::Raised);
    assert!(pin_island_shown(true, false));
    assert!(!pin_island_shown(true, true));
    assert!(!pin_island_shown(false, false));
}

#[test]
fn only_the_top_anchors_grow_down_and_only_the_middles_are_sides() {
    for anchor in [ChromeAnchor::TopLeft, ChromeAnchor::TopCentre, ChromeAnchor::TopRight] {
        assert!(anchor.grows_down());
        assert!(!anchor.is_side());
    }
    for anchor in [ChromeAnchor::BottomLeft, ChromeAnchor::BottomCentre, ChromeAnchor::BottomRight] {
        assert!(!anchor.grows_down());
    }
    assert!(ChromeAnchor::LeftCentre.is_side() && ChromeAnchor::RightCentre.is_side());
    assert!(!ChromeAnchor::LeftCentre.grows_down());
}
