use vkit_viewport::help::{
    align_help_rows, detail_help_rows, hair_help_rows, help_dismissed_by_click, help_scope,
    pin_help_rows, projection_help_rows, save_help_rows, viewport_help_contains,
    viewport_help_rows, HelpScope,
};
use vkit_viewport::keys::TextKey;
use vkit_viewport::panels::help_card_spends_pointer;
use vkit_viewport::scene::Tab;

#[test]
fn help_tables_are_tab_specific_and_keep_documented_pin_inputs() {
    let pin = pin_help_rows();
    let align = align_help_rows();
    let detail = detail_help_rows();
    let save = save_help_rows();
    assert_eq!(pin.len(), 17);
    assert!(pin.contains(&(TextKey::HelpLevelRoll, TextKey::ShortcutLevelRoll)));

    for rows in [align.as_slice(), pin.as_slice(), detail.as_slice(), save.as_slice()] {
        assert!(rows.contains(&(TextKey::HelpSnapView, TextKey::ShortcutSnapView)));
        assert!(rows.contains(&(TextKey::HelpStandardViews, TextKey::ShortcutStandardViews)));
        assert!(rows.contains(&(TextKey::HelpCameraProjection, TextKey::ShortcutCameraProjection)));
    }
    assert!(pin.contains(&(TextKey::HelpFrameView, TextKey::ShortcutFrameView)));
    assert!(align.contains(&(TextKey::HelpFrameView, TextKey::ShortcutFrameView)));
    assert!(save.contains(&(TextKey::HelpFrameView, TextKey::ShortcutFrameView)));

    assert!(!detail.contains(&(TextKey::HelpFrameView, TextKey::ShortcutFrameView)));
    assert_eq!(pin[0], (TextKey::HelpPlace, TextKey::ShortcutPlace));
    assert!(pin.contains(&(TextKey::HelpXSymmetry, TextKey::ShortcutXSymmetry)));
    assert!(align.contains(&(TextKey::HelpSnapRotation, TextKey::ShortcutSnapRotation)));
    for rows in [align.as_slice(), pin.as_slice(), detail.as_slice(), save.as_slice()] {
        assert!(rows.contains(&(TextKey::HelpDragZoom, TextKey::ShortcutDragZoom)));
    }
    assert_eq!(viewport_help_rows(HelpScope::Tab(Tab::Alignment)), align);
    assert_eq!(viewport_help_rows(HelpScope::Tab(Tab::Edit)), pin);
    assert_eq!(viewport_help_rows(HelpScope::Tab(Tab::Morph)), detail);
    assert_eq!(viewport_help_rows(HelpScope::Tab(Tab::Result)), save);
}

#[test]
fn the_help_card_names_the_brush_gestures_nobody_finds_alone() {
    for (rows, second_sweep) in [
        (detail_help_rows(), TextKey::HelpBrushStrength),
        (hair_help_rows(), TextKey::HairSegmentsShort),
    ] {
        for wanted in [
            TextKey::HelpBrushSize,
            second_sweep,
            TextKey::ShortcutBrushSize,
            TextKey::ShortcutBrushStrength,
        ] {
            assert!(
                rows.iter().any(|(function, shortcut)| *function == wanted || *shortcut == wanted),
                "the card does not mention {wanted:?}"
            );
        }
    }
}

#[test]
fn the_projection_tool_has_a_card_of_its_own() {
    assert_eq!(help_scope(true, true, Tab::Texture), HelpScope::Projection);
    assert_eq!(help_scope(true, false, Tab::Texture), HelpScope::Tab(Tab::Texture));
    assert_eq!(help_scope(false, true, Tab::Hair), HelpScope::Tab(Tab::Hair));
    assert_eq!(viewport_help_rows(HelpScope::Projection), projection_help_rows());
    assert_eq!(viewport_help_rows(HelpScope::Tab(Tab::Texture)), detail_help_rows());
    assert_eq!(viewport_help_rows(HelpScope::Tab(Tab::Hair)), hair_help_rows());
}

#[test]
fn the_click_that_dismisses_the_help_card_reaches_no_scene_handler() {
    assert!(help_dismissed_by_click(true, true, false));
    assert!(!help_dismissed_by_click(true, true, true), "a click on the card keeps it");
    assert!(!help_dismissed_by_click(false, true, false));
    assert!(help_card_spends_pointer(true, true, false), "the dismissing click is spent");
    assert!(help_card_spends_pointer(true, false, true));
    assert!(!help_card_spends_pointer(false, true, true));
    assert!(viewport_help_contains(true, false, false));
    assert!(viewport_help_contains(false, true, true));
    assert!(!viewport_help_contains(false, false, true), "a closed card covers nothing");
}
