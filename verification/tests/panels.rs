use vkit_viewport::keys::{Icon, TextKey};
use vkit_viewport::panels::{
    background_mode_key, background_modes, eye_gaze_popup_should_block_pointer, panel_icon,
    panel_title, preset_row_ink, refresh_catalog_on_click, selected_background_segment,
    selected_preset_row, tool_button,
    viewport_tool_panel_contains, viewport_tool_panel_should_dismiss, viewport_tool_panels,
    viewport_tools_should_block_pointer, PointerCover, PresetInk, ViewportBackgroundMode,
    ViewportToolPanel,
};

#[test]
fn viewport_popover_click_away_and_detail_overlays_block_input() {
    let in_panel = viewport_tool_panel_contains(false, false, true);
    assert!(!viewport_tool_panel_should_dismiss(true, in_panel));
    let outside = viewport_tool_panel_contains(false, false, false);
    assert!(!viewport_tool_panel_should_dismiss(false, outside));
    assert!(viewport_tool_panel_should_dismiss(true, outside));
    let on_help = viewport_tool_panel_contains(true, true, false);
    assert!(viewport_tool_panel_should_dismiss(true, on_help), "the help button is not the rail");
    let on_rail = viewport_tool_panel_contains(true, false, false);
    assert!(!viewport_tool_panel_should_dismiss(true, on_rail));
}

#[test]
fn the_rail_lists_its_panels_top_to_bottom() {
    assert_eq!(
        viewport_tool_panels(),
        vec![
            ViewportToolPanel::Lighting,
            ViewportToolPanel::BaseView,
            ViewportToolPanel::Wireframe,
            ViewportToolPanel::Xray,
            ViewportToolPanel::Skin,
            ViewportToolPanel::Camera,
        ]
    );
    assert_eq!(panel_icon(ViewportToolPanel::Skin), Icon::HeadTexture);
    assert_eq!(panel_title(ViewportToolPanel::BaseView), TextKey::Background);
    assert_eq!(panel_title(ViewportToolPanel::Camera), TextKey::CameraSettings);
}

#[test]
fn a_button_lights_for_its_open_panel_or_its_overlay() {
    let wire = tool_button(ViewportToolPanel::Wireframe, None, true, false);
    assert!(wire.active);
    assert_eq!(wire.tooltip, TextKey::ViewportWireframeTooltip);
    assert!(!tool_button(ViewportToolPanel::Xray, None, true, false).active);
    assert!(tool_button(ViewportToolPanel::Lighting, Some(ViewportToolPanel::Lighting), false, false).active);
    assert!(!tool_button(ViewportToolPanel::Lighting, Some(ViewportToolPanel::Camera), true, true).active);
}

#[test]
fn opening_the_skin_panel_reads_an_unread_catalogue() {
    assert!(refresh_catalog_on_click(ViewportToolPanel::Skin, false, true, true));
    assert!(!refresh_catalog_on_click(ViewportToolPanel::Skin, true, true, true), "closing reads nothing");
    assert!(!refresh_catalog_on_click(ViewportToolPanel::Skin, false, false, true));
    assert!(!refresh_catalog_on_click(ViewportToolPanel::Camera, false, true, true));
}

#[test]
fn background_choices_and_wire_color_follow_integrated_state() {
    assert_eq!(
        background_modes(),
        vec![ViewportBackgroundMode::Radial, ViewportBackgroundMode::Vertical, ViewportBackgroundMode::Flat]
    );
    assert_eq!(background_mode_key(ViewportBackgroundMode::Vertical), TextKey::BackgroundVertical);
    assert_eq!(selected_background_segment(ViewportBackgroundMode::Radial), 0);
    assert_eq!(selected_background_segment(ViewportBackgroundMode::Flat), 2);
}

#[test]
fn anything_painted_over_the_scene_keeps_the_pointer() {
    let clear = PointerCover {
        on_tools: false,
        on_workspace_controls: false,
        gaze_popup_blocks: false,
        on_chrome: false,
        help_visible: false,
        clicked: true,
        primary_down: true,
    };
    assert!(!viewport_tools_should_block_pointer(&clear));
    assert!(viewport_tools_should_block_pointer(&PointerCover { on_chrome: true, ..clear }));
    assert!(viewport_tools_should_block_pointer(&PointerCover { help_visible: true, ..clear }));
    assert!(!viewport_tools_should_block_pointer(&PointerCover {
        help_visible: true,
        clicked: false,
        primary_down: false,
        ..clear
    }));
    assert!(eye_gaze_popup_should_block_pointer(true, true, false));
    assert!(eye_gaze_popup_should_block_pointer(true, false, true));
    assert!(!eye_gaze_popup_should_block_pointer(false, true, true));
}

#[test]
fn the_preset_list_highlights_the_preset_in_use_or_else_the_first() {
    let presets = vec![3u8, 7, 9, 7];
    assert_eq!(selected_preset_row(&presets, &7), 1);
    assert_eq!(selected_preset_row(&presets, &9), 2);
    assert_eq!(selected_preset_row(&presets, &4), 0, "an unlisted preset falls back to the first row");
    assert_eq!(preset_row_ink(true, true), PresetInk::Chosen);
    assert_eq!(preset_row_ink(false, true), PresetInk::Hovered);
    assert_eq!(preset_row_ink(false, false), PresetInk::Muted);
}
