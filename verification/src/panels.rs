use vstd::prelude::*;

use vstd::std_specs::cmp::PartialEqSpec;

use crate::keys::{Icon, TextKey};

verus! {

/// The panels behind the round buttons of the viewport tool rail.
#[derive(Clone, Copy, Debug, PartialEq, Eq, Structural, Hash)]
pub enum ViewportToolPanel {
    Lighting,
    /// The background and its reference pictures.
    BaseView,
    Wireframe,
    Xray,
    Skin,
    Camera,
}

/// The rail's buttons, top to bottom.
pub open spec fn spec_viewport_tool_panels() -> Seq<ViewportToolPanel> {
    seq![
        ViewportToolPanel::Lighting,
        ViewportToolPanel::BaseView,
        ViewportToolPanel::Wireframe,
        ViewportToolPanel::Xray,
        ViewportToolPanel::Skin,
        ViewportToolPanel::Camera,
    ]
}

/// The rail's buttons, top to bottom.
pub fn viewport_tool_panels() -> (result: Vec<ViewportToolPanel>)
    ensures
        result@ == spec_viewport_tool_panels(),
{
    let result = vec![
        ViewportToolPanel::Lighting,
        ViewportToolPanel::BaseView,
        ViewportToolPanel::Wireframe,
        ViewportToolPanel::Xray,
        ViewportToolPanel::Skin,
        ViewportToolPanel::Camera,
    ];
    assert(result@ =~= spec_viewport_tool_panels());
    result
}

pub open spec fn spec_panel_icon(panel: ViewportToolPanel) -> Icon {
    match panel {
        ViewportToolPanel::Lighting => Icon::LightBulb,
        ViewportToolPanel::BaseView => Icon::Picture,
        ViewportToolPanel::Wireframe => Icon::Wireframe,
        ViewportToolPanel::Xray => Icon::Xray,
        ViewportToolPanel::Skin => Icon::HeadTexture,
        ViewportToolPanel::Camera => Icon::Camera,
    }
}

pub open spec fn spec_panel_tooltip(panel: ViewportToolPanel) -> TextKey {
    match panel {
        ViewportToolPanel::Lighting => TextKey::ViewportLightingTooltip,
        ViewportToolPanel::BaseView => TextKey::ViewportBackgroundTooltip,
        ViewportToolPanel::Wireframe => TextKey::ViewportWireframeTooltip,
        ViewportToolPanel::Xray => TextKey::ViewportXrayTooltip,
        ViewportToolPanel::Skin => TextKey::ViewportSkinTooltip,
        ViewportToolPanel::Camera => TextKey::CameraSettings,
    }
}

/// The icon painted on a panel's button.
pub fn panel_icon(panel: ViewportToolPanel) -> (result: Icon)
    ensures
        result == spec_panel_icon(panel),
{
    match panel {
        ViewportToolPanel::Lighting => Icon::LightBulb,
        ViewportToolPanel::BaseView => Icon::Picture,
        ViewportToolPanel::Wireframe => Icon::Wireframe,
        ViewportToolPanel::Xray => Icon::Xray,
        ViewportToolPanel::Skin => Icon::HeadTexture,
        ViewportToolPanel::Camera => Icon::Camera,
    }
}

/// The title centred at the top of an open panel.
pub fn panel_title(panel: ViewportToolPanel) -> (result: TextKey)
    ensures
        result == match panel {
            ViewportToolPanel::Lighting => TextKey::Lighting,
            ViewportToolPanel::BaseView => TextKey::Background,
            ViewportToolPanel::Wireframe => TextKey::WireframeSettings,
            ViewportToolPanel::Xray => TextKey::XraySettings,
            ViewportToolPanel::Skin => TextKey::SkinSettings,
            ViewportToolPanel::Camera => TextKey::CameraSettings,
        },
{
    match panel {
        ViewportToolPanel::Lighting => TextKey::Lighting,
        ViewportToolPanel::BaseView => TextKey::Background,
        ViewportToolPanel::Wireframe => TextKey::WireframeSettings,
        ViewportToolPanel::Xray => TextKey::XraySettings,
        ViewportToolPanel::Skin => TextKey::SkinSettings,
        ViewportToolPanel::Camera => TextKey::CameraSettings,
    }
}

/// One button of the tool rail as it is painted.
#[derive(Clone, Copy, Debug, PartialEq, Eq, Structural, Hash)]
pub struct ToolButton {
    pub panel: ViewportToolPanel,
    pub icon: Icon,
    pub tooltip: TextKey,
    /// The button is lit: its panel is open or its overlay is on.
    pub active: bool,
}

/// A rail button: lit while its panel is open, and the wire and x-ray
/// buttons also while their overlay is switched on.
pub fn tool_button(
    panel: ViewportToolPanel,
    open: Option<ViewportToolPanel>,
    wire_visible: bool,
    xray_visible: bool,
) -> (result: ToolButton)
    ensures
        result == (ToolButton {
            panel,
            icon: spec_panel_icon(panel),
            tooltip: spec_panel_tooltip(panel),
            active: open == Some(panel) || match panel {
                ViewportToolPanel::Wireframe => wire_visible,
                ViewportToolPanel::Xray => xray_visible,
                _ => false,
            },
        }),
{
    let is_open = match open {
        Some(current) => current == panel,
        None => false,
    };
    let enabled = match panel {
        ViewportToolPanel::Lighting
        | ViewportToolPanel::Skin
        | ViewportToolPanel::Camera
        | ViewportToolPanel::BaseView => false,
        ViewportToolPanel::Wireframe => wire_visible,
        ViewportToolPanel::Xray => xray_visible,
    };
    let tooltip = match panel {
        ViewportToolPanel::Lighting => TextKey::ViewportLightingTooltip,
        ViewportToolPanel::BaseView => TextKey::ViewportBackgroundTooltip,
        ViewportToolPanel::Wireframe => TextKey::ViewportWireframeTooltip,
        ViewportToolPanel::Xray => TextKey::ViewportXrayTooltip,
        ViewportToolPanel::Skin => TextKey::ViewportSkinTooltip,
        ViewportToolPanel::Camera => TextKey::CameraSettings,
    };
    ToolButton { panel, icon: panel_icon(panel), tooltip, active: is_open || enabled }
}

/// Opening the skin panel asks for the skin catalogue when a library root is
/// set and the catalogue has never been read.
pub fn refresh_catalog_on_click(
    panel: ViewportToolPanel,
    was_open: bool,
    library_root_set: bool,
    catalog_unconfigured: bool,
) -> (result: bool)
    ensures
        result == (panel == ViewportToolPanel::Skin && !was_open && library_root_set
            && catalog_unconfigured),
{
    panel == ViewportToolPanel::Skin && !was_open && library_root_set && catalog_unconfigured
}

pub open spec fn spec_tool_panel_contains(in_rail: bool, on_help_button: bool, in_panel: bool) -> bool {
    (in_rail && !on_help_button) || in_panel
}

pub open spec fn spec_tool_panel_should_dismiss(clicked: bool, on_tools: bool) -> bool {
    clicked && !on_tools
}

/// Whether the pointer is on the tools: on the rail but not on the help
/// button that sits at its foot, or on the open panel.
pub fn viewport_tool_panel_contains(in_rail: bool, on_help_button: bool, in_panel: bool) -> (result:
    bool)
    ensures
        result == spec_tool_panel_contains(in_rail, on_help_button, in_panel),
{
    (in_rail && !on_help_button) || in_panel
}

/// A click anywhere off the tools closes the open panel.
pub fn viewport_tool_panel_should_dismiss(clicked: bool, on_tools: bool) -> (result: bool)
    ensures
        result == spec_tool_panel_should_dismiss(clicked, on_tools),
{
    clicked && !on_tools
}

/// The open panel stays open under a click inside it or on the rail, and
/// nothing but a click closes it; a click on the help button, though the
/// button sits on the rail, closes it.
pub proof fn lemma_a_click_on_the_tools_keeps_the_panel(
    in_rail: bool,
    on_help_button: bool,
    in_panel: bool,
    clicked: bool,
)
    ensures
        in_panel ==> !spec_tool_panel_should_dismiss(
            clicked,
            spec_tool_panel_contains(in_rail, on_help_button, in_panel),
        ),
        in_rail && !on_help_button ==> !spec_tool_panel_should_dismiss(
            clicked,
            spec_tool_panel_contains(in_rail, on_help_button, in_panel),
        ),
        !clicked ==> !spec_tool_panel_should_dismiss(
            clicked,
            spec_tool_panel_contains(in_rail, on_help_button, in_panel),
        ),
        clicked && on_help_button && !in_panel ==> spec_tool_panel_should_dismiss(
            clicked,
            spec_tool_panel_contains(in_rail, on_help_button, in_panel),
        ),
{
}

/// The help card spends every click and every held press while it is open.
pub fn help_card_spends_pointer(help_visible: bool, clicked: bool, primary_down: bool) -> (result:
    bool)
    ensures
        result == (help_visible && (clicked || primary_down)),
{
    help_visible && (clicked || primary_down)
}

/// The open gaze popup takes any click, and the pointer while over it.
pub fn eye_gaze_popup_should_block_pointer(popup_open: bool, clicked: bool, over_popup: bool) -> (result:
    bool)
    ensures
        result == (popup_open && (clicked || over_popup)),
{
    popup_open && (clicked || over_popup)
}

/// What lies over the scene under the pointer.
#[derive(Clone, Copy, Debug, PartialEq, Eq, Structural, Hash)]
pub struct PointerCover {
    /// The rail, the open panel or the help card and its button.
    pub on_tools: bool,
    /// The workspace's own header, islands or toolbox.
    pub on_workspace_controls: bool,
    pub gaze_popup_blocks: bool,
    /// Some painted piece of viewport chrome.
    pub on_chrome: bool,
    pub help_visible: bool,
    pub clicked: bool,
    pub primary_down: bool,
}

/// Whether the scene must not see the pointer: anything painted over it
/// keeps it, and an open help card spends every click and press.
pub fn viewport_tools_should_block_pointer(cover: &PointerCover) -> (result: bool)
    ensures
        result == (cover.on_tools || cover.on_workspace_controls || cover.gaze_popup_blocks
            || cover.on_chrome || (cover.help_visible && (cover.clicked || cover.primary_down))),
{
    cover.on_tools || cover.on_workspace_controls || cover.gaze_popup_blocks || cover.on_chrome
        || help_card_spends_pointer(cover.help_visible, cover.clicked, cover.primary_down)
}

/// How the space behind the model is painted.
#[derive(Clone, Copy, Debug, PartialEq, Eq, Structural, Hash)]
pub enum ViewportBackgroundMode {
    Radial,
    Vertical,
    Flat,
}

/// The background choices, in the order the segmented control lists them.
pub open spec fn spec_background_modes() -> Seq<ViewportBackgroundMode> {
    seq![ViewportBackgroundMode::Radial, ViewportBackgroundMode::Vertical, ViewportBackgroundMode::Flat]
}

/// The background choices, in the order the segmented control lists them.
pub fn background_modes() -> (result: Vec<ViewportBackgroundMode>)
    ensures
        result@ == spec_background_modes(),
{
    let result = vec![
        ViewportBackgroundMode::Radial,
        ViewportBackgroundMode::Vertical,
        ViewportBackgroundMode::Flat,
    ];
    assert(result@ =~= spec_background_modes());
    result
}

/// The label of a background choice.
pub fn background_mode_key(mode: ViewportBackgroundMode) -> (result: TextKey)
    ensures
        result == match mode {
            ViewportBackgroundMode::Radial => TextKey::BackgroundRadial,
            ViewportBackgroundMode::Vertical => TextKey::BackgroundVertical,
            ViewportBackgroundMode::Flat => TextKey::BackgroundFlat,
        },
{
    match mode {
        ViewportBackgroundMode::Radial => TextKey::BackgroundRadial,
        ViewportBackgroundMode::Vertical => TextKey::BackgroundVertical,
        ViewportBackgroundMode::Flat => TextKey::BackgroundFlat,
    }
}

/// The segment the control highlights: the position of the chosen mode in
/// the list.
pub fn selected_background_segment(mode: ViewportBackgroundMode) -> (result: usize)
    ensures
        result < spec_background_modes().len(),
        spec_background_modes()[result as int] == mode,
{
    let modes = background_modes();
    let mut index: usize = 0;
    while index < modes.len()
        invariant
            modes@ == spec_background_modes(),
            index <= modes@.len(),
            forall|earlier: int| 0 <= earlier < index ==> modes@[earlier] != mode,
        decreases modes@.len() - index,
    {
        if modes[index] == mode {
            return index;
        }
        index += 1;
    }
    assert(modes@[0] != mode && modes@[1] != mode && modes@[2] != mode);
    0
}

/// The row the lighting preset list highlights: the first row that holds
/// the current preset, or the first row when none does.
pub fn selected_preset_row<T: PartialEq>(presets: &Vec<T>, current: &T) -> (result: usize)
    requires
        T::obeys_eq_spec(),
    ensures
        (exists|i: int| 0 <= i < presets@.len() && #[trigger] presets@[i].eq_spec(current)) ==> {
            &&& result < presets@.len()
            &&& presets@[result as int].eq_spec(current)
            &&& forall|j: int| 0 <= j < result ==> !(#[trigger] presets@[j].eq_spec(current))
        },
        !(exists|i: int| 0 <= i < presets@.len() && #[trigger] presets@[i].eq_spec(current)) ==> result
            == 0,
{
    let mut index: usize = 0;
    while index < presets.len()
        invariant
            T::obeys_eq_spec(),
            index <= presets@.len(),
            forall|j: int| 0 <= j < index ==> !(#[trigger] presets@[j].eq_spec(current)),
        decreases presets@.len() - index,
    {
        if presets[index] == *current {
            return index;
        }
        index += 1;
    }
    0
}

/// The colour of a lighting preset's name.
#[derive(Clone, Copy, Debug, PartialEq, Eq, Structural, Hash)]
pub enum PresetInk {
    /// The preset in use.
    Chosen,
    /// Under the pointer.
    Hovered,
    Muted,
}

/// The colour of a lighting preset's name: the preset in use stands out,
/// then the one under the pointer.
pub fn preset_row_ink(selected: bool, hovered: bool) -> (result: PresetInk)
    ensures
        result == (if selected {
            PresetInk::Chosen
        } else if hovered {
            PresetInk::Hovered
        } else {
            PresetInk::Muted
        }),
{
    if selected {
        PresetInk::Chosen
    } else if hovered {
        PresetInk::Hovered
    } else {
        PresetInk::Muted
    }
}

} // verus!
