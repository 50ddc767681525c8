use vstd::prelude::*;

use crate::keys::{Icon, TextKey};
use crate::scene::Tab;

verus! {

/// What a work-bar button asks the application to do.
#[derive(Clone, Copy, Debug, PartialEq, Eq, Structural, Hash)]
pub enum NavAction {
    Undo,
    Redo,
    ResetSculpt,
    ResetMorphs,
    ResetHairShapes,
    ResetPins,
    ResetTextureLayer(u64),
}

/// One button of the work bar under the model.
#[derive(Clone, Copy, Debug, PartialEq, Eq, Structural, Hash)]
pub struct NavButton {
    pub icon: Icon,
    pub tooltip: TextKey,
    pub action: NavAction,
    pub enabled: bool,
    pub destructive: bool,
}

/// What the work bar reads of the application state.
#[derive(Clone, Copy, Debug, PartialEq, Eq, Structural, Hash)]
pub struct NavState {
    /// A long task is running and nothing may be edited.
    pub busy: bool,
    /// Steps that can be undone.
    pub back: usize,
    /// Steps that can be redone.
    pub forward: usize,
    /// The morph tab is in its sculpt phase.
    pub sculpting: bool,
    /// The hair tab is open for editing.
    pub hair_editing: bool,
    /// Some part the hair brushes may edit holds planted strands.
    pub hair_has_strands: bool,
    pub tab: Tab,
    /// A scan head is loaded.
    pub scan_loaded: bool,
    /// The texture layer selected in the texture tab, if any.
    pub selected_texture_layer: Option<u64>,
}

pub open spec fn button(
    icon: Icon,
    tooltip: TextKey,
    action: NavAction,
    enabled: bool,
    destructive: bool,
) -> NavButton {
    NavButton { icon, tooltip, action, enabled, destructive }
}

/// The reset buttons between the two arrows, by what the tab can throw away.
pub open spec fn spec_reset_buttons(state: NavState) -> Seq<NavButton> {
    if state.sculpting {
        seq![
            button(Icon::Hammer, TextKey::ResetSculpt, NavAction::ResetSculpt, !state.busy, true),
            button(Icon::Broom, TextKey::ResetMorphs, NavAction::ResetMorphs, !state.busy, true),
        ]
    } else if state.hair_editing {
        seq![
            button(
                Icon::Hammer,
                TextKey::ResetSculpt,
                NavAction::ResetHairShapes,
                !state.busy && state.hair_has_strands,
                true,
            ),
        ]
    } else if (state.tab == Tab::Alignment || state.tab == Tab::Edit) && state.scan_loaded {
        seq![button(Icon::Broom, TextKey::ResetAllPins, NavAction::ResetPins, !state.busy, true)]
    } else if state.tab == Tab::Texture && state.selected_texture_layer is Some {
        seq![
            button(
                Icon::Broom,
                TextKey::ResetSourceRetouch,
                NavAction::ResetTextureLayer(state.selected_texture_layer->0),
                !state.busy,
                true,
            ),
        ]
    } else {
        seq![]
    }
}

/// The whole bar: back, the resets, forward.
pub open spec fn spec_nav_buttons(state: NavState) -> Seq<NavButton> {
    seq![button(Icon::Undo, TextKey::HelpUndo, NavAction::Undo, !state.busy && state.back > 0, false)]
        + spec_reset_buttons(state) + seq![
        button(
            Icon::Redo,
            TextKey::HelpRedo,
            NavAction::Redo,
            !state.busy && state.forward > 0,
            false,
        ),
    ]
}

/// The buttons of the work bar, left to right.
///
/// Back always comes first and forward always last; a step that is not
/// available is greyed rather than removed. Between them stand the resets the
/// tab offers, each marked destructive.
pub fn nav_buttons(state: &NavState) -> (result: Vec<NavButton>)
    ensures
        result@ == spec_nav_buttons(*state),
{
    let busy = state.busy;
    let mut buttons = vec![
        NavButton {
            icon: Icon::Undo,
            tooltip: TextKey::HelpUndo,
            action: NavAction::Undo,
            enabled: !busy && state.back > 0,
            destructive: false,
        },
    ];
    let ghost first = buttons@;
    if state.sculpting {
        buttons.push(
            NavButton {
                icon: Icon::Hammer,
                tooltip: TextKey::ResetSculpt,
                action: NavAction::ResetSculpt,
                enabled: !busy,
                destructive: true,
            },
        );
        buttons.push(
            NavButton {
                icon: Icon::Broom,
                tooltip: TextKey::ResetMorphs,
                action: NavAction::ResetMorphs,
                enabled: !busy,
                destructive: true,
            },
        );
    } else if state.hair_editing {
        buttons.push(
            NavButton {
                icon: Icon::Hammer,
                tooltip: TextKey::ResetSculpt,
                action: NavAction::ResetHairShapes,
                enabled: !busy && state.hair_has_strands,
                destructive: true,
            },
        );
    } else if (state.tab == Tab::Alignment || state.tab == Tab::Edit) && state.scan_loaded {
        buttons.push(
            NavButton {
                icon: Icon::Broom,
                tooltip: TextKey::ResetAllPins,
                action: NavAction::ResetPins,
                enabled: !busy,
                destructive: true,
            },
        );
    } else if state.tab == Tab::Texture && state.selected_texture_layer.is_some() {
        let layer = state.selected_texture_layer.unwrap();
        buttons.push(
            NavButton {
                icon: Icon::Broom,
                tooltip: TextKey::ResetSourceRetouch,
                action: NavAction::ResetTextureLayer(layer),
                enabled: !busy,
                destructive: true,
            },
        );
    }
    assert(buttons@ =~= first + spec_reset_buttons(*state));
    buttons.push(
        NavButton {
            icon: Icon::Redo,
            tooltip: TextKey::HelpRedo,
            action: NavAction::Redo,
            enabled: !busy && state.forward > 0,
            destructive: false,
        },
    );
    assert(buttons@ =~= spec_nav_buttons(*state));
    buttons
}

/// Back is always first and forward always last, whatever the tab offers in
/// between, and only the buttons between them throw work away.
pub proof fn lemma_nav_bar_is_framed_by_the_arrows(state: NavState)
    ensures
        spec_nav_buttons(state).len() >= 2,
        spec_nav_buttons(state).len() <= 4,
        spec_nav_buttons(state)[0].icon == Icon::Undo,
        spec_nav_buttons(state)[0].action == NavAction::Undo,
        spec_nav_buttons(state).last().icon == Icon::Redo,
        spec_nav_buttons(state).last().action == NavAction::Redo,
        forall|i: int|
            0 <= i < spec_nav_buttons(state).len() ==> (#[trigger] spec_nav_buttons(state)[i]).destructive
                == (0 < i < spec_nav_buttons(state).len() - 1),
{
    let bar = spec_nav_buttons(state);
    let middle = spec_reset_buttons(state);
    assert(bar.len() == middle.len() + 2);
    assert forall|i: int| 0 <= i < bar.len() implies (#[trigger] bar[i]).destructive == (0 < i < bar.len()
        - 1) by {
        if 0 < i < bar.len() - 1 {
            assert(bar[i] == middle[i - 1]);
        }
    }
}

/// Each tab offers the resets that throw its own work away. Outside the
/// sculpt and hair phases, with a scan loaded on the alignment or the edit
/// tab, the bar is back, a destructive reset of all pins, and forward; and
/// the pins are offered for reset nowhere else.
pub proof fn lemma_each_tab_offers_its_own_resets(state: NavState)
    ensures
        !state.sculpting && !state.hair_editing && state.scan_loaded && (state.tab == Tab::Alignment
            || state.tab == Tab::Edit) ==> {
            let bar = spec_nav_buttons(state);
            &&& bar.len() == 3
            &&& bar[0].action == NavAction::Undo
            &&& bar[1].action == NavAction::ResetPins
            &&& bar[1].icon == Icon::Broom
            &&& bar[1].tooltip == TextKey::ResetAllPins
            &&& bar[1].destructive
            &&& bar[1].enabled == !state.busy
            &&& bar[2].action == NavAction::Redo
        },
        (exists|i: int|
            0 <= i < spec_nav_buttons(state).len() && (#[trigger] spec_nav_buttons(state)[i]).action
                == NavAction::ResetPins) <==> (!state.sculpting && !state.hair_editing
            && state.scan_loaded && (state.tab == Tab::Alignment || state.tab == Tab::Edit)),
        state.sculpting ==> spec_nav_buttons(state).len() == 4 && spec_nav_buttons(state)[1].action
            == NavAction::ResetSculpt && spec_nav_buttons(state)[2].action == NavAction::ResetMorphs,
        !state.sculpting && state.hair_editing ==> spec_nav_buttons(state).len() == 3
            && spec_nav_buttons(state)[1].action == NavAction::ResetHairShapes,
{
    let bar = spec_nav_buttons(state);
    let middle = spec_reset_buttons(state);
    assert(bar.len() == middle.len() + 2);
    assert forall|i: int| 0 < i < bar.len() - 1 implies bar[i] == middle[i - 1] by {}
    if exists|i: int| 0 <= i < bar.len() && (#[trigger] bar[i]).action == NavAction::ResetPins {
        let i = choose|i: int| 0 <= i < bar.len() && (#[trigger] bar[i]).action == NavAction::ResetPins;
        assert(0 < i < bar.len() - 1);
        assert(middle[i - 1].action == NavAction::ResetPins);
    }
    if !state.sculpting && !state.hair_editing && state.scan_loaded && (state.tab == Tab::Alignment
        || state.tab == Tab::Edit) {
        assert(bar[1].action == NavAction::ResetPins);
    }
}

/// A step can be taken back exactly when there is one and nothing is busy;
/// the button stays on the bar either way.
pub proof fn lemma_unavailable_steps_are_greyed_not_removed(state: NavState)
    ensures
        spec_nav_buttons(state)[0].enabled <==> (!state.busy && state.back > 0),
        spec_nav_buttons(state).last().enabled <==> (!state.busy && state.forward > 0),
{
}

/// Whether any part the hair brushes may edit holds planted strands, from the
/// strand count of each editable part.
pub fn editable_parts_have_strands(strand_counts: &Vec<usize>) -> (result: bool)
    ensures
        result == exists|i: int| 0 <= i < strand_counts.len() && strand_counts[i] > 0,
{
    let mut index: usize = 0;
    while index < strand_counts.len()
        invariant
            index <= strand_counts.len(),
            forall|i: int| 0 <= i < index ==> strand_counts[i] == 0,
        decreases strand_counts.len() - index,
    {
        if strand_counts[index] > 0 {
            return true;
        }
        index += 1;
    }
    false
}

/// The fill behind a work-bar button under the pointer.
#[derive(Clone, Copy, Debug, PartialEq, Eq, Structural, Hash)]
pub enum NavHoverFill {
    /// Red, for a button that throws work away.
    Destructive,
    /// The ordinary hover fill.
    Hover,
}

/// The ink of a work-bar icon.
#[derive(Clone, Copy, Debug, PartialEq, Eq, Structural, Hash)]
pub enum NavInk {
    Disabled,
    /// The background colour, on a red fill.
    OnDestructive,
    Text,
}

/// How a work-bar button is painted: only an enabled button reacts to the
/// pointer, a destructive one turning red with its icon in the background
/// colour.
pub fn nav_button_paint(enabled: bool, destructive: bool, pointer_over: bool) -> (result: (Option<
    NavHoverFill,
>, NavInk))
    ensures
        ({
            let hovered = enabled && pointer_over;
            &&& result.0 == if hovered {
                Some(
                    if destructive {
                        NavHoverFill::Destructive
                    } else {
                        NavHoverFill::Hover
                    },
                )
            } else {
                None
            }
            &&& result.1 == if !enabled {
                NavInk::Disabled
            } else if hovered && destructive {
                NavInk::OnDestructive
            } else {
                NavInk::Text
            }
        }),
{
    let hovered = enabled && pointer_over;
    let fill = if hovered {
        Some(
            if destructive {
                NavHoverFill::Destructive
            } else {
                NavHoverFill::Hover
            },
        )
    } else {
        None
    };
    let ink = if !enabled {
        NavInk::Disabled
    } else if hovered && destructive {
        NavInk::OnDestructive
    } else {
        NavInk::Text
    };
    (fill, ink)
}

/// The action a click on a work-bar button asks for: a greyed button does
/// nothing.
pub fn nav_click(button: &NavButton, clicked: bool) -> (result: Option<NavAction>)
    ensures
        result == (if button.enabled && clicked {
            Some(button.action)
        } else {
            None
        }),
{
    if button.enabled && clicked {
        Some(button.action)
    } else {
        None
    }
}

} // verus!
