use vstd::prelude::*;

use crate::hair::{spec_hair_tools, hair_toolbox_slot, HairTool, HairToolboxSlot};

verus! {

/// The grid of a floating toolbox.
#[derive(Clone, Copy, Debug, PartialEq, Eq, Structural, Hash)]
pub struct ToolboxGrid {
    pub columns: usize,
    pub rows: usize,
}

/// The rows `slots` cells need in `columns` columns: enough for every slot,
/// with the last row holding at least one.
pub open spec fn spec_rows_for(slots: int, columns: int) -> int {
    if slots % columns == 0 {
        slots / columns
    } else {
        slots / columns + 1
    }
}

/// The grid a toolbox of `slots` cells is drawn in: at least one column, and
/// as many rows as the slots fill, a last partial row included.
pub fn toolbox_grid(slots: usize, columns: usize) -> (result: ToolboxGrid)
    ensures
        result.columns == (if columns < 1 {
            1
        } else {
            columns as int
        }),
        result.rows == spec_rows_for(slots as int, result.columns as int),
{
    let across = if columns < 1 {
        1
    } else {
        columns
    };
    let whole = slots / across;
    let rows = if slots % across == 0 {
        whole
    } else {
        assert(whole < slots) by (nonlinear_arith)
            requires
                whole == slots / across,
                across >= 1,
                slots % across != 0,
        ;
        whole + 1
    };
    ToolboxGrid { columns: across, rows }
}

/// Every slot has a cell, and no row is wasted: the rows hold all the slots
/// and the last row holds at least one of them.
pub proof fn lemma_the_grid_fits_its_slots_with_no_empty_row(slots: nat, columns: nat)
    requires
        columns >= 1,
    ensures
        spec_rows_for(slots as int, columns as int) * columns >= slots,
        slots > 0 ==> (spec_rows_for(slots as int, columns as int) - 1) * columns < slots,
{
    let rows = spec_rows_for(slots as int, columns as int);
    let q = slots as int / columns as int;
    let r = slots as int % columns as int;
    assert(slots as int == q * columns + r && 0 <= r < columns) by (nonlinear_arith)
        requires
            q == slots as int / columns as int,
            r == slots as int % columns as int,
            columns >= 1,
    ;
    if r == 0 {
        assert(rows * columns >= slots) by (nonlinear_arith)
            requires
                rows == q,
                slots as int == q * columns + r,
                r == 0,
        ;
        if slots > 0 {
            assert((rows - 1) * columns < slots) by (nonlinear_arith)
                requires
                    rows == q,
                    slots as int == q * columns,
                    columns >= 1,
                    slots > 0,
            ;
        }
    } else {
        assert(rows * columns >= slots) by (nonlinear_arith)
            requires
                rows == q + 1,
                slots as int == q * columns + r,
                r < columns,
        ;
        assert((rows - 1) * columns < slots) by (nonlinear_arith)
            requires
                rows == q + 1,
                slots as int == q * columns + r,
                r > 0,
        ;
    }
}

/// A second column never needs more rows than one, and two slots to a row
/// halve the rows, rounding up.
pub proof fn lemma_two_columns_are_never_taller(slots: nat)
    ensures
        spec_rows_for(slots as int, 2) <= spec_rows_for(slots as int, 1),
        spec_rows_for(slots as int, 1) == slots,
{
}

/// The cell of slot `index` in a toolbox whose stored column count is
/// `stored`: the count is held to one or two, and slots fill the rows left to
/// right, top to bottom.
pub fn toolbox_cell(index: usize, stored: u8) -> (result: (usize, usize))
    ensures
        ({
            let across: int = if stored < 1 {
                1
            } else if stored > 2 {
                2
            } else {
                stored as int
            };
            &&& result.0 == index as int % across
            &&& result.1 == index as int / across
            &&& result.0 < across
        }),
{
    let across: usize = if stored < 1 {
        1
    } else if stored > 2 {
        2
    } else {
        stored as usize
    };
    (index % across, index / across)
}

/// No two slots share a cell.
pub proof fn lemma_slots_never_share_a_cell(first: nat, second: nat, across: nat)
    requires
        across >= 1,
        first != second,
    ensures
        (first as int % across as int, first as int / across as int) != (second as int
            % across as int, second as int / across as int),
{
    if first as int % across as int == second as int % across as int && first as int / across as int
        == second as int / across as int {
        assert(first == second) by (nonlinear_arith)
            requires
                across >= 1,
                first as int % across as int == second as int % across as int,
                first as int / across as int == second as int / across as int,
        ;
    }
}

/// What a click in the hair toolbox asks for.
#[derive(Clone, Copy, Debug, PartialEq, Eq, Structural, Hash)]
pub enum HairToolboxAction {
    SetTool(HairTool),
    /// Mirror the selected part.
    MirrorPart(u64),
    Nothing,
}

/// A click on slot `slot` of the hair toolbox: a tool slot selects its tool,
/// and the mirror slot mirrors the selected part when there is one.
pub fn hair_toolbox_click(slot: usize, selected_part: Option<u64>) -> (result: HairToolboxAction)
    ensures
        slot < spec_hair_tools().len() ==> result == HairToolboxAction::SetTool(
            spec_hair_tools()[slot as int].0,
        ),
        slot >= spec_hair_tools().len() ==> result == match selected_part {
            Some(part) => HairToolboxAction::MirrorPart(part),
            None => HairToolboxAction::Nothing,
        },
{
    match hair_toolbox_slot(slot) {
        HairToolboxSlot::Tool(tool, _, _, _) => HairToolboxAction::SetTool(tool),
        HairToolboxSlot::MirrorPart => match selected_part {
            Some(part) => HairToolboxAction::MirrorPart(part),
            None => HairToolboxAction::Nothing,
        },
    }
}

/// One cell of the texture toolbox.
#[derive(Clone, Copy, Debug, PartialEq, Eq, Structural, Hash)]
pub struct TextureToolCell {
    /// The cell is lit as the active tool.
    pub lit: bool,
    /// The tooltip says the tool needs pins rather than naming it.
    pub needs_pins_label: bool,
    /// The tooltip names the tool's shortcut.
    pub shows_shortcut: bool,
    /// The click selects the tool.
    pub chosen: bool,
}

/// A texture tool the layer cannot run yet is shown and refused rather than
/// hidden, so the box never reflows under the pointer: its tooltip says it
/// needs pins, it names no shortcut, and a click on it does nothing.
pub fn texture_tool_cell(active: bool, usable: bool, clicked: bool) -> (result: TextureToolCell)
    ensures
        result == (TextureToolCell {
            lit: active,
            needs_pins_label: !usable,
            shows_shortcut: usable,
            chosen: usable && clicked,
        }),
{
    TextureToolCell { lit: active, needs_pins_label: !usable, shows_shortcut: usable, chosen: usable && clicked }
}

/// Whether a tab's toolbox stands at all: on its own tab, with no portrait
/// being framed, and with a slot to show.
pub fn toolbox_offered(on_its_tab: bool, framing_portrait: bool, slots: usize) -> (result: bool)
    ensures
        result == (on_its_tab && !framing_portrait && slots > 0),
{
    on_its_tab && !framing_portrait && slots > 0
}

} // verus!
