use vkit_viewport::hair::HairTool;
use vkit_viewport::toolbox::{
    hair_toolbox_click, texture_tool_cell, toolbox_cell, toolbox_grid, toolbox_offered,
    HairToolboxAction, TextureToolCell,
};

#[test]
fn two_columns_are_wider_and_shorter_than_one() {
    let one = toolbox_grid(6, 1);
    let two = toolbox_grid(6, 2);
    assert!(two.columns > one.columns);
    assert!(two.rows < one.rows);
    assert_eq!((one.rows, two.rows), (6, 3));
}

#[test]
fn an_odd_slot_count_keeps_a_row_for_the_last_one() {
    assert_eq!(toolbox_grid(5, 2).rows, toolbox_grid(6, 2).rows, "both need three rows");
    assert!(toolbox_grid(4, 2).rows < toolbox_grid(5, 2).rows, "four fit in two rows and five do not");
    assert_eq!(toolbox_grid(3, 0).columns, 1, "there is always a column");
    assert_eq!(toolbox_grid(0, 2).rows, 0);
}

#[test]
fn the_toolbox_rect_tracks_its_column_count() {
    let one = toolbox_grid(11, 1);
    let two = toolbox_grid(11, 2);
    assert_eq!(two.columns - one.columns, 1, "the second column costs one cell and one gap");
    assert!(one.rows > two.rows, "fewer columns stack taller");
}

#[test]
fn slots_fill_rows_left_to_right() {
    assert_eq!(toolbox_cell(0, 2), (0, 0));
    assert_eq!(toolbox_cell(1, 2), (1, 0));
    assert_eq!(toolbox_cell(2, 2), (0, 1));
    assert_eq!(toolbox_cell(5, 1), (0, 5));
    assert_eq!(toolbox_cell(5, 0), (0, 5), "a stored zero is held to one column");
    assert_eq!(toolbox_cell(5, 7), (1, 2), "a stored seven is held to two columns");
}

#[test]
fn the_hair_toolbox_picks_tools_and_mirrors_the_part() {
    assert_eq!(hair_toolbox_click(0, None), HairToolboxAction::SetTool(HairTool::Pick));
    assert_eq!(hair_toolbox_click(6, Some(3)), HairToolboxAction::SetTool(HairTool::Comb));
    assert_eq!(hair_toolbox_click(10, Some(3)), HairToolboxAction::MirrorPart(3));
    assert_eq!(hair_toolbox_click(10, None), HairToolboxAction::Nothing);
}

#[test]
fn a_tool_the_layer_cannot_run_is_shown_and_refused() {
    assert_eq!(
        texture_tool_cell(false, false, true),
        TextureToolCell { lit: false, needs_pins_label: true, shows_shortcut: false, chosen: false }
    );
    assert_eq!(
        texture_tool_cell(true, true, true),
        TextureToolCell { lit: true, needs_pins_label: false, shows_shortcut: true, chosen: true }
    );
}

#[test]
fn a_framed_thumbnail_hides_the_toolbox() {
    assert!(toolbox_offered(true, false, 4));
    assert!(!toolbox_offered(true, true, 4));
    assert!(!toolbox_offered(false, false, 4));
    assert!(!toolbox_offered(true, false, 0));
}
