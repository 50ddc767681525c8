use vkit_viewport::hair::{
    auto_part_targets, brush_slot, fxhash, hair_authoring_visible, hair_header_slot,
    hair_header_toggles, hair_overlay_plan, hair_part_drawn, hair_step, hair_toolbox_slot, hair_tools,
    overlay_surface, part_tint_active, preview_lit, reuse_cached_preview, settle_capture_wanted, shapes_existing_hair,
    strength_sweep_target, tool_shortcut, toolbox_columns, toolbox_slots, BrushSlot, HairInput, HairOverlayInput, HairOverlayPlan,
    HairRoute, HairShortcut, HairTargets, HairTool, HairToolboxSlot, HairViewFlags,
    HairViewSwitch, HeaderSlot, LatchUpdate, OverlaySurface, PreviewKey, StrandLines, StrengthSweepTarget,
};
use vkit_viewport::keys::{Icon, TextKey};

#[test]
fn the_hair_strength_slot_follows_the_tool() {
    for tool in [HairTool::Comb, HairTool::Pinch, HairTool::Cut, HairTool::Grow] {
        assert!(shapes_existing_hair(tool), "{tool:?} reshapes hair, so it wants a strength");
    }
    for tool in [HairTool::Plant, HairTool::Erase] {
        assert!(
            !shapes_existing_hair(tool),
            "{tool:?} makes or removes hair, so it wants the segment count"
        );
    }
}

#[test]
fn pinching_pulls_across_the_strand_and_favours_the_tip() {
    let centre = [0.0_f32, 0.0, 0.0];
    let points: Vec<[f32; 3]> = (0..9).map(|i| [2.0, i as f32, 0.0]).collect();

    let pull_at = |index: usize| -> [f32; 3] {
        let last = points.len() - 1;
        let along_strand = index as f32 / last as f32;
        let weight = along_strand.powi(3);
        let ahead = points[(index + 1).min(last)];
        let behind = points[index.saturating_sub(1)];
        let raw = [ahead[0] - behind[0], ahead[1] - behind[1], ahead[2] - behind[2]];
        let length = raw.iter().map(|a| a * a).sum::<f32>().sqrt();
        let direction = raw.map(|a| a / length);
        let mut delta = [0.0_f32; 3];
        for (axis, delta) in delta.iter_mut().enumerate() {
            *delta = centre[axis] - points[index][axis];
        }
        let along: f32 = delta.iter().zip(direction).map(|(d, u)| d * u).sum();
        for (axis, delta) in delta.iter_mut().enumerate() {
            *delta -= along * direction[axis];
        }
        delta.map(|d| d * weight)
    };

    let magnitude = |v: [f32; 3]| v.iter().map(|a| a * a).sum::<f32>().sqrt();
    let tip = pull_at(points.len() - 1);
    let middle = pull_at(points.len() / 2);
    let root = pull_at(1);

    assert!(
        magnitude(tip) > magnitude(middle) * 4.0,
        "the tip must lead by a wide margin: {} vs {}",
        magnitude(tip),
        magnitude(middle),
    );
    assert!(
        magnitude(root) < magnitude(tip) * 0.05,
        "the root barely moves, or the whole head of hair drags",
    );
    assert!(tip[1].abs() < 1.0e-5, "the pull must be across the strand, got {tip:?}");
    assert!(tip[0] < 0.0, "and it must close on the brush, got {tip:?}");
}

#[test]
fn cutting_shortens_in_proportion_and_keeps_every_point() {
    let root = [0.0_f32, 0.0, 0.0];
    let points: Vec<[f32; 3]> = (0..11).map(|i| [0.0, i as f32, 0.0]).collect();

    let cut_at = |index: usize| -> Vec<[f32; 3]> {
        let last = points.len() - 1;
        let keep = (index as f32 / last as f32).max(0.05);
        points
            .iter()
            .map(|point| {
                [
                    root[0] + (point[0] - root[0]) * keep,
                    root[1] + (point[1] - root[1]) * keep,
                    root[2] + (point[2] - root[2]) * keep,
                ]
            })
            .collect()
    };

    let cut = cut_at(5);
    assert_eq!(cut.len(), points.len(), "a cut strand keeps every point; only the length changes");
    assert_eq!(cut[0], points[0], "the root does not move");
    assert!(
        (cut[cut.len() - 1][1] - 5.0).abs() < 1.0e-5,
        "the tip should land where the line was drawn, got {:?}",
        cut[cut.len() - 1],
    );
    let spacing: Vec<f32> = cut.windows(2).map(|pair| pair[1][1] - pair[0][1]).collect();
    for gap in &spacing {
        assert!((gap - spacing[0]).abs() < 1.0e-5, "the points bunched: {spacing:?}");
    }

    let stub = cut_at(0);
    assert!(stub[stub.len() - 1][1] > 0.0, "cutting to the root must leave something to work with");
}

#[test]
fn segment_count_is_the_plant_tools_number_and_nobody_elses() {
    assert_eq!(brush_slot(HairTool::Plant), BrushSlot::Segments);
    assert_eq!(brush_slot(HairTool::Comb), BrushSlot::Strength);
    assert_eq!(brush_slot(HairTool::Erase), BrushSlot::Empty);
    assert_eq!(brush_slot(HairTool::Vertex), BrushSlot::Empty);
    assert_eq!(hair_header_slot(HairTool::Plant, false), HeaderSlot::Segments { enabled: false });
    assert_eq!(hair_header_slot(HairTool::Plant, true), HeaderSlot::Segments { enabled: true });
    assert_eq!(hair_header_slot(HairTool::Pick, true), HeaderSlot::Gap);
    assert_eq!(strength_sweep_target(HairTool::Comb, Some(4)), StrengthSweepTarget::BrushStrength);
    assert_eq!(strength_sweep_target(HairTool::Plant, Some(4)), StrengthSweepTarget::PartSegments(4));
    assert_eq!(strength_sweep_target(HairTool::Erase, None), StrengthSweepTarget::Nothing);
}

#[test]
fn the_joint_tool_and_the_rigidity_brush_have_no_shortcut() {
    assert_eq!(tool_shortcut(HairTool::Vertex), None);
    assert_eq!(tool_shortcut(HairTool::Rigidity), None);
    assert_eq!(tool_shortcut(HairTool::Comb), Some(HairShortcut::HairCombBrush));
}

#[test]
fn the_toolbox_lists_every_tool_then_the_mirror() {
    let tools = hair_tools();
    assert_eq!(tools.len(), 10);
    assert_eq!(tools[0], (HairTool::Pick, Icon::CursorPick, TextKey::HairToolPick, TextKey::HairToolPickHint));
    assert_eq!(toolbox_slots(), 11);
    assert_eq!(
        hair_toolbox_slot(2),
        HairToolboxSlot::Tool(HairTool::Plant, Icon::HairPlant, TextKey::HairToolPlant, TextKey::HairToolPlantHint)
    );
    assert_eq!(hair_toolbox_slot(10), HairToolboxSlot::MirrorPart);
    assert_eq!(toolbox_columns(0), 1);
    assert_eq!(toolbox_columns(2), 2);
    assert_eq!(toolbox_columns(9), 2);
}

#[test]
fn framing_a_layers_portrait_puts_that_layer_alone_on_the_head() {
    assert!(hair_part_drawn(Some(3), 3, false), "the framed layer shows even when hidden");
    assert!(!hair_part_drawn(Some(3), 4, true), "no other layer shows");
    assert!(hair_part_drawn(None, 4, true));
    assert!(!hair_part_drawn(None, 4, false));
}

#[test]
fn the_tint_and_the_settle_wait_for_their_moment() {
    assert!(part_tint_active(true, false, true));
    assert!(!part_tint_active(true, true, true));
    assert!(!part_tint_active(true, false, false));
    assert!(settle_capture_wanted(false, true));
    assert!(!settle_capture_wanted(true, true));
    assert!(!settle_capture_wanted(false, false));
}

#[test]
fn names_hash_with_fnv_kept_to_52_bits() {
    assert_eq!(fxhash(""), 0xcbf2_9ce4_8422_2325 & 0x000f_ffff_ffff_ffff);
    assert_eq!(fxhash("a"), 0xaf63_dc4c_8601_ec8c & 0x000f_ffff_ffff_ffff);
    assert_ne!(fxhash("Short"), fxhash("Long"));
    assert!(fxhash("any provider") <= 0x000f_ffff_ffff_ffff);
}

fn idle_input(tool: HairTool) -> HairInput {
    HairInput {
        pending_history_branch: false,
        size_sweep_consumed: false,
        strength_sweep_consumed: false,
        input_blocked: false,
        comb_key_pressed: false,
        tool,
        command_held: false,
        clicked: false,
        has_selected_part: true,
        selected_is_scalp: false,
        plant_ready: true,
        auto_part: false,
        pressed: false,
        hovered: true,
        pane_owns_stroke: true,
        primary_down: true,
        primary_released: false,
    }
}

#[test]
fn each_tool_reaches_its_own_brush() {
    assert_eq!(hair_step(&idle_input(HairTool::Plant)).route, HairRoute::Plant);
    assert_eq!(hair_step(&idle_input(HairTool::Erase)).route, HairRoute::Erase);
    assert_eq!(hair_step(&idle_input(HairTool::Cut)).route, HairRoute::Cut);
    assert_eq!(hair_step(&idle_input(HairTool::Grow)).route, HairRoute::Grow);
    assert_eq!(hair_step(&idle_input(HairTool::Pinch)).route, HairRoute::Comb);
    assert_eq!(hair_step(&idle_input(HairTool::Vertex)).route, HairRoute::Vertex);
    assert!(hair_step(&idle_input(HairTool::Comb)).repaint);
}

#[test]
fn a_click_with_the_picker_activates_a_part() {
    let pick = HairInput { clicked: true, ..idle_input(HairTool::Pick) };
    assert_eq!(hair_step(&pick).route, HairRoute::PickPart);
    let command = HairInput { clicked: true, command_held: true, ..idle_input(HairTool::Cut) };
    assert_eq!(hair_step(&command).route, HairRoute::PickPart);
    let no_click = idle_input(HairTool::Pick);
    assert_eq!(hair_step(&no_click).route, HairRoute::Idle);
}

#[test]
fn nothing_brushes_a_scalp_layer_or_an_empty_selection() {
    let scalp = HairInput { selected_is_scalp: true, ..idle_input(HairTool::Comb) };
    assert_eq!(hair_step(&scalp).route, HairRoute::Idle);
    let none = HairInput { has_selected_part: false, ..idle_input(HairTool::Comb) };
    assert_eq!(hair_step(&none).route, HairRoute::Idle);
    let asking = HairInput { pending_history_branch: true, ..idle_input(HairTool::Comb) };
    assert_eq!(hair_step(&asking).route, HairRoute::Idle);
    let blocked = HairInput { input_blocked: true, ..idle_input(HairTool::Comb) };
    let step = hair_step(&blocked);
    assert!(step.drop_comb_stroke);
    assert_eq!(step.route, HairRoute::Idle);
}

#[test]
fn the_comb_key_switches_and_auto_part_spares_the_plant() {
    let switch = HairInput { comb_key_pressed: true, ..idle_input(HairTool::Cut) };
    let step = hair_step(&switch);
    assert!(step.switch_to_comb);
    assert_eq!(step.route, HairRoute::Comb);
    let auto_plant = HairInput { auto_part: true, ..idle_input(HairTool::Plant) };
    assert_eq!(hair_step(&auto_plant).targets, HairTargets::Editable);
    let auto_cut = HairInput { auto_part: true, ..idle_input(HairTool::Cut) };
    assert_eq!(hair_step(&auto_cut).targets, HairTargets::UnderPointer);
    let released = HairInput { primary_down: false, primary_released: true, ..idle_input(HairTool::Cut) };
    assert!(hair_step(&released).end_stroke);
}

#[test]
fn a_stroke_keeps_to_the_parts_it_started_on() {
    let latched = vec![(1u64, true), (2, false), (3, true)];
    let held = auto_part_targets(true, true, Some(&latched), Some(9), None, false);
    assert_eq!(held.targets, vec![1, 3], "only the parts still editable");
    assert_eq!(held.latch, LatchUpdate::Keep);

    let fresh = auto_part_targets(true, true, None, Some(5), Some(6), true);
    assert_eq!(fresh.targets, vec![5, 6]);
    assert_eq!(fresh.latch, LatchUpdate::Latch);

    let same = auto_part_targets(false, true, None, Some(5), Some(5), true);
    assert_eq!(same.targets, vec![5], "a part under both sides counts once");

    let lifted = auto_part_targets(true, false, Some(&latched), Some(7), Some(8), false);
    assert_eq!(lifted.targets, vec![7], "without mirroring the mirror image is ignored");
    assert_eq!(lifted.latch, LatchUpdate::Clear);
}

#[test]
fn a_header_switch_flips_alone() {
    let mut flags = HairViewFlags {
        mirror_edit: false,
        auto_part: true,
        part_tint: false,
        show_points: false,
        physics: true,
        show_streams: false,
        hide_strands: false,
    };
    let before = flags;
    flags.flip(HairViewSwitch::ShowPoints);
    assert!(flags.show_points);
    assert_eq!(HairViewFlags { show_points: false, ..flags }, before);
    flags.flip(HairViewSwitch::ShowPoints);
    assert_eq!(flags, before);
    let toggles = hair_header_toggles(&flags);
    assert_eq!(toggles.len(), 7);
    assert_eq!(toggles[1].switch, HairViewSwitch::AutoPart);
    assert!(toggles[1].on);
    assert_eq!(toggles[6].icon, Icon::EyeClosed);
    assert!(flags.get(HairViewSwitch::Physics));
}

#[test]
fn the_overlays_lie_on_the_result_or_the_scalp() {
    assert_eq!(overlay_surface(true, true), OverlaySurface::Result);
    assert_eq!(overlay_surface(false, true), OverlaySurface::SelectedScalp);
    assert_eq!(overlay_surface(false, false), OverlaySurface::Missing);
    assert!(hair_authoring_visible(true, true));
    assert!(!hair_authoring_visible(true, false));
}

#[test]
fn the_hair_island_yields_to_the_capture_frame() {
    assert!(
        vkit_viewport::hair::hair_hud_shown(true, false, true),
        "a selected part earns the island, and the island outlasts the selection"
    );
    assert!(!vkit_viewport::hair::hair_hud_shown(true, true, true), "framing clears the stage");
    assert!(!vkit_viewport::hair::hair_hud_shown(true, false, false), "no room, no island");
    assert!(!vkit_viewport::hair::hair_hud_shown(false, false, true));
}

fn overlay_input() -> HairOverlayInput {
    HairOverlayInput {
        selected_scalp_posed: true,
        any_parts: true,
        furniture: true,
        tool: HairTool::Comb,
        show_streams: true,
        show_points: true,
        show_colliders: false,
        hide_strands: false,
        framing_thumbnail: false,
        physics: true,
        hair_editing: true,
    }
}

#[test]
fn the_rigidity_tool_draws_ribbons_in_place_of_streams() {
    assert_eq!(hair_overlay_plan(&overlay_input()).lines, StrandLines::Streams);
    let rigid = HairOverlayInput {
        tool: HairTool::Rigidity,
        ..overlay_input()
    };
    assert_eq!(hair_overlay_plan(&rigid).lines, StrandLines::Ribbons);
    let vertex = HairOverlayInput {
        tool: HairTool::Vertex,
        show_streams: false,
        ..overlay_input()
    };
    let plan = hair_overlay_plan(&vertex);
    assert_eq!(plan.lines, StrandLines::Nothing);
    assert!(plan.joint_handles);
}

#[test]
fn a_pane_without_furniture_draws_only_the_strands() {
    let bare = HairOverlayInput {
        furniture: false,
        show_colliders: true,
        ..overlay_input()
    };
    assert_eq!(
        hair_overlay_plan(&bare),
        HairOverlayPlan {
            scalp_guide: false,
            lines: StrandLines::Nothing,
            joint_handles: false,
            scalp_points: false,
            strands: true,
            simulate: true,
            colliders: false,
        }
    );
}

#[test]
fn hidden_strands_come_back_for_a_thumbnail_shot() {
    let hidden = HairOverlayInput {
        hide_strands: true,
        ..overlay_input()
    };
    assert!(!hair_overlay_plan(&hidden).strands);
    assert!(!hair_overlay_plan(&hidden).simulate);
    let shot = HairOverlayInput {
        framing_thumbnail: true,
        ..hidden
    };
    assert!(hair_overlay_plan(&shot).strands);
    let empty = HairOverlayInput {
        selected_scalp_posed: false,
        any_parts: false,
        ..overlay_input()
    };
    assert!(!hair_overlay_plan(&empty).strands);
    assert!(!hair_overlay_plan(&empty).scalp_guide);
}

#[test]
fn a_stroke_reuses_a_fresh_preview_and_a_new_tint_never_does() {
    let built = PreviewKey {
        revision: 7,
        tinted: false,
        lit: true,
    };
    let now = PreviewKey {
        revision: 8,
        ..built
    };
    assert!(reuse_cached_preview(built, built, false, false, false));
    assert!(reuse_cached_preview(built, now, true, false, true));
    assert!(!reuse_cached_preview(built, now, true, false, false), "a stale preview is rebuilt");
    assert!(!reuse_cached_preview(built, now, false, false, true), "outside an edit every revision shows");
    assert!(!reuse_cached_preview(built, now, true, true, true), "a thumbnail shot wants the exact hair");
    let tinted = PreviewKey {
        tinted: true,
        ..built
    };
    assert!(!reuse_cached_preview(built, tinted, true, false, true));
    assert!(preview_lit(true, false, true));
    assert!(!preview_lit(true, true, true));
}

#[test]
fn a_pending_rewind_question_stills_the_whole_frame() {
    let asking = HairInput {
        pending_history_branch: true,
        comb_key_pressed: true,
        pressed: true,
        primary_down: false,
        primary_released: true,
        ..idle_input(HairTool::Cut)
    };
    let step = hair_step(&asking);
    assert!(!step.size_sweep && !step.strength_sweep && !step.size_keys);
    assert!(!step.switch_to_comb && !step.drop_comb_stroke && !step.end_stroke && !step.repaint);
    assert_eq!(step.route, HairRoute::Idle);
}

#[test]
fn a_sweep_that_takes_the_pointer_ends_the_frame() {
    let free = hair_step(&idle_input(HairTool::Cut));
    assert!(free.size_sweep && free.strength_sweep && free.size_keys);
    let sized = hair_step(&HairInput { size_sweep_consumed: true, ..idle_input(HairTool::Cut) });
    assert!(sized.size_sweep && !sized.strength_sweep && !sized.size_keys);
    assert_eq!(sized.route, HairRoute::Idle);
    let strengthened = hair_step(&HairInput { strength_sweep_consumed: true, ..idle_input(HairTool::Cut) });
    assert!(strengthened.strength_sweep && !strengthened.size_keys);
    let blocked = hair_step(&HairInput { input_blocked: true, ..idle_input(HairTool::Cut) });
    assert!(blocked.strength_sweep && !blocked.size_keys && blocked.drop_comb_stroke);
}

#[test]
fn planting_with_nowhere_to_land_does_not_close_the_stroke() {
    let released = HairInput {
        primary_down: false,
        primary_released: true,
        plant_ready: false,
        ..idle_input(HairTool::Plant)
    };
    let step = hair_step(&released);
    assert_eq!(step.route, HairRoute::Idle);
    assert!(!step.end_stroke);
    assert!(hair_step(&HairInput { plant_ready: true, ..released }).end_stroke);
}

#[test]
fn the_comb_claims_its_pane_and_keeps_off_a_pane_that_does_not_hold_it() {
    let press = HairInput { pressed: true, ..idle_input(HairTool::Comb) };
    let step = hair_step(&press);
    assert!(step.claim_stroke_pane && !step.release_stroke_pane);
    assert_eq!(step.route, HairRoute::Comb);
    let elsewhere = HairInput { pane_owns_stroke: false, ..idle_input(HairTool::Puff) };
    let step = hair_step(&elsewhere);
    assert_eq!(step.route, HairRoute::Idle);
    assert!(!step.repaint);
    let up = HairInput { primary_down: false, ..idle_input(HairTool::Pinch) };
    assert!(hair_step(&up).release_stroke_pane);
    let cutting = HairInput { pressed: true, pane_owns_stroke: false, ..idle_input(HairTool::Cut) };
    let step = hair_step(&cutting);
    assert!(!step.claim_stroke_pane);
    assert_eq!(step.route, HairRoute::Cut, "only the comb family waits on the pane");
}
