use std::collections::BTreeSet;

use vkit_viewport::selection::{apply_pick, pick_intent, PickIntent};

fn selection(of: &[u32]) -> BTreeSet<u32> {
    of.iter().copied().collect()
}

#[test]
fn clicking_a_point_takes_it_and_clicking_past_them_all_lets_go() {
    let mut held = selection(&[3, 4]);
    apply_pick(&mut held, Some(9), PickIntent::Replace);
    assert_eq!(held, selection(&[9]), "a plain click starts over");

    apply_pick(&mut held, None, PickIntent::Replace);
    assert!(held.is_empty(), "clicking past every point kept a selection");
}

#[test]
fn the_add_and_remove_holds_leave_the_rest_of_the_selection_alone() {
    let mut held = selection(&[1, 2]);
    apply_pick(&mut held, Some(3), PickIntent::Toggle);
    assert_eq!(held, selection(&[1, 2, 3]));

    apply_pick(&mut held, Some(2), PickIntent::Toggle);
    assert_eq!(held, selection(&[1, 3]), "toggling a held point drops it");

    apply_pick(&mut held, Some(1), PickIntent::Remove);
    assert_eq!(held, selection(&[3]));

    apply_pick(&mut held, Some(1), PickIntent::Remove);
    assert_eq!(held, selection(&[3]), "removing what is not there changed it");

    apply_pick(&mut held, None, PickIntent::Toggle);
    apply_pick(&mut held, None, PickIntent::Remove);
    assert_eq!(held, selection(&[3]), "a miss while holding a modifier must not clear");
}

#[test]
fn the_add_key_wins_over_the_remove_key() {
    assert_eq!(pick_intent(true, true), PickIntent::Toggle);
    assert_eq!(pick_intent(false, true), PickIntent::Remove);
    assert_eq!(pick_intent(false, false), PickIntent::Replace);
}

#[test]
fn toggling_the_same_point_twice_restores_the_selection() {
    let mut held = selection(&[5, 8]);
    apply_pick(&mut held, Some(6), PickIntent::Toggle);
    apply_pick(&mut held, Some(6), PickIntent::Toggle);
    assert_eq!(held, selection(&[5, 8]));
    apply_pick(&mut held, Some(5), PickIntent::Toggle);
    apply_pick(&mut held, Some(5), PickIntent::Toggle);
    assert_eq!(held, selection(&[5, 8]));
}
