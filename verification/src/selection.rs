use std::collections::BTreeSet;

use vstd::prelude::*;

verus! {

broadcast use vstd::std_specs::btree::group_btree_axioms;

/// What a click on a point does to the selection, by the keys held.
#[derive(Clone, Copy, Debug, PartialEq, Eq, Structural, Hash)]
pub enum PickIntent {
    /// A plain click starts over.
    Replace,
    /// The add key flips the clicked point in or out.
    Toggle,
    /// The remove key takes the clicked point out.
    Remove,
}

/// The intent of a click: the add key wins over the remove key, and a plain
/// click replaces.
pub fn pick_intent(add_held: bool, remove_held: bool) -> (result: PickIntent)
    ensures
        result == (if add_held {
            PickIntent::Toggle
        } else if remove_held {
            PickIntent::Remove
        } else {
            PickIntent::Replace
        }),
{
    if add_held {
        PickIntent::Toggle
    } else if remove_held {
        PickIntent::Remove
    } else {
        PickIntent::Replace
    }
}

/// The selection after a click that picked `picked` (or nothing) with `intent`.
pub open spec fn spec_after_pick<T>(selection: Set<T>, picked: Option<T>, intent: PickIntent) -> Set<
    T,
> {
    match (picked, intent) {
        (None, PickIntent::Replace) => Set::empty(),
        (None, _) => selection,
        (Some(point), PickIntent::Replace) => Set::empty().insert(point),
        (Some(point), PickIntent::Toggle) => if selection.contains(point) {
            selection.remove(point)
        } else {
            selection.insert(point)
        },
        (Some(point), PickIntent::Remove) => selection.remove(point),
    }
}

/// Applies a click to a selection of points.
///
/// A plain click on a point keeps only that point and a plain click past
/// every point lets go of all of them; the add key flips the clicked point
/// and the remove key drops it, leaving the rest alone, and a miss while
/// either is held changes nothing.
pub fn apply_pick<T: Ord + Copy>(selection: &mut BTreeSet<T>, picked: Option<T>, intent: PickIntent)
    requires
        vstd::laws_cmp::obeys_cmp::<T>(),
    ensures
        final(selection)@ == spec_after_pick(old(selection)@, picked, intent),
{
    match (picked, intent) {
        (None, PickIntent::Replace) => selection.clear(),
        (None, _) => {},
        (Some(point), PickIntent::Replace) => {
            selection.clear();
            selection.insert(point);
        },
        (Some(point), PickIntent::Toggle) => {
            if !selection.remove(&point) {
                selection.insert(point);
            }
        },
        (Some(point), PickIntent::Remove) => {
            selection.remove(&point);
        },
    }
}

/// Flipping the same point twice leaves the selection as it was, and neither
/// holding key touches any point but the clicked one.
pub proof fn lemma_holds_touch_only_the_clicked_point<T>(selection: Set<T>, point: T, other: T)
    requires
        other != point,
    ensures
        spec_after_pick(
            spec_after_pick(selection, Some(point), PickIntent::Toggle),
            Some(point),
            PickIntent::Toggle,
        ) == selection,
        spec_after_pick(selection, Some(point), PickIntent::Toggle).contains(other)
            == selection.contains(other),
        spec_after_pick(selection, Some(point), PickIntent::Remove).contains(other)
            == selection.contains(other),
        !spec_after_pick(selection, Some(point), PickIntent::Remove).contains(point),
        spec_after_pick(selection, None, PickIntent::Toggle) == selection,
        spec_after_pick(selection, None, PickIntent::Remove) == selection,
        spec_after_pick(selection, None, PickIntent::Replace) == Set::<T>::empty(),
        spec_after_pick(selection, Some(point), PickIntent::Replace) == Set::<T>::empty().insert(
            point,
        ),
{
    let once = spec_after_pick(selection, Some(point), PickIntent::Toggle);
    if selection.contains(point) {
        assert(once.insert(point) =~= selection);
    } else {
        assert(once.remove(point) =~= selection);
    }
}

} // verus!
