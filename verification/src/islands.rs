use vstd::prelude::*;

verus! {

/// A slider row of the result island.
#[derive(Clone, Copy, Debug, PartialEq, Eq, Structural, Hash)]
pub enum ResultIslandRow {
    /// The opacity of the scan laid over the result.
    ScanOverlay,
    /// The blend between the morph and its comparison.
    MorphCompare,
}

/// The rows of the result island, top to bottom: the scan overlay when a scan
/// is loaded, then the morph comparison when one is available; none while a
/// portrait is being framed, and no island at all without a row.
pub fn result_island_rows(framing_portrait: bool, scan_loaded: bool, compare_available: bool) -> (result:
    Vec<ResultIslandRow>)
    ensures
        result@ == (if framing_portrait {
            seq![]
        } else {
            (if scan_loaded {
                seq![ResultIslandRow::ScanOverlay]
            } else {
                seq![]
            }) + (if compare_available {
                seq![ResultIslandRow::MorphCompare]
            } else {
                seq![]
            })
        }),
{
    let mut rows: Vec<ResultIslandRow> = Vec::new();
    if framing_portrait {
        assert(rows@ =~= seq![]);
        return rows;
    }
    if scan_loaded {
        rows.push(ResultIslandRow::ScanOverlay);
    }
    let ghost first = rows@;
    if compare_available {
        rows.push(ResultIslandRow::MorphCompare);
    }
    let ghost overlay: Seq<ResultIslandRow> = if scan_loaded {
        seq![ResultIslandRow::ScanOverlay]
    } else {
        seq![]
    };
    let ghost compare: Seq<ResultIslandRow> = if compare_available {
        seq![ResultIslandRow::MorphCompare]
    } else {
        seq![]
    };
    assert(first =~= overlay);
    assert(rows@ =~= overlay + compare);
    rows
}

/// The fill of a reset button.
#[derive(Clone, Copy, Debug, PartialEq, Eq, Structural, Hash)]
pub enum ResetFill {
    /// Disabled while the application is busy.
    Surface,
    /// Red under the pointer, to say what a click throws away.
    Destructive,
    /// At rest.
    Raised,
}

/// A reset button turns red only when it can be pressed and the pointer is
/// on it.
pub fn reset_island_fill(enabled: bool, hovered_or_pressed: bool) -> (result: ResetFill)
    ensures
        result == (if !enabled {
            ResetFill::Surface
        } else if hovered_or_pressed {
            ResetFill::Destructive
        } else {
            ResetFill::Raised
        }),
{
    if !enabled {
        ResetFill::Surface
    } else if hovered_or_pressed {
        ResetFill::Destructive
    } else {
        ResetFill::Raised
    }
}

/// The pin island, with undo and the pin reset, stands once a scan is
/// loaded and nothing is busy.
pub fn pin_island_shown(scan_loaded: bool, busy: bool) -> (result: bool)
    ensures
        result == (scan_loaded && !busy),
{
    scan_loaded && !busy
}

} // verus!
