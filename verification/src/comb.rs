use vstd::prelude::*;

use crate::hair::HairTool;

verus! {

/// How the comb family moves the strands under the brush.
#[derive(Clone, Copy, Debug, PartialEq, Eq, Structural, Hash)]
pub enum CombAction {
    /// Follow the pointer's drag.
    Drag,
    /// Even out the bends.
    Smooth,
    /// Draw the strands towards the brush centre, or apart when inverted.
    Pinch { spread: bool },
    /// Lift the strands off the head, or press them down when inverted.
    Puff { flatten: bool },
}

pub open spec fn spec_comb_action(tool: HairTool, smoothing: bool, inverting: bool) -> CombAction {
    if tool == HairTool::Puff && !smoothing {
        CombAction::Puff { flatten: inverting }
    } else if tool == HairTool::Pinch && !smoothing {
        CombAction::Pinch { spread: inverting }
    } else if smoothing {
        CombAction::Smooth
    } else {
        CombAction::Drag
    }
}

/// What a comb-family stroke does this frame: the smooth key turns any of
/// them into smoothing, the invert key turns puffing into flattening and
/// pinching into spreading, and the comb drags, as does the rigidity tool,
/// which strokes with the comb.
pub fn comb_action(tool: HairTool, smoothing: bool, inverting: bool) -> (result: CombAction)
    ensures
        result == spec_comb_action(tool, smoothing, inverting),
{
    let puffing = tool == HairTool::Puff && !smoothing;
    let pinching = tool == HairTool::Pinch && !smoothing;
    if puffing {
        CombAction::Puff { flatten: inverting }
    } else if pinching {
        CombAction::Pinch { spread: inverting }
    } else if smoothing {
        CombAction::Smooth
    } else {
        CombAction::Drag
    }
}

/// What the brush found on one part this frame.
#[derive(Clone, Copy, Debug, PartialEq, Eq, Structural, Hash)]
pub struct CombPartFacts {
    /// The part still exists.
    pub part_known: bool,
    /// The brush lies on the part's strand cloud, or on its mirror image.
    pub brush_hit: bool,
    /// Some strand past its root lies under the brush.
    pub strands_caught: bool,
}

/// The pointer as the comb reads it this frame.
#[derive(Clone, Copy, Debug, PartialEq, Eq, Structural, Hash)]
pub struct CombPointer<P> {
    /// Where the pointer is, if anywhere.
    pub at: Option<P>,
    /// The primary button went down this frame.
    pub pressed: bool,
    /// The pointer is over the viewport.
    pub hovered: bool,
    /// The primary button is held.
    pub down: bool,
}

/// The comb on one part: the stroke it remembers afterwards, and the point
/// its strands are dragged from, when it moves them.
///
/// A press over the viewport starts the stroke at the pointer; letting go
/// forgets it. Without a stroke or a pointer, or on a part that is gone,
/// nothing moves. Otherwise the strands under the brush move, dragged from
/// where the stroke last was, and the part that advances the stroke moves
/// it on to the pointer whether or not it caught a strand.
pub open spec fn spec_comb_part<P>(
    stored: Option<P>,
    pointer: CombPointer<P>,
    facts: CombPartFacts,
    advance: bool,
) -> (Option<P>, Option<P>) {
    let started = if pointer.pressed && pointer.hovered && pointer.at is Some {
        pointer.at
    } else {
        stored
    };
    let moved_on = if advance {
        pointer.at
    } else {
        started
    };
    if !pointer.down {
        (None, None)
    } else if started is None || pointer.at is None || !facts.part_known {
        (started, None)
    } else if !facts.brush_hit || !facts.strands_caught {
        (moved_on, None)
    } else {
        (moved_on, started)
    }
}

/// The comb over the first `upto` parts; the last part of all advances the
/// stroke.
pub open spec fn spec_comb_run<P>(
    stored: Option<P>,
    pointer: CombPointer<P>,
    parts: Seq<CombPartFacts>,
    upto: nat,
) -> (Option<P>, Seq<Option<P>>)
    decreases upto,
{
    if upto == 0 {
        (stored, seq![])
    } else {
        let before = spec_comb_run(stored, pointer, parts, (upto - 1) as nat);
        let step = spec_comb_part(before.0, pointer, parts[upto - 1], upto == parts.len());
        (step.0, before.1.push(step.1))
    }
}

/// A frame of the comb family: the stroke remembered afterwards and, for each
/// targeted part, the point its strands are dragged from, if they move.
///
/// With no part to brush the stroke is still followed: it is forgotten when
/// the button is up, and otherwise a press over the viewport, or a stroke
/// already going, puts it at the pointer.
pub open spec fn spec_comb_frame<P>(
    stored: Option<P>,
    pointer: CombPointer<P>,
    parts: Seq<CombPartFacts>,
) -> (Option<P>, Seq<Option<P>>) {
    if parts.len() == 0 {
        if !pointer.down {
            (None, seq![])
        } else if pointer.at is Some && ((pointer.pressed && pointer.hovered) || stored is Some) {
            (pointer.at, seq![])
        } else {
            (stored, seq![])
        }
    } else {
        spec_comb_run(stored, pointer, parts, parts.len())
    }
}

fn comb_part<P: Copy>(stored: Option<P>, pointer: CombPointer<P>, facts: CombPartFacts, advance: bool) -> (result:
    (Option<P>, Option<P>))
    ensures
        result == spec_comb_part(stored, pointer, facts, advance),
{
    let started = if pointer.pressed && pointer.hovered && pointer.at.is_some() {
        pointer.at
    } else {
        stored
    };
    if !pointer.down {
        return (None, None);
    }
    if started.is_none() || pointer.at.is_none() || !facts.part_known {
        return (started, None);
    }
    let moved_on = if advance {
        pointer.at
    } else {
        started
    };
    if !facts.brush_hit || !facts.strands_caught {
        (moved_on, None)
    } else {
        (moved_on, started)
    }
}

/// Runs a frame of the comb family over the targeted parts, in order.
pub fn comb_frame<P: Copy>(stored: Option<P>, pointer: CombPointer<P>, parts: &Vec<CombPartFacts>) -> (result:
    (Option<P>, Vec<Option<P>>))
    ensures
        result.0 == spec_comb_frame(stored, pointer, parts@).0,
        result.1@ == spec_comb_frame(stored, pointer, parts@).1,
{
    if parts.len() == 0 {
        if !pointer.down {
            return (None, Vec::new());
        }
        if pointer.at.is_some() && ((pointer.pressed && pointer.hovered) || stored.is_some()) {
            return (pointer.at, Vec::new());
        }
        return (stored, Vec::new());
    }
    let mut memory = stored;
    let mut origins: Vec<Option<P>> = Vec::new();
    let mut index: usize = 0;
    while index < parts.len()
        invariant
            index <= parts@.len(),
            memory == spec_comb_run(stored, pointer, parts@, index as nat).0,
            origins@ == spec_comb_run(stored, pointer, parts@, index as nat).1,
        decreases parts@.len() - index,
    {
        let step = comb_part(memory, pointer, parts[index], index + 1 == parts.len());
        memory = step.0;
        origins.push(step.1);
        index += 1;
    }
    (memory, origins)
}

/// Every part the comb moves in one frame is dragged from the same point:
/// where the stroke was before the frame, or the pointer of a press that
/// starts it. The stroke moves on to the pointer only once all parts are
/// brushed.
pub proof fn lemma_one_frame_drags_every_part_from_one_point<P>(
    stored: Option<P>,
    pointer: CombPointer<P>,
    parts: Seq<CombPartFacts>,
)
    ensures
        ({
            let origin = if pointer.pressed && pointer.hovered && pointer.at is Some {
                pointer.at
            } else {
                stored
            };
            let frame = spec_comb_frame(stored, pointer, parts);
            &&& frame.1.len() == parts.len()
            &&& forall|i: int| 0 <= i < parts.len() && #[trigger] frame.1[i] is Some ==> frame.1[i] == origin
        }),
{
    let origin = if pointer.pressed && pointer.hovered && pointer.at is Some {
        pointer.at
    } else {
        stored
    };
    if parts.len() > 0 {
        let last = (parts.len() - 1) as nat;
        lemma_run_before_the_last(stored, pointer, parts, last);
        let before = spec_comb_run(stored, pointer, parts, last);
        let whole = spec_comb_run(stored, pointer, parts, parts.len());
        assert(whole.1 == before.1.push(spec_comb_part(before.0, pointer, parts[last as int], true).1));
        assert forall|i: int| 0 <= i < parts.len() && #[trigger] whole.1[i] is Some implies whole.1[i]
            == origin by {
            if i < last {
                assert(whole.1[i] == before.1[i]);
            }
        }
    }
}

proof fn lemma_run_before_the_last<P>(
    stored: Option<P>,
    pointer: CombPointer<P>,
    parts: Seq<CombPartFacts>,
    upto: nat,
)
    requires
        upto < parts.len(),
    ensures
        ({
            let origin = if pointer.pressed && pointer.hovered && pointer.at is Some {
                pointer.at
            } else {
                stored
            };
            let run = spec_comb_run(stored, pointer, parts, upto);
            &&& run.1.len() == upto
            &&& (pointer.down ==> run.0 == if upto == 0 { stored } else { origin })
            &&& forall|i: int| 0 <= i < upto && #[trigger] run.1[i] is Some ==> run.1[i] == origin
        }),
    decreases upto,
{
    if upto > 0 {
        lemma_run_before_the_last(stored, pointer, parts, (upto - 1) as nat);
        let before = spec_comb_run(stored, pointer, parts, (upto - 1) as nat);
        let run = spec_comb_run(stored, pointer, parts, upto);
        assert forall|i: int| 0 <= i < upto && #[trigger] run.1[i] is Some implies run.1[i] == if pointer.pressed
            && pointer.hovered && pointer.at is Some {
            pointer.at
        } else {
            stored
        } by {
            if i < upto - 1 {
                assert(run.1[i] == before.1[i]);
            }
        }
    }
}

/// Letting go of the button forgets the stroke and moves nothing.
pub proof fn lemma_letting_go_forgets_the_stroke<P>(
    stored: Option<P>,
    pointer: CombPointer<P>,
    parts: Seq<CombPartFacts>,
)
    requires
        !pointer.down,
    ensures
        spec_comb_frame(stored, pointer, parts).0 is None,
        forall|i: int|
            0 <= i < spec_comb_frame(stored, pointer, parts).1.len() ==> (#[trigger] spec_comb_frame(
                stored,
                pointer,
                parts,
            ).1[i]) is None,
{
    if parts.len() > 0 {
        lemma_up_run(stored, pointer, parts, parts.len());
    }
}

proof fn lemma_up_run<P>(stored: Option<P>, pointer: CombPointer<P>, parts: Seq<CombPartFacts>, upto: nat)
    requires
        !pointer.down,
        upto <= parts.len(),
    ensures
        upto > 0 ==> spec_comb_run(stored, pointer, parts, upto).0 is None,
        spec_comb_run(stored, pointer, parts, upto).1.len() == upto,
        forall|i: int|
            0 <= i < upto ==> (#[trigger] spec_comb_run(stored, pointer, parts, upto).1[i]) is None,
    decreases upto,
{
    if upto > 0 {
        lemma_up_run(stored, pointer, parts, (upto - 1) as nat);
        let before = spec_comb_run(stored, pointer, parts, (upto - 1) as nat);
        let run = spec_comb_run(stored, pointer, parts, upto);
        assert forall|i: int| 0 <= i < upto implies (#[trigger] run.1[i]) is None by {
            if i < upto - 1 {
                assert(run.1[i] == before.1[i]);
            }
        }
    }
}

} // verus!
