use std::collections::BTreeSet;

use vstd::prelude::*;

use crate::hair::HairTool;

verus! {

broadcast use {vstd::std_specs::btree::group_btree_axioms, vstd::laws_cmp::group_laws_cmp};

/// The scalp vertices under the brush, in the order they were gathered, that
/// hold a strand exactly when `want_planted` says so.
pub open spec fn spec_kept(raw: Seq<u32>, planted: Set<u32>, want_planted: bool) -> Seq<u32>
    decreases raw.len(),
{
    if raw.len() == 0 {
        seq![]
    } else {
        let before = spec_kept(raw.drop_last(), planted, want_planted);
        if planted.contains(raw.last()) == want_planted {
            before.push(raw.last())
        } else {
            before
        }
    }
}

/// Whether `vertex` is the mirror partner of a gathered vertex, not that
/// vertex itself, and holds a strand exactly when `want_planted` says so.
pub open spec fn spec_is_partner(
    raw: Seq<u32>,
    mirror_pair: Seq<u32>,
    planted: Set<u32>,
    want_planted: bool,
    vertex: u32,
) -> bool {
    &&& planted.contains(vertex) == want_planted
    &&& exists|k: int|
        0 <= k < raw.len() && raw[k] < mirror_pair.len() && #[trigger] mirror_pair[raw[k] as int] == vertex
            && vertex != raw[k]
}

/// Whether a sequence is strictly increasing, so holds each value once.
pub open spec fn strictly_increasing(s: Seq<u32>) -> bool {
    forall|i: int, j: int| 0 <= i < j < s.len() ==> s[i] < s[j]
}

/// A planting or erasing dab on the scalp.
#[derive(Clone, Debug, PartialEq, Eq)]
pub struct ScalpEdit {
    /// Take the strands away rather than plant them.
    pub unplant: bool,
    /// The scalp vertices to plant on or clear.
    pub vertices: Vec<u32>,
}

fn gather_kept(raw: &Vec<u32>, planted: &BTreeSet<u32>, want_planted: bool) -> (kept: Vec<u32>)
    ensures
        kept@ == spec_kept(raw@, planted@, want_planted),
{
    let mut kept: Vec<u32> = Vec::new();
    let mut index: usize = 0;
    while index < raw.len()
        invariant
            index <= raw@.len(),
            kept@ == spec_kept(raw@.subrange(0, index as int), planted@, want_planted),
        decreases raw@.len() - index,
    {
        let vertex = raw[index];
        proof {
            assert(raw@.subrange(0, index + 1).drop_last() == raw@.subrange(0, index as int));
        }
        if planted.contains(&vertex) == want_planted {
            kept.push(vertex);
        }
        index += 1;
    }
    proof {
        assert(raw@.subrange(0, raw@.len() as int) == raw@);
    }
    kept
}

/// Puts `vertex` into its place in a strictly increasing list, unless it is
/// there already.
fn insert_sorted(list: &mut Vec<u32>, vertex: u32)
    requires
        strictly_increasing(old(list)@),
    ensures
        strictly_increasing(final(list)@),
        forall|v: u32| final(list)@.contains(v) <==> (old(list)@.contains(v) || v == vertex),
{
    let mut at: usize = 0;
    while at < list.len() && list[at] < vertex
        invariant
            at <= list@.len(),
            forall|i: int| 0 <= i < at ==> list@[i] < vertex,
        decreases list@.len() - at,
    {
        at += 1;
    }
    if at < list.len() && list[at] == vertex {
        return;
    }
    let ghost before = list@;
    list.insert(at, vertex);
    proof {
        assert forall|i: int, j: int| 0 <= i < j < list@.len() implies list@[i] < list@[j] by {
            if j < at {
                assert(list@[i] == before[i] && list@[j] == before[j]);
            } else if j == at {
                assert(list@[i] == before[i]);
            } else if i < at {
                assert(list@[j] == before[j - 1]);
                assert(before[at as int] > vertex);
                if j - 1 > at {
                    assert(before[at as int] < before[j - 1]);
                }
            } else if i == at {
                assert(list@[j] == before[j - 1]);
                assert(before[at as int] > vertex);
                if j - 1 > at {
                    assert(before[at as int] < before[j - 1]);
                }
            } else {
                assert(list@[i] == before[i - 1] && list@[j] == before[j - 1]);
            }
        }
        assert forall|v: u32| list@.contains(v) <==> (before.contains(v) || v == vertex) by {
            if list@.contains(v) {
                let i = choose|i: int| 0 <= i < list@.len() && list@[i] == v;
                if i < at {
                    assert(before[i] == v);
                } else if i > at {
                    assert(before[i - 1] == v);
                }
            }
            if before.contains(v) {
                let i = choose|i: int| 0 <= i < before.len() && before[i] == v;
                if i < at {
                    assert(list@[i] == v);
                } else {
                    assert(list@[i + 1] == v);
                }
            }
            if v == vertex {
                assert(list@[at as int] == v);
            }
        }
        assert(before == old(list)@);
    }
    assert(forall|v: u32| list@.contains(v) <==> (old(list)@.contains(v) || v == vertex));
}

/// What a scalp brush dab does on one part, from the vertices under the brush.
///
/// Planting takes the gathered vertices that hold no strand yet, erasing those
/// that do, in the order they were gathered. With the mirror on, each
/// gathered vertex's partner across the head is taken too where it differs
/// from the vertex and is in the same state, and the list comes out in
/// increasing order with no vertex twice. Nothing to change is no edit.
///
/// `raw` is the scalp vertices under the brush, `planted` those of the part
/// that hold a strand, and `mirror_pair` each scalp vertex's partner.
pub fn scalp_brush_edit(
    tool: HairTool,
    raw: &Vec<u32>,
    planted: &BTreeSet<u32>,
    mirror_pair: &Vec<u32>,
    mirror: bool,
) -> (result: Option<ScalpEdit>)
    ensures
        ({
            let want = tool == HairTool::Erase;
            let kept = spec_kept(raw@, planted@, want);
            match result {
                None => if mirror {
                    kept.len() == 0 && forall|v: u32|
                        !spec_is_partner(raw@, mirror_pair@, planted@, want, v)
                } else {
                    kept.len() == 0
                },
                Some(edit) => {
                    &&& edit.unplant == want
                    &&& edit.vertices@.len() > 0
                    &&& !mirror ==> edit.vertices@ == kept
                    &&& mirror ==> strictly_increasing(edit.vertices@) && forall|v: u32|
                        edit.vertices@.contains(v) <==> (kept.contains(v) || spec_is_partner(
                            raw@,
                            mirror_pair@,
                            planted@,
                            want,
                            v,
                        ))
                },
            }
        }),
{
    let want = tool == HairTool::Erase;
    let kept = gather_kept(raw, planted, want);
    let vertices = if mirror {
        let mut sorted: Vec<u32> = Vec::new();
        let mut index: usize = 0;
        while index < kept.len()
            invariant
                index <= kept@.len(),
                strictly_increasing(sorted@),
                forall|v: u32| sorted@.contains(v) <==> kept@.subrange(0, index as int).contains(v),
            decreases kept@.len() - index,
        {
            let ghost prefix = kept@.subrange(0, index as int);
            insert_sorted(&mut sorted, kept[index]);
            proof {
                let next = kept@.subrange(0, index + 1);
                assert forall|v: u32| next.contains(v) <==> (prefix.contains(v) || v == kept@[index as int]) by {
                    if next.contains(v) {
                        let i = choose|i: int| 0 <= i < next.len() && next[i] == v;
                        if i < index {
                            assert(prefix[i] == v);
                        }
                    }
                    if prefix.contains(v) {
                        let i = choose|i: int| 0 <= i < prefix.len() && prefix[i] == v;
                        assert(next[i] == v);
                    }
                    if v == kept@[index as int] {
                        assert(next[index as int] == v);
                    }
                }
            }
            index += 1;
        }
        proof {
            assert(kept@.subrange(0, kept@.len() as int) == kept@);
        }
        let mut at: usize = 0;
        while at < raw.len()
            invariant
                at <= raw@.len(),
                strictly_increasing(sorted@),
                forall|v: u32|
                    sorted@.contains(v) <==> (kept@.contains(v) || spec_is_partner(
                        raw@.subrange(0, at as int),
                        mirror_pair@,
                        planted@,
                        want,
                        v,
                    )),
            decreases raw@.len() - at,
        {
            let vertex = raw[at];
            let ghost earlier = raw@.subrange(0, at as int);
            let ghost now = raw@.subrange(0, at + 1);
            let reaches = (vertex as usize) < mirror_pair.len();
            let mut added: Option<u32> = None;
            if reaches {
                let pair = mirror_pair[vertex as usize];
                if pair != vertex && planted.contains(&pair) == want {
                    insert_sorted(&mut sorted, pair);
                    added = Some(pair);
                }
            }
            proof {
                assert forall|v: u32|
                    spec_is_partner(now, mirror_pair@, planted@, want, v) <==> (spec_is_partner(
                        earlier,
                        mirror_pair@,
                        planted@,
                        want,
                        v,
                    ) || added == Some(v)) by {
                    if spec_is_partner(now, mirror_pair@, planted@, want, v) {
                        let k = choose|k: int|
                            0 <= k < now.len() && now[k] < mirror_pair@.len() && #[trigger] mirror_pair@[now[k] as int]
                                == v && v != now[k];
                        if k < at {
                            assert(earlier[k] == now[k]);
                        }
                    }
                    if spec_is_partner(earlier, mirror_pair@, planted@, want, v) {
                        let k = choose|k: int|
                            0 <= k < earlier.len() && earlier[k] < mirror_pair@.len()
                                && #[trigger] mirror_pair@[earlier[k] as int] == v && v != earlier[k];
                        assert(now[k] == earlier[k]);
                    }
                    if added == Some(v) {
                        assert(now[at as int] == vertex);
                        assert(mirror_pair@[now[at as int] as int] == v);
                    }
                }
            }
            at += 1;
        }
        proof {
            assert(raw@.subrange(0, raw@.len() as int) == raw@);
        }
        sorted
    } else {
        kept
    };
    if vertices.len() == 0 {
        proof {
            if mirror {
                assert forall|v: u32| !spec_is_partner(raw@, mirror_pair@, planted@, want, v) by {
                    if spec_is_partner(raw@, mirror_pair@, planted@, want, v) {
                        assert(vertices@.contains(v));
                    }
                }
                if spec_kept(raw@, planted@, want).len() > 0 {
                    let first = spec_kept(raw@, planted@, want)[0];
                    assert(spec_kept(raw@, planted@, want).contains(first));
                    assert(vertices@.contains(first));
                }
            }
        }
        return None;
    }
    Some(ScalpEdit { unplant: want, vertices })
}

} // verus!
