//! The Branch Router: demultiplexes the capability-tagged stream by
//! payload-type id. The graph engine announces each newly observed payload
//! type with a structural notification; on the first sight of an id the
//! router resolves a recipe by codec name and plans a new branch, and on
//! every later sight it plans nothing, so exactly one branch exists per
//! payload type.

use vstd::assert_sets_equal;
use vstd::prelude::*;

use crate::caps::upper_bytes;
use crate::recipe::discard_stages;
use crate::recipe::lookup_recipe;
use crate::recipe::recipe_stages_for;
use crate::recipe::Recipe;

verus! {

/// Presentation-timeline offset applied to every new branch's output port, in
/// nanoseconds. A policy constant, not a computed value: it guards branch
/// warm-up against buffers that would otherwise appear to precede the graph's
/// nominal start time.
pub const TIMELINE_OFFSET_NS: u64 = 1000000000;

/// Instructions for attaching one new branch: which payload type it serves,
/// the recipe to build it from, and the timeline offset for its output port.
/// The branch must be running before the first buffer aimed at it is
/// admitted; a buffer arriving earlier is dropped, never a crash.
pub struct BranchPlan {
    pub payload_type: u8,
    pub recipe: Recipe,
    pub timeline_offset_ns: u64,
}

impl BranchPlan {
    pub open spec fn wf(self) -> bool {
        &&& self.recipe.wf()
        &&& self.timeline_offset_ns == TIMELINE_OFFSET_NS
    }
}

/// The router's only state: the set of payload-type ids already seen. Held by
/// one owner and consulted only inside the lookup-and-insert step.
pub struct BranchRouter {
    seen: Vec<u8>,
}

impl BranchRouter {
    /// The payload-type ids for which a branch already exists.
    pub closed spec fn seen_set(self) -> Set<u8> {
        Set::new(|q: u8| self.seen@.contains(q))
    }

    /// A fresh router: no payload type has been seen.
    pub fn new() -> (r: BranchRouter)
        ensures
            r.seen_set() == Set::<u8>::empty(),
    {
        let r = BranchRouter { seen: Vec::new() };
        proof {
            assert(r.seen_set() =~= Set::<u8>::empty());
        }
        r
    }

    fn contains(&self, pt: u8) -> (r: bool)
        ensures
            r == self.seen_set().contains(pt),
    {
        let mut i: usize = 0;
        while i < self.seen.len()
            invariant
                i <= self.seen@.len(),
                forall|j: int| 0 <= j < i ==> self.seen@[j] != pt,
            decreases self.seen@.len() - i,
        {
            if self.seen[i] == pt {
                return true;
            }
            i += 1;
        }
        false
    }

    /// Handles one structural notification: a payload-type id and the codec
    /// name from the capability snapshot attached to the new port. Returns a
    /// construction plan exactly on the first sight of the id; a repeated id
    /// plans nothing. Never an error: unknown codecs fall back to the discard
    /// recipe.
    pub fn on_new_payload_type(&mut self, pt: u8, codec: &Vec<u8>) -> (r: Option<BranchPlan>)
        ensures
            final (self).seen_set() == old(self).seen_set().insert(pt),
            r is Some <==> !old(self).seen_set().contains(pt),
            r matches Some(plan) ==> {
                &&& plan.payload_type == pt
                &&& plan.recipe.stages@ == recipe_stages_for(upper_bytes(codec@))
                &&& plan.recipe.sink_stage == 0
                &&& plan.wf()
            },
    {
        if self.contains(pt) {
            proof {
                assert(old(self).seen_set().contains(pt));
                assert_sets_equal!(self.seen_set() == old(self).seen_set().insert(pt));
            }
            None
        } else {
            self.seen.push(pt);
            proof {
                assert_sets_equal!(self.seen_set() == old(self).seen_set().insert(pt), q => {
                    if old(self).seen@.contains(q) {
                        let i = choose|i: int|
                            0 <= i < old(self).seen@.len() && old(self).seen@[i] == q;
                        assert(self.seen@[i] == q);
                    }
                    if q == pt {
                        assert(self.seen@[self.seen@.len() - 1] == pt);
                    }
                    if self.seen@.contains(q) {
                        let i = choose|i: int| 0 <= i < self.seen@.len() && self.seen@[i] == q;
                        if i < old(self).seen@.len() {
                            assert(old(self).seen@[i] == q);
                        }
                    }
                });
            }
            Some(
                BranchPlan {
                    payload_type: pt,
                    recipe: lookup_recipe(codec),
                    timeline_offset_ns: TIMELINE_OFFSET_NS,
                },
            )
        }
    }

    /// Contains a recipe construction failure to its payload type: when the
    /// engine cannot build the planned sub-graph, the branch degrades to a
    /// discard branch instead of taking the whole graph down.
    pub fn fallback_plan(pt: u8) -> (r: BranchPlan)
        ensures
            r.payload_type == pt,
            r.recipe.stages@ == discard_stages(),
            r.recipe.sink_stage == 0,
            r.wf(),
    {
        let stages = vec![crate::recipe::Stage::Discard];
        proof {
            assert(stages@ =~= discard_stages());
        }
        BranchPlan {
            payload_type: pt,
            recipe: Recipe { stages, sink_stage: 0 },
            timeline_offset_ns: TIMELINE_OFFSET_NS,
        }
    }
}

/// The router's step, as a mathematical function: the set of seen ids after a
/// notification, and whether the notification builds a branch.
pub open spec fn route_step(seen: Set<u8>, pt: u8) -> (Set<u8>, bool) {
    (seen.insert(pt), !seen.contains(pt))
}

/// How many branches a sequence of structural notifications builds for
/// payload type `k`, starting from a given set of seen ids.
pub open spec fn builds_for(seen: Set<u8>, pts: Seq<u8>, k: u8) -> nat
    decreases pts.len(),
{
    if pts.len() == 0 {
        0
    } else {
        (if pts[0] == k && !seen.contains(k) {
            1nat
        } else {
            0nat
        }) + builds_for(seen.insert(pts[0]), pts.drop_first(), k)
    }
}

/// Idempotent branch creation: over any sequence of structural notifications,
/// exactly one branch is built for a payload type that occurs in it and none
/// for one that does not, regardless of how often the type occurs.
pub proof fn lemma_branch_built_once(seen: Set<u8>, pts: Seq<u8>, k: u8)
    ensures
        builds_for(seen, pts, k) == if pts.contains(k) && !seen.contains(k) {
            1nat
        } else {
            0nat
        },
    decreases pts.len(),
{
    if pts.len() == 0 {
        assert(!pts.contains(k));
    } else {
        lemma_branch_built_once(seen.insert(pts[0]), pts.drop_first(), k);
        if pts.contains(k) {
            let i = choose|i: int| 0 <= i < pts.len() && pts[i] == k;
            if i > 0 {
                assert(pts.drop_first()[i - 1] == k);
                assert(pts.drop_first().contains(k));
            }
        }
        if pts.drop_first().contains(k) {
            let i = choose|i: int| 0 <= i < pts.drop_first().len() && pts.drop_first()[i] == k;
            assert(pts[i + 1] == k);
            assert(pts.contains(k));
        }
    }
}

} // verus!
