//! The registry lifecycle law. Each tracker event changes whether a
//! given tag is alive according to `spec_alive_step`, and
//! `add_tracker_event` guarantees exactly that step for the registry's
//! key set, while `add_game_event` never changes it. Folding the step
//! over a finite prefix of tracker events therefore describes the
//! registry after that prefix; this module proves what the fold means:
//! a tag is alive exactly when it was created (init or born) more
//! recently than it died, so every died tag has been removed.

use vstd::prelude::*;

use crate::emit::spec_alive_step;
use crate::events::TrackerPayloadV;
use crate::registry::UnitRecord;
use crate::tag::{lemma_distinct_tags_distinct_keys, tag_key, UnitTag};

verus! {

/// Tag identity at the registry: removing one tag never touches a
/// different tag — in particular, a died event for one recycle counter
/// never removes, nor alters, a live unit with another recycle counter
/// at the same slot index.
pub proof fn lemma_tag_identity(m: Map<u64, UnitRecord>, dead: UnitTag, other: UnitTag)
    requires
        dead != other,
        m.contains_key(tag_key(other)),
    ensures
        m.remove(tag_key(dead)).contains_key(tag_key(other)),
        m.remove(tag_key(dead))[tag_key(other)] == m[tag_key(other)],
{
    lemma_distinct_tags_distinct_keys(dead, other);
}

/// Whether a tag is alive after a finite prefix of tracker events,
/// starting from an empty registry: the fold of the per-event step.
pub open spec fn alive_after(evs: Seq<TrackerPayloadV>, t: UnitTag) -> bool
    decreases evs.len(),
{
    if evs.len() == 0 {
        false
    } else {
        spec_alive_step(alive_after(evs.drop_last(), t), evs.last(), t)
    }
}

/// Whether an event brings the tag to life: an init or born event for
/// exactly this tag.
pub open spec fn creates(p: TrackerPayloadV, t: UnitTag) -> bool {
    match p {
        TrackerPayloadV::UnitInit { tag, .. } => tag == t,
        TrackerPayloadV::UnitBorn { tag, .. } => tag == t,
        _ => false,
    }
}

/// Whether an event ends the tag's life: a died event for exactly this
/// tag.
pub open spec fn kills(p: TrackerPayloadV, t: UnitTag) -> bool {
    match p {
        TrackerPayloadV::UnitDied { tag, .. } => tag == t,
        _ => false,
    }
}

/// Whether event `i` created the tag and no later event killed it.
pub open spec fn lives_since(evs: Seq<TrackerPayloadV>, t: UnitTag, i: int) -> bool {
    &&& 0 <= i < evs.len()
    &&& creates(evs[i], t)
    &&& forall|j: int| i < j < evs.len() ==> !kills(#[trigger] evs[j], t)
}

/// The registry lifecycle law: after any finite prefix of tracker
/// events, a tag is alive exactly when some event created it (init or
/// born) and no later event killed it — every tag present was created
/// more recently than it died, and every died tag is gone.
pub proof fn lemma_registry_lifecycle(evs: Seq<TrackerPayloadV>, t: UnitTag)
    ensures
        alive_after(evs, t) <==> exists|i: int| #[trigger] lives_since(evs, t, i),
    decreases evs.len(),
{
    if evs.len() == 0 {
        assert forall|i: int| !#[trigger] lives_since(evs, t, i) by {}
    } else {
        let pre = evs.drop_last();
        let last = evs.last();
        lemma_registry_lifecycle(pre, t);
        if creates(last, t) {
            assert(alive_after(evs, t));
            assert(lives_since(evs, t, evs.len() - 1));
        } else if kills(last, t) {
            assert(!alive_after(evs, t));
            assert forall|i: int| !#[trigger] lives_since(evs, t, i) by {
                if 0 <= i < evs.len() && creates(evs[i], t) {
                    assert(i < evs.len() - 1);
                    assert(kills(evs[evs.len() - 1], t));
                }
            }
        } else {
            if alive_after(pre, t) {
                let i = choose|i: int| #[trigger] lives_since(pre, t, i);
                assert(lives_since(evs, t, i)) by {
                    assert(evs[i] == pre[i]);
                    assert forall|j: int| i < j < evs.len() implies !kills(
                        #[trigger] evs[j],
                        t,
                    ) by {
                        if j < evs.len() - 1 {
                            assert(evs[j] == pre[j]);
                            assert(!kills(pre[j], t));
                        } else {
                            assert(evs[j] == last);
                        }
                    }
                }
                assert(alive_after(evs, t));
            }
            if exists|i: int| #[trigger] lives_since(evs, t, i) {
                let i = choose|i: int| #[trigger] lives_since(evs, t, i);
                assert(i < evs.len() - 1) by {
                    assert(!creates(evs[evs.len() - 1], t));
                }
                assert(lives_since(pre, t, i)) by {
                    assert(pre[i] == evs[i]);
                    assert forall|j: int| i < j < pre.len() implies !kills(
                        #[trigger] pre[j],
                        t,
                    ) by {
                        assert(pre[j] == evs[j]);
                        assert(!kills(evs[j], t));
                    }
                }
                assert(alive_after(pre, t));
                assert(alive_after(evs, t));
            }
        }
    }
}

} // verus!
