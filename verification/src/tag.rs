//! Stable unit identity: a recycled slot index paired with a recycle
//! counter. Two tags name the same unit exactly when both components
//! match, so a slot that is reused after a death never aliases the
//! earlier occupant.

use vstd::prelude::*;

verus! {

/// Multiplier that packs a tag into one integer key: the index occupies
/// the high half, the recycle counter the low half, so packing is
/// injective over all 32-bit component values.
pub const TAG_KEY_BASE: u64 = 0x1_0000_0000;

/// A stable identifier for one unit instance.
#[derive(Clone, Copy, PartialEq, Eq, Structural, Hash, Debug)]
pub struct UnitTag {
    /// The recycled slot number.
    pub index: u32,
    /// Incremented each time the slot is reused.
    pub recycle: u32,
}

/// The packed integer key of a tag: `index * TAG_KEY_BASE + recycle`.
pub open spec fn spec_tag_key(t: UnitTag) -> int {
    (t.index as int) * (TAG_KEY_BASE as int) + (t.recycle as int)
}

/// The packed key as the 64-bit value the registry is keyed by; the
/// packing always fits.
pub open spec fn tag_key(t: UnitTag) -> u64 {
    spec_tag_key(t) as u64
}

impl UnitTag {
    /// Packs the tag into one integer key; the packing is injective
    /// (see `lemma_tag_key_injective`), so the key can stand for the
    /// tag in a keyed table.
    pub fn key(&self) -> (k: u64)
        ensures
            k as int == spec_tag_key(*self),
            k == tag_key(*self),
    {
        (self.index as u64) * TAG_KEY_BASE + (self.recycle as u64)
    }
}

/// Packing a tag into its integer key is injective: equal keys can only
/// come from equal tags, so two units that share a slot index but
/// differ in recycle counter never collide in a keyed table.
pub proof fn lemma_tag_key_injective(a: UnitTag, b: UnitTag)
    requires
        spec_tag_key(a) == spec_tag_key(b),
    ensures
        a == b,
{
    assert(a.index == b.index && a.recycle == b.recycle) by (nonlinear_arith)
        requires
            (a.index as int) * (TAG_KEY_BASE as int) + (a.recycle as int) == (b.index as int) * (
            TAG_KEY_BASE as int) + (b.recycle as int),
            a.recycle < TAG_KEY_BASE,
            b.recycle < TAG_KEY_BASE,
            TAG_KEY_BASE == 0x1_0000_0000,
    ;
}

/// Multiplier of the game-stream tag encoding: game events name a unit
/// by `index * GAME_TAG_BASE + recycle`, with the recycle counter in
/// the low eighteen bits and the slot index above them.
pub const GAME_TAG_BASE: i64 = 0x40000;

/// Highest slot index the game-stream tag encoding can carry.
pub const GAME_TAG_INDEX_LIMIT: u32 = 0x4000;

/// The game-stream form of a tag.
pub open spec fn spec_game_tag(t: UnitTag) -> int {
    (t.index as int) * (GAME_TAG_BASE as int) + (t.recycle as int)
}

/// Packs a tag into the form the game stream uses.
pub fn game_tag(t: UnitTag) -> (r: i64)
    requires
        t.index < GAME_TAG_INDEX_LIMIT,
        t.recycle < GAME_TAG_BASE,
    ensures
        r == spec_game_tag(t),
        0 <= r,
{
    (t.index as i64) * GAME_TAG_BASE + (t.recycle as i64)
}

/// Recovers the slot index from a game-stream tag.
pub fn game_tag_index(packed: i64) -> (r: u32)
    requires
        exists|t: UnitTag|
            t.index < GAME_TAG_INDEX_LIMIT && t.recycle < GAME_TAG_BASE && packed
                == #[trigger] spec_game_tag(t),
    ensures
        forall|t: UnitTag|
            t.index < GAME_TAG_INDEX_LIMIT && t.recycle < GAME_TAG_BASE && packed
                == #[trigger] spec_game_tag(t) ==> r == t.index,
{
    proof {
        let t = choose|t: UnitTag|
            t.index < GAME_TAG_INDEX_LIMIT && t.recycle < GAME_TAG_BASE && packed
                == #[trigger] spec_game_tag(t);
        lemma_game_tag_components(t);
        assert forall|t2: UnitTag|
            t2.index < GAME_TAG_INDEX_LIMIT && t2.recycle < GAME_TAG_BASE && packed
                == #[trigger] spec_game_tag(t2) implies t2.index == t.index by {
            lemma_game_tag_components(t2);
        }
    }
    ((packed / GAME_TAG_BASE) as u32)
}

/// Recovers the recycle counter from a game-stream tag.
pub fn game_tag_recycle(packed: i64) -> (r: u32)
    requires
        exists|t: UnitTag|
            t.index < GAME_TAG_INDEX_LIMIT && t.recycle < GAME_TAG_BASE && packed
                == #[trigger] spec_game_tag(t),
    ensures
        forall|t: UnitTag|
            t.index < GAME_TAG_INDEX_LIMIT && t.recycle < GAME_TAG_BASE && packed
                == #[trigger] spec_game_tag(t) ==> r == t.recycle,
{
    proof {
        let t = choose|t: UnitTag|
            t.index < GAME_TAG_INDEX_LIMIT && t.recycle < GAME_TAG_BASE && packed
                == #[trigger] spec_game_tag(t);
        lemma_game_tag_components(t);
        assert forall|t2: UnitTag|
            t2.index < GAME_TAG_INDEX_LIMIT && t2.recycle < GAME_TAG_BASE && packed
                == #[trigger] spec_game_tag(t2) implies t2.recycle == t.recycle by {
            lemma_game_tag_components(t2);
        }
    }
    ((packed % GAME_TAG_BASE) as u32)
}

/// Division and remainder by the base recover exactly the components of
/// a game-stream tag: the encoding round-trips.
pub proof fn lemma_game_tag_components(t: UnitTag)
    requires
        t.index < GAME_TAG_INDEX_LIMIT,
        t.recycle < GAME_TAG_BASE,
    ensures
        spec_game_tag(t) / (GAME_TAG_BASE as int) == t.index,
        spec_game_tag(t) % (GAME_TAG_BASE as int) == t.recycle,
        0 <= spec_game_tag(t) < 0x4000_0000_0000,
{
    assert(spec_game_tag(t) / (GAME_TAG_BASE as int) == t.index && spec_game_tag(t) % (
    GAME_TAG_BASE as int) == t.recycle && 0 <= spec_game_tag(t) < 0x4000_0000_0000)
        by (nonlinear_arith)
        requires
            t.index < GAME_TAG_INDEX_LIMIT,
            t.recycle < GAME_TAG_BASE,
            GAME_TAG_BASE == 0x40000,
            GAME_TAG_INDEX_LIMIT == 0x4000,
            spec_game_tag(t) == (t.index as int) * (GAME_TAG_BASE as int) + (t.recycle as int),
    ;
}

/// Tags that differ in either component have different packed keys.
pub proof fn lemma_distinct_tags_distinct_keys(a: UnitTag, b: UnitTag)
    requires
        a != b,
    ensures
        spec_tag_key(a) != spec_tag_key(b),
        tag_key(a) != tag_key(b),
{
    if spec_tag_key(a) == spec_tag_key(b) {
        lemma_tag_key_injective(a, b);
    }
    assert(0 <= spec_tag_key(a) < 0x1_0000_0000_0000_0000) by (nonlinear_arith)
        requires
            a.index < TAG_KEY_BASE && a.recycle < TAG_KEY_BASE && TAG_KEY_BASE == 0x1_0000_0000,
            spec_tag_key(a) == (a.index as int) * (TAG_KEY_BASE as int) + (a.recycle as int),
    ;
    assert(0 <= spec_tag_key(b) < 0x1_0000_0000_0000_0000) by (nonlinear_arith)
        requires
            b.index < TAG_KEY_BASE && b.recycle < TAG_KEY_BASE && TAG_KEY_BASE == 0x1_0000_0000,
            spec_tag_key(b) == (b.index as int) * (TAG_KEY_BASE as int) + (b.recycle as int),
    ;
}

} // verus!
