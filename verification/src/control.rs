//! Per-player control groups: ten addressable groups of unit tags plus
//! the reserved active-selection group, and the six transitions that
//! mutate them. The active-selection group is always replaced wholesale,
//! never merged; the "steal" variants first remove the selected tags
//! from every other addressable group.

use vstd::prelude::*;

use crate::events::ControlGroupOp;
use crate::tag::UnitTag;

verus! {

/// Groups per player: ten addressable plus the active selection.
pub const CONTROL_GROUP_COUNT: usize = 11;

/// The reserved group index that always mirrors the player's current
/// selection.
pub const ACTIVE_UNITS_GROUP_IDX: usize = 10;

/// The tags of `s` that are not in `remove`, in order.
pub open spec fn tags_not_in(s: Seq<UnitTag>, remove: Seq<UnitTag>) -> Seq<UnitTag> {
    s.filter(|t: UnitTag| !remove.contains(t))
}

/// The tags of `s` other than `tag`, in order.
pub open spec fn tags_without(s: Seq<UnitTag>, tag: UnitTag) -> Seq<UnitTag> {
    s.filter(|t: UnitTag| t != tag)
}

/// `base` extended by the tags of `add` that are not yet present,
/// left to right; the result has a duplicate only where `base` had one.
pub open spec fn seq_append_dedup(base: Seq<UnitTag>, add: Seq<UnitTag>) -> Seq<UnitTag>
    decreases add.len(),
{
    if add.len() == 0 {
        base
    } else {
        let base2 = if base.contains(add[0]) {
            base
        } else {
            base.push(add[0])
        };
        seq_append_dedup(base2, add.skip(1))
    }
}

/// The steal step: removes every tag of `sel` from each addressable
/// group other than `target`; the target group and the active selection
/// are untouched.
pub open spec fn cg_steal(g: Seq<Seq<UnitTag>>, sel: Seq<UnitTag>, target: int) -> Seq<
    Seq<UnitTag>,
> {
    Seq::new(
        g.len(),
        |i: int|
            if 0 <= i < ACTIVE_UNITS_GROUP_IDX && i != target {
                tags_not_in(g[i], sel)
            } else {
                g[i]
            },
    )
}

/// group[target] := active selection, replacing it wholesale.
pub open spec fn cg_set(g: Seq<Seq<UnitTag>>, target: int) -> Seq<Seq<UnitTag>> {
    g.update(target, g[ACTIVE_UNITS_GROUP_IDX as int])
}

/// As `cg_set`, after stealing the selection from the other groups.
pub open spec fn cg_set_and_steal(g: Seq<Seq<UnitTag>>, target: int) -> Seq<Seq<UnitTag>> {
    cg_set(cg_steal(g, g[ACTIVE_UNITS_GROUP_IDX as int], target), target)
}

/// group[target] := empty.
pub open spec fn cg_clear(g: Seq<Seq<UnitTag>>, target: int) -> Seq<Seq<UnitTag>> {
    g.update(target, Seq::<UnitTag>::empty())
}

/// group[target] := group[target] plus the selected tags not yet in it.
pub open spec fn cg_append(g: Seq<Seq<UnitTag>>, target: int) -> Seq<Seq<UnitTag>> {
    g.update(target, seq_append_dedup(g[target], g[ACTIVE_UNITS_GROUP_IDX as int]))
}

/// As `cg_append`, after stealing the selection from the other groups.
pub open spec fn cg_append_and_steal(g: Seq<Seq<UnitTag>>, target: int) -> Seq<Seq<UnitTag>> {
    let gs = cg_steal(g, g[ACTIVE_UNITS_GROUP_IDX as int], target);
    gs.update(target, seq_append_dedup(gs[target], gs[ACTIVE_UNITS_GROUP_IDX as int]))
}

/// active selection := group[target] (the reverse of `cg_set`).
pub open spec fn cg_recall(g: Seq<Seq<UnitTag>>, target: int) -> Seq<Seq<UnitTag>> {
    g.update(ACTIVE_UNITS_GROUP_IDX as int, g[target])
}

/// Every group with `tag` removed; applied to each player when the unit
/// dies, so no group keeps a dangling reference.
pub open spec fn cg_purge(g: Seq<Seq<UnitTag>>, tag: UnitTag) -> Seq<Seq<UnitTag>> {
    Seq::new(g.len(), |i: int| tags_without(g[i], tag))
}

/// The six control-group transitions, by operation kind.
pub open spec fn cg_apply(g: Seq<Seq<UnitTag>>, op: ControlGroupOp, target: int) -> Seq<
    Seq<UnitTag>,
> {
    match op {
        ControlGroupOp::SetGroup => cg_set(g, target),
        ControlGroupOp::SetGroupSteal => cg_set_and_steal(g, target),
        ControlGroupOp::ClearGroup => cg_clear(g, target),
        ControlGroupOp::AppendGroup => cg_append(g, target),
        ControlGroupOp::AppendGroupSteal => cg_append_and_steal(g, target),
        ControlGroupOp::Recall => cg_recall(g, target),
    }
}

/// Whether a tag is in the vector.
pub fn tags_contain(v: &Vec<UnitTag>, t: UnitTag) -> (b: bool)
    ensures
        b == v@.contains(t),
{
    let mut i: usize = 0;
    while i < v.len()
        invariant
            i <= v@.len(),
            forall|j: int| 0 <= j < i ==> v@[j] != t,
        decreases v@.len() - i,
    {
        if v[i] == t {
            return true;
        }
        i += 1;
    }
    false
}

/// Copies a tag vector.
pub fn copy_tags(v: &Vec<UnitTag>) -> (out: Vec<UnitTag>)
    ensures
        out@ == v@,
{
    let mut out: Vec<UnitTag> = Vec::new();
    let mut i: usize = 0;
    while i < v.len()
        invariant
            i <= v@.len(),
            out@ == v@.take(i as int),
        decreases v@.len() - i,
    {
        out.push(v[i]);
        proof {
            assert(v@.take(i + 1 as int) =~= v@.take(i as int).push(v@[i as int]));
        }
        i += 1;
    }
    proof {
        assert(v@.take(v@.len() as int) =~= v@);
    }
    out
}

/// The tags of `group` that are not in `remove`, in order.
fn retain_not_in(group: &Vec<UnitTag>, remove: &Vec<UnitTag>) -> (out: Vec<UnitTag>)
    ensures
        out@ == tags_not_in(group@, remove@),
{
    broadcast use vstd::prelude::Seq::lemma_filter_push;

    let mut out: Vec<UnitTag> = Vec::new();
    let mut i: usize = 0;
    while i < group.len()
        invariant
            i <= group@.len(),
            out@ == tags_not_in(group@.take(i as int), remove@),
        decreases group@.len() - i,
    {
        if !tags_contain(remove, group[i]) {
            out.push(group[i]);
        }
        proof {
            let prefix = group@.take(i as int);
            let x = group@[i as int];
            assert(group@.take(i + 1 as int) =~= prefix.push(x));
            prefix.lemma_filter_push(x, |t: UnitTag| !remove@.contains(t));
        }
        i += 1;
    }
    proof {
        assert(group@.take(group@.len() as int) =~= group@);
    }
    out
}

/// How `tags_without` grows when one tag is appended.
proof fn lemma_tags_without_push(s: Seq<UnitTag>, x: UnitTag, tag: UnitTag)
    ensures
        tags_without(s.push(x), tag) == if x != tag {
            tags_without(s, tag).push(x)
        } else {
            tags_without(s, tag)
        },
{
    reveal_with_fuel(Seq::<UnitTag>::filter, 2);
    let sp = s.push(x);
    assert(sp.drop_last() =~= s);
    assert(sp.last() == x);
}

/// The tags of `group` other than `tag`, in order.
fn retain_not_tag(group: &Vec<UnitTag>, tag: UnitTag) -> (out: Vec<UnitTag>)
    ensures
        out@ == tags_without(group@, tag),
{
    broadcast use vstd::prelude::Seq::lemma_filter_push;

    let mut out: Vec<UnitTag> = Vec::new();
    let mut i: usize = 0;
    while i < group.len()
        invariant
            i <= group@.len(),
            out@ == tags_without(group@.take(i as int), tag),
        decreases group@.len() - i,
    {
        if !(group[i] == tag) {
            out.push(group[i]);
        }
        proof {
            let prefix = group@.take(i as int);
            let x = group@[i as int];
            assert(group@.take(i + 1 as int) =~= prefix.push(x));
            lemma_tags_without_push(prefix, x, tag);
        }
        i += 1;
    }
    proof {
        assert(group@.take(group@.len() as int) =~= group@);
    }
    out
}

/// `base` extended by the tags of `add` not yet present.
fn append_dedup(base: &Vec<UnitTag>, add: &Vec<UnitTag>) -> (out: Vec<UnitTag>)
    ensures
        out@ == seq_append_dedup(base@, add@),
{
    let mut out = copy_tags(base);
    proof {
        assert(add@.skip(0) =~= add@);
    }
    let mut i: usize = 0;
    while i < add.len()
        invariant
            i <= add@.len(),
            seq_append_dedup(base@, add@) == seq_append_dedup(out@, add@.skip(i as int)),
        decreases add@.len() - i,
    {
        let present = tags_contain(&out, add[i]);
        proof {
            let rest = add@.skip(i as int);
            assert(rest[0] == add@[i as int]);
            assert(rest.skip(1) =~= add@.skip(i + 1 as int));
        }
        if !present {
            out.push(add[i]);
        }
        i += 1;
    }
    proof {
        assert(add@.skip(add@.len() as int) =~= Seq::<UnitTag>::empty());
    }
    out
}

/// The control-group state of one player.
pub struct PlayerControl {
    /// The player this state belongs to.
    pub player: i64,
    /// The eleven groups; index 10 is the active selection.
    pub groups: Vec<Vec<UnitTag>>,
}

impl View for PlayerControl {
    type V = Seq<Seq<UnitTag>>;

    open spec fn view(&self) -> Seq<Seq<UnitTag>> {
        Seq::new(self.groups@.len(), |i: int| self.groups@[i]@)
    }
}

impl PlayerControl {
    /// A player always owns exactly eleven groups.
    pub open spec fn wf(self) -> bool {
        self@.len() == CONTROL_GROUP_COUNT
    }

    /// A fresh player: eleven empty groups.
    pub fn new(player: i64) -> (p: Self)
        ensures
            p.wf(),
            p.player == player,
            forall|i: int| 0 <= i < CONTROL_GROUP_COUNT ==> p@[i] == Seq::<UnitTag>::empty(),
    {
        let mut groups: Vec<Vec<UnitTag>> = Vec::new();
        while groups.len() < CONTROL_GROUP_COUNT
            invariant
                groups@.len() <= CONTROL_GROUP_COUNT,
                forall|i: int| 0 <= i < groups@.len() ==> groups@[i]@ == Seq::<UnitTag>::empty(),
            decreases CONTROL_GROUP_COUNT - groups@.len(),
        {
            groups.push(Vec::new());
        }
        PlayerControl { player, groups }
    }

    /// A copy of the group at `idx`.
    pub fn group_copy(&self, idx: usize) -> (out: Vec<UnitTag>)
        requires
            self.wf(),
            idx < CONTROL_GROUP_COUNT,
        ensures
            out@ == self@[idx as int],
    {
        copy_tags(&self.groups[idx])
    }

    /// A copy of the active selection.
    pub fn active_selection(&self) -> (out: Vec<UnitTag>)
        requires
            self.wf(),
        ensures
            out@ == self@[ACTIVE_UNITS_GROUP_IDX as int],
    {
        self.group_copy(ACTIVE_UNITS_GROUP_IDX)
    }

    /// Replaces the active selection wholesale with the given tag list.
    pub fn replace_selection(&mut self, tags: Vec<UnitTag>)
        requires
            old(self).wf(),
        ensures
            final(self).wf(),
            final(self).player == old(self).player,
            final(self)@ == old(self)@.update(ACTIVE_UNITS_GROUP_IDX as int, tags@),
    {
        let ghost expected = old(self)@.update(ACTIVE_UNITS_GROUP_IDX as int, tags@);
        self.groups.set(ACTIVE_UNITS_GROUP_IDX, tags);
        proof {
            assert(self@ =~~= expected);
        }
    }

    /// The steal step: removes the current selection's tags from every
    /// addressable group other than `target`.
    fn steal_selection(&mut self, target: usize)
        requires
            old(self).wf(),
            target < ACTIVE_UNITS_GROUP_IDX,
        ensures
            final(self).wf(),
            final(self).player == old(self).player,
            final(self)@ == cg_steal(
                old(self)@,
                old(self)@[ACTIVE_UNITS_GROUP_IDX as int],
                target as int,
            ),
    {
        let sel = copy_tags(&self.groups[ACTIVE_UNITS_GROUP_IDX]);
        let mut j: usize = 0;
        while j < ACTIVE_UNITS_GROUP_IDX
            invariant
                j <= ACTIVE_UNITS_GROUP_IDX,
                target < ACTIVE_UNITS_GROUP_IDX,
                self@.len() == CONTROL_GROUP_COUNT,
                self.player == old(self).player,
                sel@ == old(self)@[ACTIVE_UNITS_GROUP_IDX as int],
                forall|i: int|
                    0 <= i < j && i != target ==> self@[i] == tags_not_in(old(self)@[i], sel@),
                forall|i: int|
                    (j <= i < CONTROL_GROUP_COUNT || i == target) ==> self@[i] == old(self)@[i],
            decreases ACTIVE_UNITS_GROUP_IDX - j,
        {
            if j != target {
                let filtered = retain_not_in(&self.groups[j], &sel);
                let ghost before = self@;
                self.groups.set(j, filtered);
                proof {
                    assert(self@ =~~= before.update(j as int, filtered@));
                }
            }
            j += 1;
        }
        proof {
            assert(self@ =~~= cg_steal(
                old(self)@,
                old(self)@[ACTIVE_UNITS_GROUP_IDX as int],
                target as int,
            ));
        }
    }

    /// Copies the active selection into `target`, replacing it.
    pub fn set_group(&mut self, target: usize)
        requires
            old(self).wf(),
            target < ACTIVE_UNITS_GROUP_IDX,
        ensures
            final(self).wf(),
            final(self).player == old(self).player,
            final(self)@ == cg_set(old(self)@, target as int),
    {
        let sel = copy_tags(&self.groups[ACTIVE_UNITS_GROUP_IDX]);
        let ghost expected = cg_set(old(self)@, target as int);
        self.groups.set(target, sel);
        proof {
            assert(self@ =~~= expected);
        }
    }

    /// As `set_group`, after the steal step.
    pub fn set_group_steal(&mut self, target: usize)
        requires
            old(self).wf(),
            target < ACTIVE_UNITS_GROUP_IDX,
        ensures
            final(self).wf(),
            final(self).player == old(self).player,
            final(self)@ == cg_set_and_steal(old(self)@, target as int),
    {
        self.steal_selection(target);
        self.set_group(target);
    }

    /// Empties `target`.
    pub fn clear_group(&mut self, target: usize)
        requires
            old(self).wf(),
            target < ACTIVE_UNITS_GROUP_IDX,
        ensures
            final(self).wf(),
            final(self).player == old(self).player,
            final(self)@ == cg_clear(old(self)@, target as int),
    {
        let ghost expected = cg_clear(old(self)@, target as int);
        self.groups.set(target, Vec::new());
        proof {
            assert(self@ =~~= expected);
        }
    }

    /// Adds the selected tags not yet present to `target`.
    pub fn append_group(&mut self, target: usize)
        requires
            old(self).wf(),
            target < ACTIVE_UNITS_GROUP_IDX,
        ensures
            final(self).wf(),
            final(self).player == old(self).player,
            final(self)@ == cg_append(old(self)@, target as int),
    {
        let merged = append_dedup(&self.groups[target], &self.groups[ACTIVE_UNITS_GROUP_IDX]);
        let ghost expected = cg_append(old(self)@, target as int);
        self.groups.set(target, merged);
        proof {
            assert(self@ =~~= expected);
        }
    }

    /// As `append_group`, after the steal step.
    pub fn append_group_steal(&mut self, target: usize)
        requires
            old(self).wf(),
            target < ACTIVE_UNITS_GROUP_IDX,
        ensures
            final(self).wf(),
            final(self).player == old(self).player,
            final(self)@ == cg_append_and_steal(old(self)@, target as int),
    {
        self.steal_selection(target);
        let merged = append_dedup(&self.groups[target], &self.groups[ACTIVE_UNITS_GROUP_IDX]);
        let ghost expected = cg_append_and_steal(old(self)@, target as int);
        self.groups.set(target, merged);
        proof {
            assert(self@ =~~= expected);
        }
    }

    /// A stored group becomes the active selection.
    pub fn recall_group(&mut self, target: usize)
        requires
            old(self).wf(),
            target < ACTIVE_UNITS_GROUP_IDX,
        ensures
            final(self).wf(),
            final(self).player == old(self).player,
            final(self)@ == cg_recall(old(self)@, target as int),
    {
        let stored = copy_tags(&self.groups[target]);
        let ghost expected = cg_recall(old(self)@, target as int);
        self.groups.set(ACTIVE_UNITS_GROUP_IDX, stored);
        proof {
            assert(self@ =~~= expected);
        }
    }

    /// Applies one of the six control-group transitions.
    pub fn apply_op(&mut self, op: ControlGroupOp, target: usize)
        requires
            old(self).wf(),
            target < ACTIVE_UNITS_GROUP_IDX,
        ensures
            final(self).wf(),
            final(self).player == old(self).player,
            final(self)@ == cg_apply(old(self)@, op, target as int),
    {
        match op {
            ControlGroupOp::SetGroup => self.set_group(target),
            ControlGroupOp::SetGroupSteal => self.set_group_steal(target),
            ControlGroupOp::ClearGroup => self.clear_group(target),
            ControlGroupOp::AppendGroup => self.append_group(target),
            ControlGroupOp::AppendGroupSteal => self.append_group_steal(target),
            ControlGroupOp::Recall => self.recall_group(target),
        }
    }

    /// Removes a dead unit's tag from every group of this player.
    pub fn purge_tag(&mut self, tag: UnitTag)
        requires
            old(self).wf(),
        ensures
            final(self).wf(),
            final(self).player == old(self).player,
            final(self)@ == cg_purge(old(self)@, tag),
    {
        let mut j: usize = 0;
        while j < CONTROL_GROUP_COUNT
            invariant
                j <= CONTROL_GROUP_COUNT,
                self@.len() == CONTROL_GROUP_COUNT,
                self.player == old(self).player,
                forall|i: int| 0 <= i < j ==> self@[i] == tags_without(old(self)@[i], tag),
                forall|i: int| j <= i < CONTROL_GROUP_COUNT ==> self@[i] == old(self)@[i],
            decreases CONTROL_GROUP_COUNT - j,
        {
            let filtered = retain_not_tag(&self.groups[j], tag);
            let ghost before = self@;
            self.groups.set(j, filtered);
            proof {
                assert(self@ =~~= before.update(j as int, filtered@));
            }
            j += 1;
        }
        proof {
            assert(self@ =~~= cg_purge(old(self)@, tag));
        }
    }
}

/// Every element of `s` satisfies "not in `remove`" already: filtering
/// changes nothing.
proof fn lemma_tags_not_in_all(s: Seq<UnitTag>, remove: Seq<UnitTag>)
    requires
        forall|i: int| 0 <= i < s.len() ==> !remove.contains(#[trigger] s[i]),
    ensures
        tags_not_in(s, remove) == s,
    decreases s.len(),
{
    broadcast use vstd::prelude::Seq::lemma_filter_push;

    if s.len() == 0 {
        assert(s =~= Seq::<UnitTag>::empty());
        assert(tags_not_in(s, remove) =~= s);
    } else {
        let t = s.drop_last();
        lemma_tags_not_in_all(t, remove);
        assert(t.push(s.last()) =~= s);
        assert(tags_not_in(s, remove) =~= s);
    }
}

/// Removing a tag set twice removes it once: the steal filter is
/// idempotent.
proof fn lemma_tags_not_in_idempotent(s: Seq<UnitTag>, remove: Seq<UnitTag>)
    ensures
        tags_not_in(tags_not_in(s, remove), remove) == tags_not_in(s, remove),
{
    broadcast use vstd::seq_lib::group_filter_ensures;

    lemma_tags_not_in_all(tags_not_in(s, remove), remove);
}

/// Applying "set and steal" twice with the same active selection leaves
/// the groups exactly as one application does: the selected tags end up
/// in the target group and in no other addressable group either way.
pub proof fn lemma_set_and_steal_idempotent(g: Seq<Seq<UnitTag>>, target: int)
    requires
        g.len() == CONTROL_GROUP_COUNT,
        0 <= target < ACTIVE_UNITS_GROUP_IDX,
    ensures
        cg_set_and_steal(cg_set_and_steal(g, target), target) == cg_set_and_steal(g, target),
{
    let sel = g[ACTIVE_UNITS_GROUP_IDX as int];
    let g1 = cg_set_and_steal(g, target);
    assert(g1[ACTIVE_UNITS_GROUP_IDX as int] == sel);
    let g2 = cg_set_and_steal(g1, target);
    assert forall|i: int| 0 <= i < g1.len() implies g2[i] == g1[i] by {
        if i == target {
            assert(g2[i] == g1[ACTIVE_UNITS_GROUP_IDX as int]);
            assert(g1[i] == sel);
        } else if 0 <= i < ACTIVE_UNITS_GROUP_IDX {
            assert(g1[i] == tags_not_in(g[i], sel));
            assert(g2[i] == tags_not_in(g1[i], sel));
            lemma_tags_not_in_idempotent(g[i], sel);
        } else {
            assert(g2[i] == g1[i]);
        }
    }
    assert(g2 =~~= g1);
}

} // verus!
