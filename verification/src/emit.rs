//! The projection emitter: applies each surviving, ordered event to the
//! unit registry and/or the per-player control groups, and emits one
//! semantic scene delta per observable change toward the external
//! rendering sink. A lookup miss never aborts the pass: the single
//! emission is skipped and processing continues.

use vstd::prelude::*;

use crate::control::{
    cg_apply, cg_purge, cg_recall, ACTIVE_UNITS_GROUP_IDX, CONTROL_GROUP_COUNT, PlayerControl,
};
use crate::events::{MapPos, StatEntry, TrackerPayload, TrackerPayloadV, UnitPositionEntry};
use crate::registry::{
    spec_fresh_record, spec_with_creator, spec_with_name, spec_with_position, spec_with_selection,
    spec_with_touch, UnitRecord, UnitRegistry,
};
use crate::tag::{lemma_tag_key_injective, tag_key, UnitTag};

verus! {

/// The lifecycle phase a unit delta reports.
#[derive(Clone, Copy, PartialEq, Eq, Structural, Debug)]
pub enum UnitPhase {
    /// The unit started existing in an initializing state.
    Init,
    /// The unit was confirmed alive.
    Born,
    /// The unit changed its type name.
    TypeChanged,
}

/// One semantic change toward the external rendering sink. Every delta
/// carries the adjusted loop it happened at; positions are in map
/// units.
#[derive(Debug, PartialEq)]
pub enum SceneDelta {
    /// A unit appeared, was confirmed, or changed type.
    UnitShown {
        phase: UnitPhase,
        tag: UnitTag,
        name: String,
        owner: Option<i64>,
        pos: MapPos,
        radius: u64,
        color: [u8; 4],
        at_loop: i64,
    },
    /// A unit moved from its previous position to a new one.
    UnitMoved { tag: UnitTag, name: String, from: MapPos, to: MapPos, at_loop: i64 },
    /// A unit stopped existing and leaves the scene.
    UnitRemoved { tag: UnitTag, name: String, at_loop: i64 },
    /// A persistent marker at the place a unit died, crediting the
    /// killer when known.
    DeathMarker { tag: UnitTag, name: String, pos: MapPos, killer: Option<UnitTag>, at_loop: i64 },
    /// One point of a per-player numeric series.
    StatPoint { player_id: i64, name: String, value: i64, at_loop: i64 },
    /// An upgrade finished for a player.
    UpgradeNote { player_id: i64, name: String, count: i64, at_loop: i64 },
    /// The camera of a player moved; the position is rescaled by the
    /// configured divisor.
    CameraMarker { user_id: i64, pos: MapPos, color: [u8; 4], at_loop: i64 },
    /// A player stored a camera position under a hotkey slot.
    CameraSaveMarker { user_id: i64, which: i64, pos: MapPos, color: [u8; 4], at_loop: i64 },
    /// A unit was newly selected; the radius already carries the
    /// selection scaling.
    SelectionPulse { tag: UnitTag, name: String, pos: MapPos, radius: u64, at_loop: i64 },
    /// An arrow from a selected unit to the target of its command.
    TargetArrow {
        user_id: i64,
        tag: UnitTag,
        name: String,
        from: MapPos,
        to: MapPos,
        color: [u8; 4],
        at_loop: i64,
    },
    /// The ability a selected unit was commanded with.
    AbilityNote { user_id: i64, tag: UnitTag, name: String, ability: String, at_loop: i64 },
    /// A chat line.
    ChatNote { user_id: i64, message: String, at_loop: i64 },
}

/// The delta announcing a unit record in the given phase.
pub open spec fn spec_unit_shown(phase: UnitPhase, rec: UnitRecord, at_loop: i64) -> SceneDelta {
    SceneDelta::UnitShown {
        phase,
        tag: rec.tag,
        name: rec.name,
        owner: rec.owner,
        pos: rec.pos,
        radius: rec.radius,
        color: rec.color,
        at_loop,
    }
}

/// The live replay state: the unit registry and one control-group state
/// per observed player, exclusively owned by the pass.
pub struct ReplayState {
    pub registry: UnitRegistry,
    pub players: Vec<PlayerControl>,
}

impl ReplayState {
    /// The registry keeps its invariant, every player owns eleven
    /// groups, and no player id appears twice.
    pub open spec fn wf(self) -> bool {
        &&& self.registry.wf()
        &&& forall|i: int| 0 <= i < self.players@.len() ==> (#[trigger] self.players@[i]).wf()
        &&& forall|i: int, j: int|
            0 <= i < j < self.players@.len() ==> (#[trigger] self.players@[i]).player != (
            #[trigger] self.players@[j]).player
    }

    /// An empty state: no units, no players observed yet.
    pub fn new() -> (s: Self)
        ensures
            s.wf(),
            s.registry@ == Map::<u64, UnitRecord>::empty(),
            s.players@.len() == 0,
    {
        ReplayState { registry: UnitRegistry::new(), players: Vec::new() }
    }

    /// The index of a player's control state, if the player has been
    /// observed.
    pub fn find_player(&self, user_id: i64) -> (r: Option<usize>)
        ensures
            match r {
                Some(i) => i < self.players@.len() && self.players@[i as int].player == user_id,
                None => forall|k: int|
                    0 <= k < self.players@.len() ==> (#[trigger] self.players@[k]).player
                        != user_id,
            },
    {
        let mut i: usize = 0;
        while i < self.players.len()
            invariant
                i <= self.players@.len(),
                forall|k: int| 0 <= k < i ==> (#[trigger] self.players@[k]).player != user_id,
            decreases self.players@.len() - i,
        {
            if self.players[i].player == user_id {
                return Some(i);
            }
            i += 1;
        }
        None
    }

    /// The control state of a player, created empty when the player is
    /// first observed. Returns the player's index.
    pub fn ensure_player(&mut self, user_id: i64) -> (idx: usize)
        requires
            old(self).wf(),
        ensures
            final(self).wf(),
            final(self).registry == old(self).registry,
            idx < final(self).players@.len(),
            final(self).players@[idx as int].player == user_id,
            final(self).players@[idx as int].wf(),
            (exists|k: int|
                0 <= k < old(self).players@.len() && (#[trigger] old(self).players@[k]).player
                    == user_id) ==> final(self).players@ == old(self).players@,
            !(exists|k: int|
                0 <= k < old(self).players@.len() && (#[trigger] old(self).players@[k]).player
                    == user_id) ==> {
                &&& final(self).players@.len() == old(self).players@.len() + 1
                &&& idx == old(self).players@.len()
                &&& forall|k: int|
                    0 <= k < old(self).players@.len() ==> final(self).players@[k] == old(
                        self,
                    ).players@[k]
                &&& forall|g: int|
                    0 <= g < CONTROL_GROUP_COUNT ==> final(self).players@[idx as int]@[g]
                        == Seq::<UnitTag>::empty()
            },
    {
        match self.find_player(user_id) {
            Some(i) => i,
            None => {
                let idx = self.players.len();
                self.players.push(PlayerControl::new(user_id));
                idx
            },
        }
    }
}

/// Whether a player has been observed.
pub open spec fn spec_has_player(players: Seq<PlayerControl>, user_id: i64) -> bool {
    exists|i: int| 0 <= i < players.len() && (#[trigger] players[i]).player == user_id
}

/// The index of an observed player; meaningful only when the player
/// exists, unique because ids are distinct.
pub open spec fn spec_player_index(players: Seq<PlayerControl>, user_id: i64) -> int {
    choose|i: int| 0 <= i < players.len() && (#[trigger] players[i]).player == user_id
}

/// Eleven empty groups: the control state of a player never observed.
pub open spec fn empty_groups() -> Seq<Seq<UnitTag>> {
    Seq::new(CONTROL_GROUP_COUNT as nat, |i: int| Seq::<UnitTag>::empty())
}

/// The groups of a player: the stored ones when observed, eleven empty
/// ones otherwise.
pub open spec fn spec_player_groups(players: Seq<PlayerControl>, user_id: i64) -> Seq<
    Seq<UnitTag>,
> {
    if spec_has_player(players, user_id) {
        players[spec_player_index(players, user_id)]@
    } else {
        empty_groups()
    }
}

/// With distinct player ids, any index holding `user_id` is the chosen
/// one.
pub proof fn lemma_player_index(players: Seq<PlayerControl>, user_id: i64, i: int)
    requires
        forall|p: int, q: int|
            0 <= p < q < players.len() ==> (#[trigger] players[p]).player != (
            #[trigger] players[q]).player,
        0 <= i < players.len(),
        players[i].player == user_id,
    ensures
        spec_has_player(players, user_id),
        spec_player_index(players, user_id) == i,
{
    assert(spec_has_player(players, user_id));
    let j = spec_player_index(players, user_id);
    if i < j {
        assert(players[i].player != players[j].player);
    } else if j < i {
        assert(players[j].player != players[i].player);
    }
}

/// How one player's control state changes while every other player's
/// stays the same: the player's groups become `new_groups` (the state
/// is created first when the player had not been observed).
pub open spec fn players_updated(
    old_players: Seq<PlayerControl>,
    new_players: Seq<PlayerControl>,
    user_id: i64,
    new_groups: Seq<Seq<UnitTag>>,
) -> bool {
    if spec_has_player(old_players, user_id) {
        let i = spec_player_index(old_players, user_id);
        &&& new_players.len() == old_players.len()
        &&& forall|k: int|
            0 <= k < old_players.len() && k != i ==> new_players[k] == old_players[k]
        &&& new_players[i].player == user_id
        &&& new_players[i]@ == new_groups
    } else {
        &&& new_players.len() == old_players.len() + 1
        &&& forall|k: int| 0 <= k < old_players.len() ==> new_players[k] == old_players[k]
        &&& new_players[old_players.len() as int].player == user_id
        &&& new_players[old_players.len() as int]@ == new_groups
    }
}

/// The registry after a list of tags has been unmarked in order: each
/// known selected unit crosses the deselect transition, a known
/// unselected unit is only touched, unknown tags are skipped.
pub open spec fn unmark_fold(m: Map<u64, UnitRecord>, tags: Seq<UnitTag>, at_loop: i64) -> Map<
    u64,
    UnitRecord,
>
    decreases tags.len(),
{
    if tags.len() == 0 {
        m
    } else {
        let m1 = unmark_fold(m, tags.drop_last(), at_loop);
        let t = tags.last();
        if m1.contains_key(tag_key(t)) {
            if m1[tag_key(t)].selected {
                m1.insert(tag_key(t), spec_with_selection(m1[tag_key(t)], false, at_loop))
            } else {
                m1.insert(tag_key(t), spec_with_touch(m1[tag_key(t)], at_loop))
            }
        } else {
            m1
        }
    }
}

/// The registry after a list of tags has been marked selected in
/// order: each known unselected unit crosses the select transition, a
/// known selected unit is only touched, unknown tags are skipped.
pub open spec fn mark_fold(m: Map<u64, UnitRecord>, tags: Seq<UnitTag>, at_loop: i64) -> Map<
    u64,
    UnitRecord,
>
    decreases tags.len(),
{
    if tags.len() == 0 {
        m
    } else {
        let m1 = mark_fold(m, tags.drop_last(), at_loop);
        let t = tags.last();
        if m1.contains_key(tag_key(t)) {
            if !m1[tag_key(t)].selected {
                m1.insert(tag_key(t), spec_with_selection(m1[tag_key(t)], true, at_loop))
            } else {
                m1.insert(tag_key(t), spec_with_touch(m1[tag_key(t)], at_loop))
            }
        } else {
            m1
        }
    }
}

/// The pulses of a marking pass: one per unit that crossed the select
/// transition, in order, carrying the already doubled radius.
pub open spec fn mark_pulses(m: Map<u64, UnitRecord>, tags: Seq<UnitTag>, at_loop: i64) -> Seq<
    SceneDelta,
>
    decreases tags.len(),
{
    if tags.len() == 0 {
        Seq::<SceneDelta>::empty()
    } else {
        let d1 = mark_pulses(m, tags.drop_last(), at_loop);
        let m1 = mark_fold(m, tags.drop_last(), at_loop);
        let t = tags.last();
        if m1.contains_key(tag_key(t)) && !m1[tag_key(t)].selected {
            let rec = spec_with_selection(m1[tag_key(t)], true, at_loop);
            d1.push(
                SceneDelta::SelectionPulse {
                    tag: t,
                    name: rec.name,
                    pos: rec.pos,
                    radius: rec.radius,
                    at_loop,
                },
            )
        } else {
            d1
        }
    }
}

/// The registry after a batch of position updates has been applied in
/// order: known tags move, unknown tags are skipped.
pub open spec fn positions_fold(
    m: Map<u64, UnitRecord>,
    entries: Seq<UnitPositionEntry>,
    at_loop: i64,
) -> Map<u64, UnitRecord>
    decreases entries.len(),
{
    if entries.len() == 0 {
        m
    } else {
        let m1 = positions_fold(m, entries.drop_last(), at_loop);
        let e = entries.last();
        if m1.contains_key(tag_key(e.tag)) {
            m1.insert(tag_key(e.tag), spec_with_position(m1[tag_key(e.tag)], e.pos, at_loop))
        } else {
            m1
        }
    }
}

/// The move deltas of a batch of position updates: one per known tag,
/// in batch order, each drawn from the unit's previous position to the
/// new one.
pub open spec fn moved_deltas(
    m: Map<u64, UnitRecord>,
    entries: Seq<UnitPositionEntry>,
    at_loop: i64,
) -> Seq<SceneDelta>
    decreases entries.len(),
{
    if entries.len() == 0 {
        Seq::<SceneDelta>::empty()
    } else {
        let d1 = moved_deltas(m, entries.drop_last(), at_loop);
        let m1 = positions_fold(m, entries.drop_last(), at_loop);
        let e = entries.last();
        if m1.contains_key(tag_key(e.tag)) {
            d1.push(
                SceneDelta::UnitMoved {
                    tag: e.tag,
                    name: m1[tag_key(e.tag)].name,
                    from: m1[tag_key(e.tag)].pos,
                    to: e.pos,
                    at_loop,
                },
            )
        } else {
            d1
        }
    }
}

/// Position batches never create or remove units.
pub proof fn lemma_positions_fold_dom(
    m: Map<u64, UnitRecord>,
    entries: Seq<UnitPositionEntry>,
    at_loop: i64,
)
    ensures
        forall|k: u64|
            #[trigger] positions_fold(m, entries, at_loop).contains_key(k) == m.contains_key(k),
    decreases entries.len(),
{
    if entries.len() > 0 {
        lemma_positions_fold_dom(m, entries.drop_last(), at_loop);
        let m1 = positions_fold(m, entries.drop_last(), at_loop);
        let res = positions_fold(m, entries, at_loop);
        assert forall|k: u64| #[trigger] res.contains_key(k) == m.contains_key(k) by {
            assert(m1.contains_key(k) == m.contains_key(k));
        }
    }
}

impl ReplayState {
    /// Unmarks every listed unit in order: the deselect transition of
    /// the two-phase selection update.
    fn unmark_tags(&mut self, tags: &Vec<UnitTag>, at_loop: i64)
        requires
            old(self).wf(),
        ensures
            final(self).wf(),
            final(self).players == old(self).players,
            final(self).registry@ == unmark_fold(old(self).registry@, tags@, at_loop),
    {
        let mut i: usize = 0;
        while i < tags.len()
            invariant
                old(self).wf(),
                self.registry.wf(),
                self.players == old(self).players,
                i <= tags@.len(),
                self.registry@ == unmark_fold(old(self).registry@, tags@.take(i as int), at_loop),
            decreases tags@.len() - i,
        {
            proof {
                let pre = tags@.take(i as int);
                assert(tags@.take(i + 1 as int) =~= pre.push(tags@[i as int]));
                assert(tags@.take(i + 1 as int).drop_last() =~= pre);
                assert(tags@.take(i + 1 as int).last() == tags@[i as int]);
            }
            let _ = self.registry.set_selected(tags[i], false, at_loop);
            i += 1;
        }
        proof {
            assert(tags@.take(tags@.len() as int) =~= tags@);
        }
    }

    /// Marks every listed unit in order, emitting one pulse per unit
    /// that crossed the select transition.
    fn mark_tags(&mut self, tags: &Vec<UnitTag>, at_loop: i64) -> (out: Vec<SceneDelta>)
        requires
            old(self).wf(),
        ensures
            final(self).wf(),
            final(self).players == old(self).players,
            final(self).registry@ == mark_fold(old(self).registry@, tags@, at_loop),
            out@ == mark_pulses(old(self).registry@, tags@, at_loop),
    {
        let mut out: Vec<SceneDelta> = Vec::new();
        let mut i: usize = 0;
        while i < tags.len()
            invariant
                old(self).wf(),
                self.registry.wf(),
                self.players == old(self).players,
                i <= tags@.len(),
                self.registry@ == mark_fold(old(self).registry@, tags@.take(i as int), at_loop),
                out@ == mark_pulses(old(self).registry@, tags@.take(i as int), at_loop),
            decreases tags@.len() - i,
        {
            proof {
                let pre = tags@.take(i as int);
                assert(tags@.take(i + 1 as int) =~= pre.push(tags@[i as int]));
                assert(tags@.take(i + 1 as int).drop_last() =~= pre);
                assert(tags@.take(i + 1 as int).last() == tags@[i as int]);
            }
            let t = tags[i];
            let changed = self.registry.set_selected(t, true, at_loop);
            if changed {
                let rec = self.registry.get(t);
                match rec {
                    Some(r) => {
                        out.push(
                            SceneDelta::SelectionPulse {
                                tag: t,
                                name: r.name.clone(),
                                pos: r.pos,
                                radius: r.radius,
                                at_loop,
                            },
                        );
                    },
                    None => {
                        proof {
                            assert(false);
                        }
                    },
                }
            }
            i += 1;
        }
        proof {
            assert(tags@.take(tags@.len() as int) =~= tags@);
        }
        out
    }
}

/// Replaces a player's active selection wholesale with the provided tag
/// list, unmarking the previous selection before marking the new one
/// (in that order, so radii are never doubled twice), and emits a pulse
/// for each newly selected unit.
pub fn register_selection_delta(
    state: &mut ReplayState,
    user_id: i64,
    tags: &Vec<UnitTag>,
    at_loop: i64,
) -> (out: Vec<SceneDelta>)
    requires
        old(state).wf(),
    ensures
        final(state).wf(),
        ({
            let gs = spec_player_groups(old(state).players@, user_id);
            let m1 = unmark_fold(
                old(state).registry@,
                gs[ACTIVE_UNITS_GROUP_IDX as int],
                at_loop,
            );
            &&& final(state).registry@ == mark_fold(m1, tags@, at_loop)
            &&& out@ == mark_pulses(m1, tags@, at_loop)
            &&& players_updated(
                old(state).players@,
                final(state).players@,
                user_id,
                gs.update(ACTIVE_UNITS_GROUP_IDX as int, tags@),
            )
        }),
{
    let ghost gs = spec_player_groups(old(state).players@, user_id);
    let idx = state.ensure_player(user_id);
    proof {
        if spec_has_player(old(state).players@, user_id) {
            lemma_player_index(old(state).players@, user_id, idx as int);
        } else {
            assert(state.players@[idx as int]@ =~= empty_groups());
        }
        assert(state.players@[idx as int]@ == gs);
    }
    let sel_ref = &state.players[idx];
    let old_sel = sel_ref.active_selection();
    state.unmark_tags(&old_sel, at_loop);
    let replacement = crate::control::copy_tags(tags);
    // Swap the player's state out against a placeholder, mutate it, and
    // swap it back; the two swaps compose to one in-place update.
    let mut taken = PlayerControl::new(0);
    let ghost before_swap = state.players@;
    state.players.set_and_swap(idx, &mut taken);
    taken.replace_selection(replacement);
    state.players.set_and_swap(idx, &mut taken);
    proof {
        assert(state.players@ =~= before_swap.update(idx as int, state.players@[idx as int]));
        assert(state.players@[idx as int]@ == gs.update(ACTIVE_UNITS_GROUP_IDX as int, tags@));
    }
    let out = state.mark_tags(tags, at_loop);
    proof {
        if spec_has_player(old(state).players@, user_id) {
        } else {
            assert(players_updated(
                old(state).players@,
                state.players@,
                user_id,
                gs.update(ACTIVE_UNITS_GROUP_IDX as int, tags@),
            ));
        }
    }
    out
}

/// Applies one control-group transition for a player. Only `Recall`
/// touches the registry (the recalled units are marked selected) and
/// emits pulses; the other transitions are silent bookkeeping. A group
/// index outside the ten addressable groups is a benign no-op.
pub fn update_control_group(
    state: &mut ReplayState,
    user_id: i64,
    group_index: u8,
    op: crate::events::ControlGroupOp,
    at_loop: i64,
) -> (out: Vec<SceneDelta>)
    requires
        old(state).wf(),
    ensures
        final(state).wf(),
        group_index >= 10 ==> {
            &&& final(state).registry@ == old(state).registry@
            &&& final(state).players@ == old(state).players@
            &&& out@ == Seq::<SceneDelta>::empty()
        },
        group_index < 10 ==> ({
            let gs = spec_player_groups(old(state).players@, user_id);
            &&& players_updated(
                old(state).players@,
                final(state).players@,
                user_id,
                cg_apply(gs, op, group_index as int),
            )
            &&& (op is Recall ==> final(state).registry@ == mark_fold(
                old(state).registry@,
                gs[group_index as int],
                at_loop,
            ) && out@ == mark_pulses(old(state).registry@, gs[group_index as int], at_loop))
            &&& (!(op is Recall) ==> final(state).registry@ == old(state).registry@ && out@
                == Seq::<SceneDelta>::empty())
        }),
{
    if group_index >= 10 {
        let out: Vec<SceneDelta> = Vec::new();
        proof {
            assert(out@ =~= Seq::<SceneDelta>::empty());
        }
        return out;
    }
    let ghost gs = spec_player_groups(old(state).players@, user_id);
    let idx = state.ensure_player(user_id);
    proof {
        if spec_has_player(old(state).players@, user_id) {
            lemma_player_index(old(state).players@, user_id, idx as int);
        } else {
            assert(state.players@[idx as int]@ =~= empty_groups());
        }
        assert(state.players@[idx as int]@ == gs);
    }
    // Swap the player's state out against a placeholder, mutate it, and
    // swap it back; the two swaps compose to one in-place update.
    let mut taken = PlayerControl::new(0);
    let ghost before_swap = state.players@;
    state.players.set_and_swap(idx, &mut taken);
    taken.apply_op(op, group_index as usize);
    state.players.set_and_swap(idx, &mut taken);
    proof {
        assert(state.players@ =~= before_swap.update(idx as int, state.players@[idx as int]));
        assert(state.players@[idx as int]@ == cg_apply(gs, op, group_index as int));
    }
    match op {
        crate::events::ControlGroupOp::Recall => {
            let pref = &state.players[idx];
            let sel = pref.group_copy(ACTIVE_UNITS_GROUP_IDX);
            proof {
                assert(cg_apply(gs, op, group_index as int) == cg_recall(gs, group_index as int));
                assert(sel@ == gs[group_index as int]);
            }
            let out = state.mark_tags(&sel, at_loop);
            out
        },
        _ => {
            let out: Vec<SceneDelta> = Vec::new();
            proof {
                assert(out@ =~= Seq::<SceneDelta>::empty());
            }
            out
        },
    }
}

/// Registers a unit on an init event and announces it. A known tag only
/// refreshes position and last-updated loop.
pub fn register_unit_init(
    state: &mut ReplayState,
    tag: UnitTag,
    name: String,
    owner: Option<i64>,
    pos: MapPos,
    at_loop: i64,
) -> (out: Vec<SceneDelta>)
    requires
        old(state).wf(),
    ensures
        final(state).wf(),
        final(state).players == old(state).players,
        old(state).registry.spec_contains(tag) ==> {
            &&& final(state).registry@ == old(state).registry@.insert(
                tag_key(tag),
                spec_with_position(old(state).registry.spec_at(tag), pos, at_loop),
            )
            &&& out@ == seq![
                spec_unit_shown(
                    UnitPhase::Init,
                    spec_with_position(old(state).registry.spec_at(tag), pos, at_loop),
                    at_loop,
                ),
            ]
        },
        !old(state).registry.spec_contains(tag) ==> {
            &&& final(state).registry@ == old(state).registry@.insert(
                tag_key(tag),
                spec_fresh_record(tag, name, owner, pos, None, at_loop),
            )
            &&& out@ == seq![
                spec_unit_shown(
                    UnitPhase::Init,
                    spec_fresh_record(tag, name, owner, pos, None, at_loop),
                    at_loop,
                ),
            ]
        },
{
    let rec = state.registry.init_or_register(tag, name, owner, pos, at_loop);
    let mut out: Vec<SceneDelta> = Vec::new();
    let ghost recg = rec;
    out.push(
        SceneDelta::UnitShown {
            phase: UnitPhase::Init,
            tag: rec.tag,
            name: rec.name,
            owner: rec.owner,
            pos: rec.pos,
            radius: rec.radius,
            color: rec.color,
            at_loop,
        },
    );
    proof {
        assert(out@ =~= seq![spec_unit_shown(UnitPhase::Init, recg, at_loop)]);
    }
    out
}

/// Applies a born event and announces the unit with its size and color
/// hint. A known tag is only augmented; an unknown tag gets a minimal
/// record.
pub fn register_unit_born(
    state: &mut ReplayState,
    tag: UnitTag,
    name: String,
    owner: Option<i64>,
    pos: MapPos,
    creator_ability: Option<String>,
    at_loop: i64,
) -> (out: Vec<SceneDelta>)
    requires
        old(state).wf(),
    ensures
        final(state).wf(),
        final(state).players == old(state).players,
        old(state).registry.spec_contains(tag) ==> {
            &&& final(state).registry@ == old(state).registry@.insert(
                tag_key(tag),
                spec_with_creator(old(state).registry.spec_at(tag), creator_ability, at_loop),
            )
            &&& out@ == seq![
                spec_unit_shown(
                    UnitPhase::Born,
                    spec_with_creator(old(state).registry.spec_at(tag), creator_ability, at_loop),
                    at_loop,
                ),
            ]
        },
        !old(state).registry.spec_contains(tag) ==> {
            &&& final(state).registry@ == old(state).registry@.insert(
                tag_key(tag),
                spec_fresh_record(tag, name, owner, pos, creator_ability, at_loop),
            )
            &&& out@ == seq![
                spec_unit_shown(
                    UnitPhase::Born,
                    spec_fresh_record(tag, name, owner, pos, creator_ability, at_loop),
                    at_loop,
                ),
            ]
        },
{
    let rec = state.registry.born(tag, name, owner, pos, creator_ability, at_loop);
    let mut out: Vec<SceneDelta> = Vec::new();
    let ghost recg = rec;
    out.push(
        SceneDelta::UnitShown {
            phase: UnitPhase::Born,
            tag: rec.tag,
            name: rec.name,
            owner: rec.owner,
            pos: rec.pos,
            radius: rec.radius,
            color: rec.color,
            at_loop,
        },
    );
    proof {
        assert(out@ =~= seq![spec_unit_shown(UnitPhase::Born, recg, at_loop)]);
    }
    out
}

/// Applies a type-change event: a known unit is renamed (size and color
/// re-derived) and announced; an unknown tag is a benign no-op.
pub fn register_unit_type_change(
    state: &mut ReplayState,
    tag: UnitTag,
    name: String,
    at_loop: i64,
) -> (out: Vec<SceneDelta>)
    requires
        old(state).wf(),
    ensures
        final(state).wf(),
        final(state).players == old(state).players,
        old(state).registry.spec_contains(tag) ==> {
            &&& final(state).registry@ == old(state).registry@.insert(
                tag_key(tag),
                spec_with_name(old(state).registry.spec_at(tag), name, at_loop),
            )
            &&& out@ == seq![
                spec_unit_shown(
                    UnitPhase::TypeChanged,
                    spec_with_name(old(state).registry.spec_at(tag), name, at_loop),
                    at_loop,
                ),
            ]
        },
        !old(state).registry.spec_contains(tag) ==> {
            &&& final(state).registry@ == old(state).registry@
            &&& out@ == Seq::<SceneDelta>::empty()
        },
{
    let rec_opt = state.registry.type_change(tag, name, at_loop);
    let mut out: Vec<SceneDelta> = Vec::new();
    match rec_opt {
        Some(rec) => {
            let ghost recg = rec;
            out.push(
                SceneDelta::UnitShown {
                    phase: UnitPhase::TypeChanged,
                    tag: rec.tag,
                    name: rec.name,
                    owner: rec.owner,
                    pos: rec.pos,
                    radius: rec.radius,
                    color: rec.color,
                    at_loop,
                },
            );
            proof {
                assert(out@ =~= seq![spec_unit_shown(UnitPhase::TypeChanged, recg, at_loop)]);
            }
        },
        None => {
            proof {
                assert(out@ =~= Seq::<SceneDelta>::empty());
            }
        },
    }
    out
}

/// Applies a died event: removes the unit (a benign no-op for an
/// unknown tag), purges the tag from every player's control groups so
/// no dangling reference survives, and emits the removal and a death
/// marker at the event position.
pub fn register_unit_died(
    state: &mut ReplayState,
    tag: UnitTag,
    pos: MapPos,
    killer: Option<UnitTag>,
    at_loop: i64,
) -> (out: Vec<SceneDelta>)
    requires
        old(state).wf(),
    ensures
        final(state).wf(),
        final(state).players@.len() == old(state).players@.len(),
        forall|p: int|
            0 <= p < old(state).players@.len() ==> (#[trigger] final(state).players@[p]).player
                == old(state).players@[p].player && final(state).players@[p]@ == cg_purge(
                old(state).players@[p]@,
                tag,
            ),
        old(state).registry.spec_contains(tag) ==> {
            &&& final(state).registry@ == old(state).registry@.remove(tag_key(tag))
            &&& out@ == seq![
                SceneDelta::UnitRemoved {
                    tag,
                    name: old(state).registry.spec_at(tag).name,
                    at_loop,
                },
                SceneDelta::DeathMarker {
                    tag,
                    name: old(state).registry.spec_at(tag).name,
                    pos,
                    killer,
                    at_loop,
                },
            ]
        },
        !old(state).registry.spec_contains(tag) ==> {
            &&& final(state).registry@ == old(state).registry@
            &&& out@ == Seq::<SceneDelta>::empty()
        },
{
    let removed = state.registry.died(tag);
    let mut p: usize = 0;
    while p < state.players.len()
        invariant
            old(state).wf(),
            state.registry.wf(),
            state.players@.len() == old(state).players@.len(),
            p <= state.players@.len(),
            forall|k: int|
                0 <= k < p ==> (#[trigger] state.players@[k]).player == old(state).players@[k].player && state.players@[k]@ == cg_purge(
                    old(state).players@[k]@,
                    tag,
                ) && state.players@[k].wf(),
            forall|k: int|
                p <= k < state.players@.len() ==> (#[trigger] state.players@[k]) == old(state).players@[k],
            state.registry@ == if old(state).registry.spec_contains(tag) {
                old(state).registry@.remove(tag_key(tag))
            } else {
                old(state).registry@
            },
        decreases state.players@.len() - p,
    {
        // Swap each player's state out against a placeholder, purge it,
        // and swap it back.
        let mut taken = PlayerControl::new(0);
        state.players.set_and_swap(p, &mut taken);
        taken.purge_tag(tag);
        state.players.set_and_swap(p, &mut taken);
        p += 1;
    }
    let mut out: Vec<SceneDelta> = Vec::new();
    match removed {
        Some(rec) => {
            let ghost recg = rec;
            let name_copy = rec.name.clone();
            out.push(SceneDelta::UnitRemoved { tag, name: rec.name, at_loop });
            out.push(SceneDelta::DeathMarker { tag, name: name_copy, pos, killer, at_loop });
            proof {
                assert(out@ =~= seq![
                    SceneDelta::UnitRemoved { tag, name: recg.name, at_loop },
                    SceneDelta::DeathMarker { tag, name: recg.name, pos, killer, at_loop },
                ]);
            }
        },
        None => {
            proof {
                assert(out@ =~= Seq::<SceneDelta>::empty());
            }
        },
    }
    out
}

/// Applies a batch of position updates in order: each known unit moves
/// and emits a move delta from its previous position; unknown tags are
/// recoverable and skipped.
pub fn register_unit_position(
    state: &mut ReplayState,
    entries: &Vec<UnitPositionEntry>,
    at_loop: i64,
) -> (out: Vec<SceneDelta>)
    requires
        old(state).wf(),
    ensures
        final(state).wf(),
        final(state).players == old(state).players,
        final(state).registry@ == positions_fold(old(state).registry@, entries@, at_loop),
        out@ == moved_deltas(old(state).registry@, entries@, at_loop),
{
    let mut out: Vec<SceneDelta> = Vec::new();
    let mut i: usize = 0;
    while i < entries.len()
        invariant
            old(state).wf(),
            state.registry.wf(),
            state.players == old(state).players,
            i <= entries@.len(),
            state.registry@ == positions_fold(old(state).registry@, entries@.take(i as int), at_loop),
            out@ == moved_deltas(old(state).registry@, entries@.take(i as int), at_loop),
        decreases entries@.len() - i,
    {
        let e = entries[i];
        proof {
            let pre = entries@.take(i as int);
            assert(entries@.take(i + 1 as int) =~= pre.push(e));
            assert(entries@.take(i + 1 as int).drop_last() =~= pre);
            assert(entries@.take(i + 1 as int).last() == e);
        }
        let prev = state.registry.get(e.tag);
        match prev {
            Some(r) => {
                let name_copy = r.name.clone();
                let from = r.pos;
                let _ = state.registry.position_update(e.tag, e.pos, at_loop);
                out.push(
                    SceneDelta::UnitMoved { tag: e.tag, name: name_copy, from, to: e.pos, at_loop },
                );
            },
            None => {},
        }
        i += 1;
    }
    proof {
        assert(entries@.take(entries@.len() as int) =~= entries@);
    }
    out
}

/// How one tracker event changes whether a unit is alive: an init or
/// born event for the tag revives it, a died event for the tag ends it,
/// every other event leaves it as it was.
pub open spec fn spec_alive_step(alive: bool, p: TrackerPayloadV, t: UnitTag) -> bool {
    match p {
        TrackerPayloadV::UnitInit { tag, .. } => if tag == t {
            true
        } else {
            alive
        },
        TrackerPayloadV::UnitBorn { tag, .. } => if tag == t {
            true
        } else {
            alive
        },
        TrackerPayloadV::UnitDied { tag, .. } => if tag == t {
            false
        } else {
            alive
        },
        _ => alive,
    }
}

/// Divisor that rescales raw camera target coordinates into map units.
/// Several incompatible ratios have been used by different capture
/// versions, so callers pass the divisor rather than rely on one baked
/// value; this is the one current captures use.
pub const CAMERA_POS_DIVISOR: u64 = 250;

/// A raw camera coordinate scaled down by the divisor, rounding toward
/// zero.
pub open spec fn spec_scale_coord(v: i64, d: u64) -> i64 {
    if v >= 0 {
        ((v as int) / (d as int)) as i64
    } else {
        (-((-(v as int)) / (d as int))) as i64
    }
}

/// A raw camera position scaled down by the divisor.
pub open spec fn spec_scale_pos(p: MapPos, d: u64) -> MapPos {
    MapPos { x: spec_scale_coord(p.x, d), y: spec_scale_coord(p.y, d) }
}

/// Scales one raw camera coordinate down by the divisor.
pub fn scale_coord(v: i64, d: u64) -> (r: i64)
    requires
        d >= 1,
    ensures
        r == spec_scale_coord(v, d),
{
    if v >= 0 {
        let q: u64 = (v as u64) / d;
        q as i64
    } else {
        let m: u64 = ((-(v + 1)) as u64) + 1;
        proof {
            assert(m == -(v as int));
        }
        let q: u64 = m / d;
        if q == 0x8000_0000_0000_0000 {
            i64::MIN
        } else {
            -(q as i64)
        }
    }
}

/// Scales a raw camera position down by the divisor.
pub fn scale_pos(p: MapPos, d: u64) -> (r: MapPos)
    requires
        d >= 1,
    ensures
        r == spec_scale_pos(p, d),
{
    MapPos { x: scale_coord(p.x, d), y: scale_coord(p.y, d) }
}

/// Emits a camera marker at the rescaled target position, colored by
/// the owning player; an update without a target emits nothing. The
/// state never changes on a camera event.
pub fn register_camera_update(
    user_id: i64,
    target: &Option<MapPos>,
    divisor: u64,
    at_loop: i64,
) -> (out: Vec<SceneDelta>)
    requires
        divisor >= 1,
    ensures
        match *target {
            Some(t) => out@ == seq![
                SceneDelta::CameraMarker {
                    user_id,
                    pos: spec_scale_pos(t, divisor),
                    color: crate::unit_colors::spec_user_color(user_id),
                    at_loop,
                },
            ],
            None => out@ == Seq::<SceneDelta>::empty(),
        },
{
    let mut out: Vec<SceneDelta> = Vec::new();
    match target {
        Some(t) => {
            out.push(
                SceneDelta::CameraMarker {
                    user_id,
                    pos: scale_pos(*t, divisor),
                    color: crate::unit_colors::user_color(user_id),
                    at_loop,
                },
            );
            proof {
                assert(out@ =~= seq![
                    SceneDelta::CameraMarker {
                        user_id,
                        pos: spec_scale_pos(*t, divisor),
                        color: crate::unit_colors::spec_user_color(user_id),
                        at_loop,
                    },
                ]);
            }
        },
        None => {
            proof {
                assert(out@ =~= Seq::<SceneDelta>::empty());
            }
        },
    }
    out
}

/// Emits a marker for a camera position stored under a hotkey slot.
/// The state never changes on a camera event.
pub fn register_camera_save(
    user_id: i64,
    which: i64,
    target: MapPos,
    divisor: u64,
    at_loop: i64,
) -> (out: Vec<SceneDelta>)
    requires
        divisor >= 1,
    ensures
        out@ == seq![
            SceneDelta::CameraSaveMarker {
                user_id,
                which,
                pos: spec_scale_pos(target, divisor),
                color: crate::unit_colors::spec_user_color(user_id),
                at_loop,
            },
        ],
{
    let mut out: Vec<SceneDelta> = Vec::new();
    out.push(
        SceneDelta::CameraSaveMarker {
            user_id,
            which,
            pos: scale_pos(target, divisor),
            color: crate::unit_colors::user_color(user_id),
            at_loop,
        },
    );
    proof {
        assert(out@ =~= seq![
            SceneDelta::CameraSaveMarker {
                user_id,
                which,
                pos: spec_scale_pos(target, divisor),
                color: crate::unit_colors::spec_user_color(user_id),
                at_loop,
            },
        ]);
    }
    out
}

/// The registry after every listed unit has been pointed at a target in
/// order: known tags are retargeted, unknown tags are skipped.
pub open spec fn target_fold(
    m: Map<u64, UnitRecord>,
    tags: Seq<UnitTag>,
    target: Option<MapPos>,
    at_loop: i64,
) -> Map<u64, UnitRecord>
    decreases tags.len(),
{
    if tags.len() == 0 {
        m
    } else {
        let m1 = target_fold(m, tags.drop_last(), target, at_loop);
        let t = tags.last();
        if m1.contains_key(tag_key(t)) {
            m1.insert(
                tag_key(t),
                crate::registry::spec_with_target(m1[tag_key(t)], target, at_loop),
            )
        } else {
            m1
        }
    }
}

/// One arrow per known listed unit, in order, from the unit's position
/// to the command target; a lookup miss skips that single arrow.
pub open spec fn arrow_deltas(
    m: Map<u64, UnitRecord>,
    tags: Seq<UnitTag>,
    user_id: i64,
    to: MapPos,
    color: [u8; 4],
    at_loop: i64,
) -> Seq<SceneDelta>
    decreases tags.len(),
{
    if tags.len() == 0 {
        Seq::<SceneDelta>::empty()
    } else {
        let d1 = arrow_deltas(m, tags.drop_last(), user_id, to, color, at_loop);
        let m1 = target_fold(m, tags.drop_last(), Some(to), at_loop);
        let t = tags.last();
        if m1.contains_key(tag_key(t)) {
            d1.push(
                SceneDelta::TargetArrow {
                    user_id,
                    tag: t,
                    name: m1[tag_key(t)].name,
                    from: m1[tag_key(t)].pos,
                    to,
                    color,
                    at_loop,
                },
            )
        } else {
            d1
        }
    }
}

/// One ability note per known listed unit, in order.
pub open spec fn ability_notes(
    m: Map<u64, UnitRecord>,
    tags: Seq<UnitTag>,
    user_id: i64,
    ability: String,
    at_loop: i64,
) -> Seq<SceneDelta>
    decreases tags.len(),
{
    if tags.len() == 0 {
        Seq::<SceneDelta>::empty()
    } else {
        let d1 = ability_notes(m, tags.drop_last(), user_id, ability, at_loop);
        let t = tags.last();
        if m.contains_key(tag_key(t)) {
            d1.push(
                SceneDelta::AbilityNote {
                    user_id,
                    tag: t,
                    name: m[tag_key(t)].name,
                    ability,
                    at_loop,
                },
            )
        } else {
            d1
        }
    }
}

impl ReplayState {
    /// Points every listed unit at a target in order, emitting one
    /// arrow per known unit from its position to the target.
    fn retarget_tags(
        &mut self,
        tags: &Vec<UnitTag>,
        user_id: i64,
        to: MapPos,
        color: [u8; 4],
        at_loop: i64,
    ) -> (out: Vec<SceneDelta>)
        requires
            old(self).wf(),
        ensures
            final(self).wf(),
            final(self).players == old(self).players,
            final(self).registry@ == target_fold(old(self).registry@, tags@, Some(to), at_loop),
            out@ == arrow_deltas(old(self).registry@, tags@, user_id, to, color, at_loop),
    {
        let mut out: Vec<SceneDelta> = Vec::new();
        let mut i: usize = 0;
        while i < tags.len()
            invariant
                old(self).wf(),
                self.registry.wf(),
                self.players == old(self).players,
                i <= tags@.len(),
                self.registry@ == target_fold(
                    old(self).registry@,
                    tags@.take(i as int),
                    Some(to),
                    at_loop,
                ),
                out@ == arrow_deltas(
                    old(self).registry@,
                    tags@.take(i as int),
                    user_id,
                    to,
                    color,
                    at_loop,
                ),
            decreases tags@.len() - i,
        {
            proof {
                let pre = tags@.take(i as int);
                assert(tags@.take(i + 1 as int) =~= pre.push(tags@[i as int]));
                assert(tags@.take(i + 1 as int).drop_last() =~= pre);
                assert(tags@.take(i + 1 as int).last() == tags@[i as int]);
            }
            let t = tags[i];
            let prev = self.registry.get(t);
            match prev {
                Some(r) => {
                    let name_copy = r.name.clone();
                    let from = r.pos;
                    let _ = self.registry.set_target(t, Some(to), at_loop);
                    out.push(
                        SceneDelta::TargetArrow {
                            user_id,
                            tag: t,
                            name: name_copy,
                            from,
                            to,
                            color,
                            at_loop,
                        },
                    );
                },
                None => {},
            }
            i += 1;
        }
        proof {
            assert(tags@.take(tags@.len() as int) =~= tags@);
        }
        out
    }

    /// A copy of the acting player's current selection; empty when the
    /// player has not been observed.
    fn selection_of(&self, user_id: i64) -> (out: Vec<UnitTag>)
        requires
            self.wf(),
        ensures
            out@ == spec_player_groups(self.players@, user_id)[ACTIVE_UNITS_GROUP_IDX as int],
    {
        match self.find_player(user_id) {
            Some(idx) => {
                proof {
                    lemma_player_index(self.players@, user_id, idx as int);
                }
                let pref = &self.players[idx];
                pref.active_selection()
            },
            None => {
                let out: Vec<UnitTag> = Vec::new();
                proof {
                    assert(out@ =~= spec_player_groups(
                        self.players@,
                        user_id,
                    )[ACTIVE_UNITS_GROUP_IDX as int]);
                }
                out
            },
        }
    }
}

/// Draws an arrow from each of the acting player's currently selected
/// units to the target point, and records the target on each unit; a
/// lookup miss skips that single arrow.
pub fn register_update_target_point(
    state: &mut ReplayState,
    user_id: i64,
    target: MapPos,
    at_loop: i64,
) -> (out: Vec<SceneDelta>)
    requires
        old(state).wf(),
    ensures
        final(state).wf(),
        final(state).players == old(state).players,
        ({
            let sel = spec_player_groups(old(state).players@, user_id)[ACTIVE_UNITS_GROUP_IDX as int];
            &&& final(state).registry@ == target_fold(
                old(state).registry@,
                sel,
                Some(target),
                at_loop,
            )
            &&& out@ == arrow_deltas(
                old(state).registry@,
                sel,
                user_id,
                target,
                crate::unit_colors::spec_user_color(user_id),
                at_loop,
            )
        }),
{
    let sel = state.selection_of(user_id);
    let color = crate::unit_colors::user_color(user_id);
    state.retarget_tags(&sel, user_id, target, color, at_loop)
}

/// Draws an arrow from each of the acting player's currently selected
/// units to the targeted unit's snapshot position; when the targeted
/// unit itself is unknown, nothing changes and nothing is emitted.
pub fn register_update_target_unit(
    state: &mut ReplayState,
    user_id: i64,
    target_tag: UnitTag,
    snapshot_pos: MapPos,
    at_loop: i64,
) -> (out: Vec<SceneDelta>)
    requires
        old(state).wf(),
    ensures
        final(state).wf(),
        final(state).players == old(state).players,
        !old(state).registry.spec_contains(target_tag) ==> {
            &&& final(state).registry@ == old(state).registry@
            &&& out@ == Seq::<SceneDelta>::empty()
        },
        old(state).registry.spec_contains(target_tag) ==> ({
            let sel = spec_player_groups(old(state).players@, user_id)[ACTIVE_UNITS_GROUP_IDX as int];
            &&& final(state).registry@ == target_fold(
                old(state).registry@,
                sel,
                Some(snapshot_pos),
                at_loop,
            )
            &&& out@ == arrow_deltas(
                old(state).registry@,
                sel,
                user_id,
                snapshot_pos,
                crate::unit_colors::FREYA_RED,
                at_loop,
            )
        }),
{
    let known = match state.registry.get(target_tag) {
        Some(_) => true,
        None => false,
    };
    if !known {
        let out: Vec<SceneDelta> = Vec::new();
        proof {
            assert(out@ =~= Seq::<SceneDelta>::empty());
        }
        return out;
    }
    let sel = state.selection_of(user_id);
    state.retarget_tags(&sel, user_id, snapshot_pos, crate::unit_colors::FREYA_RED, at_loop)
}

/// Selection marking never creates or removes units.
pub proof fn lemma_mark_fold_dom(m: Map<u64, UnitRecord>, tags: Seq<UnitTag>, at_loop: i64)
    ensures
        forall|k: u64| #[trigger] mark_fold(m, tags, at_loop).contains_key(k) == m.contains_key(k),
    decreases tags.len(),
{
    if tags.len() > 0 {
        lemma_mark_fold_dom(m, tags.drop_last(), at_loop);
        let m1 = mark_fold(m, tags.drop_last(), at_loop);
        let res = mark_fold(m, tags, at_loop);
        assert forall|k: u64| #[trigger] res.contains_key(k) == m.contains_key(k) by {
            assert(m1.contains_key(k) == m.contains_key(k));
        }
    }
}

/// Selection unmarking never creates or removes units.
pub proof fn lemma_unmark_fold_dom(m: Map<u64, UnitRecord>, tags: Seq<UnitTag>, at_loop: i64)
    ensures
        forall|k: u64| #[trigger]
            unmark_fold(m, tags, at_loop).contains_key(k) == m.contains_key(k),
    decreases tags.len(),
{
    if tags.len() > 0 {
        lemma_unmark_fold_dom(m, tags.drop_last(), at_loop);
        let m1 = unmark_fold(m, tags.drop_last(), at_loop);
        let res = unmark_fold(m, tags, at_loop);
        assert forall|k: u64| #[trigger] res.contains_key(k) == m.contains_key(k) by {
            assert(m1.contains_key(k) == m.contains_key(k));
        }
    }
}

/// Retargeting never creates or removes units.
pub proof fn lemma_target_fold_dom(
    m: Map<u64, UnitRecord>,
    tags: Seq<UnitTag>,
    target: Option<MapPos>,
    at_loop: i64,
)
    ensures
        forall|k: u64| #[trigger]
            target_fold(m, tags, target, at_loop).contains_key(k) == m.contains_key(k),
    decreases tags.len(),
{
    if tags.len() > 0 {
        lemma_target_fold_dom(m, tags.drop_last(), target, at_loop);
        let m1 = target_fold(m, tags.drop_last(), target, at_loop);
        let res = target_fold(m, tags, target, at_loop);
        assert forall|k: u64| #[trigger] res.contains_key(k) == m.contains_key(k) by {
            assert(m1.contains_key(k) == m.contains_key(k));
        }
    }
}

/// The registry effect of a command: the selected units are pointed at
/// the target; a command without a resolvable target changes nothing.
pub open spec fn cmd_fold(
    m: Map<u64, UnitRecord>,
    sel: Seq<UnitTag>,
    data: crate::events::CmdData,
    at_loop: i64,
) -> Map<u64, UnitRecord> {
    match data {
        crate::events::CmdData::TargetPoint { pos } => target_fold(m, sel, Some(pos), at_loop),
        crate::events::CmdData::TargetUnit { tag, snapshot_pos } => if m.contains_key(
            tag_key(tag),
        ) {
            target_fold(m, sel, Some(snapshot_pos), at_loop)
        } else {
            m
        },
        _ => m,
    }
}

/// The arrows of a command: one per known selected unit, toward the
/// resolved target.
pub open spec fn cmd_base_deltas(
    m: Map<u64, UnitRecord>,
    sel: Seq<UnitTag>,
    user_id: i64,
    data: crate::events::CmdData,
    at_loop: i64,
) -> Seq<SceneDelta> {
    match data {
        crate::events::CmdData::TargetPoint { pos } => arrow_deltas(
            m,
            sel,
            user_id,
            pos,
            crate::unit_colors::spec_user_color(user_id),
            at_loop,
        ),
        crate::events::CmdData::TargetUnit { tag, snapshot_pos } => if m.contains_key(
            tag_key(tag),
        ) {
            arrow_deltas(m, sel, user_id, snapshot_pos, crate::unit_colors::FREYA_RED, at_loop)
        } else {
            Seq::<SceneDelta>::empty()
        },
        _ => Seq::<SceneDelta>::empty(),
    }
}

/// Dispatches a command of the acting player to its selected units:
/// arrows toward the target, the recorded per-unit targets, and one
/// ability note per selected unit when the command names an ability.
pub fn register_cmd(
    state: &mut ReplayState,
    user_id: i64,
    data: crate::events::CmdData,
    ability: &Option<String>,
    at_loop: i64,
) -> (out: Vec<SceneDelta>)
    requires
        old(state).wf(),
    ensures
        final(state).wf(),
        final(state).players == old(state).players,
        ({
            let sel = spec_player_groups(old(state).players@, user_id)[ACTIVE_UNITS_GROUP_IDX as int];
            let mf = cmd_fold(old(state).registry@, sel, data, at_loop);
            &&& final(state).registry@ == mf
            &&& out@ == cmd_base_deltas(old(state).registry@, sel, user_id, data, at_loop)
                + (match *ability {
                Some(a) => ability_notes(mf, sel, user_id, a, at_loop),
                None => Seq::<SceneDelta>::empty(),
            })
        }),
{
    let ghost sel_spec = spec_player_groups(old(state).players@, user_id)[ACTIVE_UNITS_GROUP_IDX as int];
    let mut out: Vec<SceneDelta> = match data {
        crate::events::CmdData::TargetPoint { pos } => {
            register_update_target_point(state, user_id, pos, at_loop)
        },
        crate::events::CmdData::TargetUnit { tag, snapshot_pos } => {
            register_update_target_unit(state, user_id, tag, snapshot_pos, at_loop)
        },
        _ => Vec::new(),
    };
    let ghost base = out@;
    proof {
        assert(base =~= cmd_base_deltas(old(state).registry@, sel_spec, user_id, data, at_loop));
        assert(state.registry@ == cmd_fold(old(state).registry@, sel_spec, data, at_loop));
    }
    match ability {
        Some(a) => {
            let sel = state.selection_of(user_id);
            proof {
                assert(sel@ == sel_spec);
            }
            let mut i: usize = 0;
            while i < sel.len()
                invariant
                    state.wf(),
                    i <= sel@.len(),
                    out@ == base + ability_notes(
                        state.registry@,
                        sel@.take(i as int),
                        user_id,
                        *a,
                        at_loop,
                    ),
                decreases sel@.len() - i,
            {
                proof {
                    let pre = sel@.take(i as int);
                    assert(sel@.take(i + 1 as int) =~= pre.push(sel@[i as int]));
                    assert(sel@.take(i + 1 as int).drop_last() =~= pre);
                    assert(sel@.take(i + 1 as int).last() == sel@[i as int]);
                }
                let t = sel[i];
                match state.registry.get(t) {
                    Some(r) => {
                        out.push(
                            SceneDelta::AbilityNote {
                                user_id,
                                tag: t,
                                name: r.name.clone(),
                                ability: a.clone(),
                                at_loop,
                            },
                        );
                    },
                    None => {},
                }
                i += 1;
            }
            proof {
                assert(sel@.take(sel@.len() as int) =~= sel@);
            }
        },
        None => {
            proof {
                assert(out@ =~= base + Seq::<SceneDelta>::empty());
            }
        },
    }
    out
}

/// Emits a chat line; the state never changes on a chat event.
pub fn handle_chat_message(user_id: i64, message: String, at_loop: i64) -> (out: Vec<SceneDelta>)
    ensures
        out@ == seq![SceneDelta::ChatNote { user_id, message, at_loop }],
{
    let ghost msg = message;
    let mut out: Vec<SceneDelta> = Vec::new();
    out.push(SceneDelta::ChatNote { user_id, message, at_loop });
    proof {
        assert(out@ =~= seq![SceneDelta::ChatNote { user_id, message: msg, at_loop }]);
    }
    out
}

/// Emits one numeric series point per stat sample; the state never
/// changes on a stats event.
pub fn register_player_stats(player_id: i64, stats: &Vec<StatEntry>, at_loop: i64) -> (out: Vec<
    SceneDelta,
>)
    ensures
        out@.len() == stats@.len(),
        forall|k: int|
            0 <= k < stats@.len() ==> out@[k] == (SceneDelta::StatPoint {
                player_id,
                name: stats@[k].name,
                value: stats@[k].value,
                at_loop,
            }),
{
    let mut out: Vec<SceneDelta> = Vec::new();
    let mut i: usize = 0;
    while i < stats.len()
        invariant
            i <= stats@.len(),
            out@.len() == i,
            forall|k: int|
                0 <= k < i ==> out@[k] == (SceneDelta::StatPoint {
                    player_id,
                    name: stats@[k].name,
                    value: stats@[k].value,
                    at_loop,
                }),
        decreases stats@.len() - i,
    {
        out.push(
            SceneDelta::StatPoint {
                player_id,
                name: stats[i].name.clone(),
                value: stats[i].value,
                at_loop,
            },
        );
        i += 1;
    }
    out
}

/// The registry after one tracker event has been applied.
pub open spec fn tracker_registry_step(
    m: Map<u64, UnitRecord>,
    p: TrackerPayload,
    at_loop: i64,
) -> Map<u64, UnitRecord> {
    match p {
        TrackerPayload::UnitInit { tag, name, owner, pos } => if m.contains_key(tag_key(tag)) {
            m.insert(tag_key(tag), spec_with_position(m[tag_key(tag)], pos, at_loop))
        } else {
            m.insert(tag_key(tag), spec_fresh_record(tag, name, owner, pos, None, at_loop))
        },
        TrackerPayload::UnitBorn { tag, name, owner, pos, creator_ability } => if m.contains_key(
            tag_key(tag),
        ) {
            m.insert(tag_key(tag), spec_with_creator(m[tag_key(tag)], creator_ability, at_loop))
        } else {
            m.insert(
                tag_key(tag),
                spec_fresh_record(tag, name, owner, pos, creator_ability, at_loop),
            )
        },
        TrackerPayload::UnitTypeChange { tag, name } => if m.contains_key(tag_key(tag)) {
            m.insert(tag_key(tag), spec_with_name(m[tag_key(tag)], name, at_loop))
        } else {
            m
        },
        TrackerPayload::UnitDied { tag, .. } => m.remove(tag_key(tag)),
        TrackerPayload::UnitPosition { entries } => positions_fold(m, entries@, at_loop),
        TrackerPayload::PlayerStats { .. } => m,
        TrackerPayload::Upgrade { .. } => m,
    }
}

/// The deltas one tracker event emits.
pub open spec fn tracker_deltas(
    m: Map<u64, UnitRecord>,
    p: TrackerPayload,
    at_loop: i64,
) -> Seq<SceneDelta> {
    match p {
        TrackerPayload::UnitInit { tag, name, owner, pos } => if m.contains_key(tag_key(tag)) {
            seq![
                spec_unit_shown(
                    UnitPhase::Init,
                    spec_with_position(m[tag_key(tag)], pos, at_loop),
                    at_loop,
                ),
            ]
        } else {
            seq![
                spec_unit_shown(
                    UnitPhase::Init,
                    spec_fresh_record(tag, name, owner, pos, None, at_loop),
                    at_loop,
                ),
            ]
        },
        TrackerPayload::UnitBorn { tag, name, owner, pos, creator_ability } => if m.contains_key(
            tag_key(tag),
        ) {
            seq![
                spec_unit_shown(
                    UnitPhase::Born,
                    spec_with_creator(m[tag_key(tag)], creator_ability, at_loop),
                    at_loop,
                ),
            ]
        } else {
            seq![
                spec_unit_shown(
                    UnitPhase::Born,
                    spec_fresh_record(tag, name, owner, pos, creator_ability, at_loop),
                    at_loop,
                ),
            ]
        },
        TrackerPayload::UnitTypeChange { tag, name } => if m.contains_key(tag_key(tag)) {
            seq![
                spec_unit_shown(
                    UnitPhase::TypeChanged,
                    spec_with_name(m[tag_key(tag)], name, at_loop),
                    at_loop,
                ),
            ]
        } else {
            Seq::<SceneDelta>::empty()
        },
        TrackerPayload::UnitDied { tag, pos, killer } => if m.contains_key(tag_key(tag)) {
            seq![
                SceneDelta::UnitRemoved { tag, name: m[tag_key(tag)].name, at_loop },
                SceneDelta::DeathMarker { tag, name: m[tag_key(tag)].name, pos, killer, at_loop },
            ]
        } else {
            Seq::<SceneDelta>::empty()
        },
        TrackerPayload::UnitPosition { entries } => moved_deltas(m, entries@, at_loop),
        TrackerPayload::PlayerStats { player_id, stats } => Seq::new(
            stats@.len(),
            |k: int|
                SceneDelta::StatPoint {
                    player_id,
                    name: stats@[k].name,
                    value: stats@[k].value,
                    at_loop,
                },
        ),
        TrackerPayload::Upgrade { player_id, name, count } => seq![
            SceneDelta::UpgradeNote { player_id, name, count, at_loop },
        ],
    }
}

/// Applies one tracker event to the state and emits its deltas: the
/// lifecycle and economy half of the projection. A died event also
/// purges the tag from every player's control groups; every other
/// tracker event leaves the players untouched. Whether a tag is alive
/// afterwards follows `spec_alive_step`.
pub fn add_tracker_event(state: &mut ReplayState, payload: &TrackerPayload, at_loop: i64) -> (out:
    Vec<SceneDelta>)
    requires
        old(state).wf(),
    ensures
        final(state).wf(),
        final(state).registry@ == tracker_registry_step(old(state).registry@, *payload, at_loop),
        out@ == tracker_deltas(old(state).registry@, *payload, at_loop),
        match *payload {
            TrackerPayload::UnitDied { tag, .. } => ({
                let oldp = old(state).players@;
                let newp = final(state).players@;
                &&& newp.len() == oldp.len()
                &&& forall|p: int|
                    0 <= p < oldp.len() ==> (#[trigger] newp[p]).player == oldp[p].player
                        && newp[p]@ == cg_purge(oldp[p]@, tag)
            }),
            _ => final(state).players == old(state).players,
        },
        forall|t: UnitTag|
            final(state).registry@.contains_key(#[trigger] tag_key(t)) == spec_alive_step(
                old(state).registry@.contains_key(tag_key(t)),
                payload@,
                t,
            ),
{
    let ghost m0 = old(state).registry@;
    let out = match payload {
        TrackerPayload::UnitInit { tag, name, owner, pos } => {
            let r = register_unit_init(state, *tag, name.clone(), *owner, *pos, at_loop);
            proof {
                let tg = *tag;
                assert forall|t: UnitTag|
                    state.registry@.contains_key(#[trigger] tag_key(t)) == spec_alive_step(
                        m0.contains_key(tag_key(t)),
                        payload@,
                        t,
                    ) by {
                    if tag_key(t) == tag_key(tg) {
                        lemma_tag_key_injective(t, tg);
                    }
                }
            }
            r
        },
        TrackerPayload::UnitBorn { tag, name, owner, pos, creator_ability } => {
            let r = register_unit_born(
                state,
                *tag,
                name.clone(),
                *owner,
                *pos,
                crate::events::clone_opt_string(creator_ability),
                at_loop,
            );
            proof {
                let tg = *tag;
                assert forall|t: UnitTag|
                    state.registry@.contains_key(#[trigger] tag_key(t)) == spec_alive_step(
                        m0.contains_key(tag_key(t)),
                        payload@,
                        t,
                    ) by {
                    if tag_key(t) == tag_key(tg) {
                        lemma_tag_key_injective(t, tg);
                    }
                }
            }
            r
        },
        TrackerPayload::UnitTypeChange { tag, name } => {
            let r = register_unit_type_change(state, *tag, name.clone(), at_loop);
            proof {
                let tg = *tag;
                assert forall|t: UnitTag|
                    state.registry@.contains_key(#[trigger] tag_key(t)) == spec_alive_step(
                        m0.contains_key(tag_key(t)),
                        payload@,
                        t,
                    ) by {
                    if tag_key(t) == tag_key(tg) {
                        lemma_tag_key_injective(t, tg);
                    }
                }
            }
            r
        },
        TrackerPayload::UnitDied { tag, pos, killer } => {
            let r = register_unit_died(state, *tag, *pos, *killer, at_loop);
            proof {
                let tg = *tag;
                assert forall|t: UnitTag|
                    state.registry@.contains_key(#[trigger] tag_key(t)) == spec_alive_step(
                        m0.contains_key(tag_key(t)),
                        payload@,
                        t,
                    ) by {
                    if tag_key(t) == tag_key(tg) {
                        lemma_tag_key_injective(t, tg);
                    }
                }
            }
            r
        },
        TrackerPayload::UnitPosition { entries } => {
            let r = register_unit_position(state, entries, at_loop);
            proof {
                lemma_positions_fold_dom(m0, entries@, at_loop);
            }
            r
        },
        TrackerPayload::PlayerStats { player_id, stats } => {
            let r = register_player_stats(*player_id, stats, at_loop);
            proof {
                assert(r@ =~= tracker_deltas(m0, *payload, at_loop));
            }
            r
        },
        TrackerPayload::Upgrade { player_id, name, count } => {
            let ghost nm = name;
            let mut r: Vec<SceneDelta> = Vec::new();
            r.push(
                SceneDelta::UpgradeNote {
                    player_id: *player_id,
                    name: name.clone(),
                    count: *count,
                    at_loop,
                },
            );
            proof {
                assert(r@ =~= seq![
                    SceneDelta::UpgradeNote {
                        player_id: *player_id,
                        name: *nm,
                        count: *count,
                        at_loop,
                    },
                ]);
            }
            r
        },
    };
    out
}

/// The registry after one game event has been applied.
pub open spec fn game_registry_step(
    m: Map<u64, UnitRecord>,
    players: Seq<PlayerControl>,
    user_id: i64,
    p: crate::events::GamePayload,
    at_loop: i64,
) -> Map<u64, UnitRecord> {
    let gs = spec_player_groups(players, user_id);
    let sel = gs[ACTIVE_UNITS_GROUP_IDX as int];
    match p {
        crate::events::GamePayload::Cmd { data, .. } => cmd_fold(m, sel, data, at_loop),
        crate::events::GamePayload::CmdUpdateTargetPoint { pos } => target_fold(
            m,
            sel,
            Some(pos),
            at_loop,
        ),
        crate::events::GamePayload::CmdUpdateTargetUnit { tag, snapshot_pos } => if m.contains_key(
            tag_key(tag),
        ) {
            target_fold(m, sel, Some(snapshot_pos), at_loop)
        } else {
            m
        },
        crate::events::GamePayload::SelectionDelta { add_unit_tags } => mark_fold(
            unmark_fold(m, sel, at_loop),
            add_unit_tags@,
            at_loop,
        ),
        crate::events::GamePayload::ControlGroupUpdate { group_index, op } => if group_index < 10
            && op is Recall {
            mark_fold(m, gs[group_index as int], at_loop)
        } else {
            m
        },
        _ => m,
    }
}

/// Applies one game event to the state and emits its deltas: the
/// player-input half of the projection. Game events never create or
/// remove units, so every alive tag stays alive.
pub fn add_game_event(
    state: &mut ReplayState,
    user_id: i64,
    payload: &crate::events::GamePayload,
    camera_divisor: u64,
    at_loop: i64,
) -> (out: Vec<SceneDelta>)
    requires
        old(state).wf(),
        camera_divisor >= 1,
    ensures
        final(state).wf(),
        final(state).registry@ == game_registry_step(
            old(state).registry@,
            old(state).players@,
            user_id,
            *payload,
            at_loop,
        ),
        ({
            let gs = spec_player_groups(old(state).players@, user_id);
            let sel = gs[ACTIVE_UNITS_GROUP_IDX as int];
            let m0 = old(state).registry@;
            match *payload {
                crate::events::GamePayload::CameraUpdate { target } => final(state).players == old(state).players && out@ == (match target {
                    Some(t) => seq![
                        SceneDelta::CameraMarker {
                            user_id,
                            pos: spec_scale_pos(t, camera_divisor),
                            color: crate::unit_colors::spec_user_color(user_id),
                            at_loop,
                        },
                    ],
                    None => Seq::<SceneDelta>::empty(),
                }),
                crate::events::GamePayload::CameraSave { which, target } => final(state).players
                    == old(state).players && out@ == seq![
                    SceneDelta::CameraSaveMarker {
                        user_id,
                        which,
                        pos: spec_scale_pos(target, camera_divisor),
                        color: crate::unit_colors::spec_user_color(user_id),
                        at_loop,
                    },
                ],
                crate::events::GamePayload::Cmd { data, ability } => final(state).players == old(state).players && out@ == cmd_base_deltas(m0, sel, user_id, data, at_loop) + (match ability {
                    Some(a) => ability_notes(
                        cmd_fold(m0, sel, data, at_loop),
                        sel,
                        user_id,
                        a,
                        at_loop,
                    ),
                    None => Seq::<SceneDelta>::empty(),
                }),
                crate::events::GamePayload::CmdUpdateTargetPoint { pos } => final(state).players
                    == old(state).players && out@ == arrow_deltas(
                    m0,
                    sel,
                    user_id,
                    pos,
                    crate::unit_colors::spec_user_color(user_id),
                    at_loop,
                ),
                crate::events::GamePayload::CmdUpdateTargetUnit { tag, snapshot_pos } => final(state).players == old(state).players && out@ == (if m0.contains_key(tag_key(tag)) {
                    arrow_deltas(
                        m0,
                        sel,
                        user_id,
                        snapshot_pos,
                        crate::unit_colors::FREYA_RED,
                        at_loop,
                    )
                } else {
                    Seq::<SceneDelta>::empty()
                }),
                crate::events::GamePayload::SelectionDelta { add_unit_tags } => players_updated(
                    old(state).players@,
                    final(state).players@,
                    user_id,
                    gs.update(ACTIVE_UNITS_GROUP_IDX as int, add_unit_tags@),
                ) && out@ == mark_pulses(unmark_fold(m0, sel, at_loop), add_unit_tags@, at_loop),
                crate::events::GamePayload::ControlGroupUpdate { group_index, op } => if group_index
                    < 10 {
                    players_updated(
                        old(state).players@,
                        final(state).players@,
                        user_id,
                        cg_apply(gs, op, group_index as int),
                    ) && out@ == (if op is Recall {
                        mark_pulses(m0, gs[group_index as int], at_loop)
                    } else {
                        Seq::<SceneDelta>::empty()
                    })
                } else {
                    final(state).players@ == old(state).players@ && out@ == Seq::<
                        SceneDelta,
                    >::empty()
                },
                crate::events::GamePayload::ChatMessage { message } => final(state).players == old(state).players && out@ == seq![SceneDelta::ChatNote { user_id, message, at_loop }],
            }
        }),
        forall|t: UnitTag|
            final(state).registry@.contains_key(#[trigger] tag_key(t)) == old(state).registry@.contains_key(tag_key(t)),
{
    let ghost m0 = old(state).registry@;
    let ghost gs = spec_player_groups(old(state).players@, user_id);
    let ghost sel = gs[ACTIVE_UNITS_GROUP_IDX as int];
    let out = match payload {
        crate::events::GamePayload::CameraUpdate { target } => {
            register_camera_update(user_id, target, camera_divisor, at_loop)
        },
        crate::events::GamePayload::CameraSave { which, target } => {
            register_camera_save(user_id, *which, *target, camera_divisor, at_loop)
        },
        crate::events::GamePayload::Cmd { data, ability } => {
            register_cmd(state, user_id, *data, ability, at_loop)
        },
        crate::events::GamePayload::CmdUpdateTargetPoint { pos } => {
            register_update_target_point(state, user_id, *pos, at_loop)
        },
        crate::events::GamePayload::CmdUpdateTargetUnit { tag, snapshot_pos } => {
            register_update_target_unit(state, user_id, *tag, *snapshot_pos, at_loop)
        },
        crate::events::GamePayload::SelectionDelta { add_unit_tags } => {
            register_selection_delta(state, user_id, add_unit_tags, at_loop)
        },
        crate::events::GamePayload::ControlGroupUpdate { group_index, op } => {
            update_control_group(state, user_id, *group_index, *op, at_loop)
        },
        crate::events::GamePayload::ChatMessage { message } => {
            handle_chat_message(user_id, message.clone(), at_loop)
        },
    };
    proof {
        match payload {
            crate::events::GamePayload::Cmd { data, .. } => {
                match data {
                    crate::events::CmdData::TargetPoint { pos } => {
                        lemma_target_fold_dom(m0, sel, Some(*pos), at_loop);
                    },
                    crate::events::CmdData::TargetUnit { snapshot_pos, .. } => {
                        lemma_target_fold_dom(m0, sel, Some(*snapshot_pos), at_loop);
                    },
                    _ => {},
                }
            },
            crate::events::GamePayload::CmdUpdateTargetPoint { pos } => {
                lemma_target_fold_dom(m0, sel, Some(*pos), at_loop);
            },
            crate::events::GamePayload::CmdUpdateTargetUnit { snapshot_pos, .. } => {
                lemma_target_fold_dom(m0, sel, Some(*snapshot_pos), at_loop);
            },
            crate::events::GamePayload::SelectionDelta { add_unit_tags } => {
                lemma_unmark_fold_dom(m0, sel, at_loop);
                lemma_mark_fold_dom(unmark_fold(m0, sel, at_loop), add_unit_tags@, at_loop);
            },
            crate::events::GamePayload::ControlGroupUpdate { group_index, op } => {
                if *group_index < 10 && *op is Recall {
                    lemma_mark_fold_dom(m0, gs[*group_index as int], at_loop);
                }
            },
            _ => {},
        }
    }
    out
}

} // verus!
