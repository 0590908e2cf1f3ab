//! The unit registry: the authoritative table of live units, keyed by
//! the packed unit tag. It applies init/born/position/died events and
//! selection marking, and answers lookups for the projection emitter.
//! The table's invariant: every stored record sits under the key packed
//! from its own tag, and its radius respects the selection scaling
//! bounds, so selecting then deselecting restores the radius exactly.

use vstd::prelude::*;

use std::collections::HashMap;

use crate::events::MapPos;
use crate::tag::{tag_key, UnitTag};
use crate::unit_colors::{get_unit_sized_color, spec_unit_sized_color, UNIT_SIZE_MAX};

verus! {

broadcast use vstd::std_specs::hash::group_hash_axioms;

/// Upper bound on the unselected radius of any unit. Radii come from
/// the size table (at most `UNIT_SIZE_MAX`), so doubling a radius on
/// selection never overflows.
pub const RADIUS_LIMIT: u64 = 0x1000;

/// One live unit.
#[derive(Debug, PartialEq)]
pub struct UnitRecord {
    /// The stable identity of the unit.
    pub tag: UnitTag,
    /// The display/type name.
    pub name: String,
    /// The owning player, when the unit has one (environmental objects
    /// have none).
    pub owner: Option<i64>,
    /// The current position in map units.
    pub pos: MapPos,
    /// The current movement/attack target, if any.
    pub target: Option<MapPos>,
    /// The visual radius, in hundredths of a map unit; doubled while
    /// the unit is selected.
    pub radius: u64,
    /// Whether the unit is currently selected by its owner.
    pub selected: bool,
    /// The display color.
    pub color: [u8; 4],
    /// The loop at which the unit was first registered.
    pub creation_loop: i64,
    /// The loop of the most recent update to this record.
    pub last_updated: i64,
    /// The ability that spawned the unit, when known.
    pub creator_ability: Option<String>,
}

/// The radius a unit shows while selected: exactly double the resting
/// radius.
pub open spec fn selected_radius(r: u64) -> u64 {
    (r * 2) as u64
}

/// The radius a unit returns to when deselected: exactly half the
/// selected radius.
pub open spec fn deselected_radius(r: u64) -> u64 {
    r / 2
}

impl UnitRecord {
    /// Radius bound kept by every registry operation: a resting radius
    /// stays under `RADIUS_LIMIT`; a selected radius is even (it was
    /// doubled) and halves back to under the limit.
    pub open spec fn radius_wf(self) -> bool {
        if self.selected {
            self.radius % 2 == 0 && self.radius / 2 <= RADIUS_LIMIT
        } else {
            self.radius <= RADIUS_LIMIT
        }
    }
}

/// The record a unit starts from when first observed: unselected, at
/// the given position, with size and color derived from its type name
/// and owner.
pub open spec fn spec_fresh_record(
    tag: UnitTag,
    name: String,
    owner: Option<i64>,
    pos: MapPos,
    creator_ability: Option<String>,
    at_loop: i64,
) -> UnitRecord {
    UnitRecord {
        tag,
        name,
        owner,
        pos,
        target: None,
        radius: spec_unit_sized_color(name@, spec_owner_or_zero(owner)).0,
        selected: false,
        color: spec_unit_sized_color(name@, spec_owner_or_zero(owner)).1,
        creation_loop: at_loop,
        last_updated: at_loop,
        creator_ability,
    }
}

/// The player id used for color lookups of a unit without an owner.
pub open spec fn spec_owner_or_zero(owner: Option<i64>) -> i64 {
    match owner {
        Some(v) => v,
        None => 0,
    }
}

/// A record refreshed by a position update: new position, new
/// last-updated loop, identity and the rest unchanged.
pub open spec fn spec_with_position(rec: UnitRecord, pos: MapPos, at_loop: i64) -> UnitRecord {
    UnitRecord { pos, last_updated: at_loop, ..rec }
}

/// A record augmented by a born event on an already known tag: only the
/// creator ability and the last-updated loop change.
pub open spec fn spec_with_creator(
    rec: UnitRecord,
    creator_ability: Option<String>,
    at_loop: i64,
) -> UnitRecord {
    UnitRecord { creator_ability, last_updated: at_loop, ..rec }
}

/// A record whose name changed (unit type change): size and color are
/// re-derived from the new name.
pub open spec fn spec_with_name(rec: UnitRecord, name: String, at_loop: i64) -> UnitRecord {
    UnitRecord {
        name,
        radius: spec_unit_sized_color(name@, spec_owner_or_zero(rec.owner)).0,
        selected: false,
        color: spec_unit_sized_color(name@, spec_owner_or_zero(rec.owner)).1,
        last_updated: at_loop,
        ..rec
    }
}

/// A record retargeted by a command: the movement/attack target and the
/// last-updated loop change.
pub open spec fn spec_with_target(rec: UnitRecord, target: Option<MapPos>, at_loop: i64) -> UnitRecord {
    UnitRecord { target, last_updated: at_loop, ..rec }
}

/// A record touched without a state change: only the last-updated loop
/// moves.
pub open spec fn spec_with_touch(rec: UnitRecord, at_loop: i64) -> UnitRecord {
    UnitRecord { last_updated: at_loop, ..rec }
}

/// A record crossing a selection transition: the flag flips and the
/// radius doubles (select) or halves (deselect).
pub open spec fn spec_with_selection(rec: UnitRecord, selected: bool, at_loop: i64) -> UnitRecord {
    UnitRecord {
        selected,
        radius: if selected {
            selected_radius(rec.radius)
        } else {
            deselected_radius(rec.radius)
        },
        last_updated: at_loop,
        ..rec
    }
}

impl Default for UnitRecord {
    /// A placeholder unit: slot zero, the unknown type name, resting
    /// default radius, no owner.
    fn default() -> (r: Self)
        ensures
            r.tag == (UnitTag { index: 0, recycle: 0 }),
            r.name@ == "Unknown"@,
            r.owner is None,
            r.pos == (MapPos { x: 0, y: 0 }),
            r.target is None,
            r.radius == crate::unit_colors::UNIT_SIZE_DEFAULT,
            !r.selected,
            r.creation_loop == 0,
            r.last_updated == 0,
            r.creator_ability is None,
            r.radius_wf(),
    {
        UnitRecord {
            tag: UnitTag { index: 0, recycle: 0 },
            name: "Unknown".to_owned(),
            owner: None,
            pos: MapPos { x: 0, y: 0 },
            target: None,
            radius: crate::unit_colors::UNIT_SIZE_DEFAULT,
            selected: false,
            color: crate::unit_colors::FREYA_WHITE,
            creation_loop: 0,
            last_updated: 0,
            creator_ability: None,
        }
    }
}

/// Copies a record field by field.
pub fn clone_record(r: &UnitRecord) -> (c: UnitRecord)
    ensures
        c == *r,
{
    UnitRecord {
        tag: r.tag,
        name: r.name.clone(),
        owner: r.owner,
        pos: r.pos,
        target: r.target,
        radius: r.radius,
        selected: r.selected,
        color: r.color,
        creation_loop: r.creation_loop,
        last_updated: r.last_updated,
        creator_ability: match &r.creator_ability {
            Some(s) => Some(s.clone()),
            None => None,
        },
    }
}

/// The authoritative table of live units, keyed by packed unit tag.
pub struct UnitRegistry {
    units: HashMap<u64, UnitRecord>,
}

impl View for UnitRegistry {
    type V = Map<u64, UnitRecord>;

    closed spec fn view(&self) -> Map<u64, UnitRecord> {
        self.units@
    }
}

impl UnitRegistry {
    /// Every stored record is keyed by its own tag and keeps the radius
    /// bounds.
    pub open spec fn wf(self) -> bool {
        forall|k: u64| #[trigger]
            self@.contains_key(k) ==> tag_key(self@[k].tag) == k && self@[k].radius_wf()
    }

    /// Whether a unit with this tag is currently alive.
    pub open spec fn spec_contains(self, tag: UnitTag) -> bool {
        self@.contains_key(tag_key(tag))
    }

    /// The record of an alive unit.
    pub open spec fn spec_at(self, tag: UnitTag) -> UnitRecord {
        self@[tag_key(tag)]
    }

    /// An empty registry.
    pub fn new() -> (r: Self)
        ensures
            r@ == Map::<u64, UnitRecord>::empty(),
            r.wf(),
    {
        UnitRegistry { units: HashMap::new() }
    }

    /// The number of currently alive units.
    pub fn len(&self) -> (n: usize)
        ensures
            n == self@.len(),
    {
        self.units.len()
    }

    /// Read-only lookup used to resolve positions and names.
    pub fn get(&self, tag: UnitTag) -> (r: Option<&UnitRecord>)
        ensures
            match r {
                Some(rec) => self.spec_contains(tag) && *rec == self.spec_at(tag),
                None => !self.spec_contains(tag),
            },
    {
        let k = tag.key();
        self.units.get(&k)
    }

    /// Registers a unit on an init event. An unknown tag gets a fresh
    /// record; a known tag keeps its identity and only refreshes
    /// position and last-updated loop (re-initialization is anomalous
    /// but not fatal). Returns a copy of the stored record.
    pub fn init_or_register(
        &mut self,
        tag: UnitTag,
        name: String,
        owner: Option<i64>,
        pos: MapPos,
        at_loop: i64,
    ) -> (rec: UnitRecord)
        requires
            old(self).wf(),
        ensures
            final(self).wf(),
            old(self).spec_contains(tag) ==> {
                &&& final(self)@ == old(self)@.insert(
                    tag_key(tag),
                    spec_with_position(old(self).spec_at(tag), pos, at_loop),
                )
                &&& rec == spec_with_position(old(self).spec_at(tag), pos, at_loop)
            },
            !old(self).spec_contains(tag) ==> {
                &&& final(self)@ == old(self)@.insert(
                    tag_key(tag),
                    spec_fresh_record(tag, name, owner, pos, None, at_loop),
                )
                &&& rec == spec_fresh_record(tag, name, owner, pos, None, at_loop)
            },
    {
        let k = tag.key();
        match self.units.get(&k) {
            Some(existing) => {
                let updated = UnitRecord {
                    tag: existing.tag,
                    name: existing.name.clone(),
                    owner: existing.owner,
                    pos,
                    target: existing.target,
                    radius: existing.radius,
                    selected: existing.selected,
                    color: existing.color,
                    creation_loop: existing.creation_loop,
                    last_updated: at_loop,
                    creator_ability: match &existing.creator_ability {
                        Some(s) => Some(s.clone()),
                        None => None,
                    },
                };
                let out = clone_record(&updated);
                self.units.insert(k, updated);
                out
            },
            None => {
                let owner_id = match owner {
                    Some(v) => v,
                    None => 0,
                };
                let (size, color) = get_unit_sized_color(name.as_str(), owner_id);
                let fresh = UnitRecord {
                    tag,
                    name,
                    owner,
                    pos,
                    target: None,
                    radius: size,
                    selected: false,
                    color,
                    creation_loop: at_loop,
                    last_updated: at_loop,
                    creator_ability: None,
                };
                let out = clone_record(&fresh);
                proof {
                    assert(UNIT_SIZE_MAX <= RADIUS_LIMIT);
                }
                self.units.insert(k, fresh);
                out
            },
        }
    }

    /// Applies a born event. A known tag is only augmented with the
    /// creator ability; an unknown tag (observed in practice for some
    /// unit kinds) gets a fresh minimal record rather than failing.
    /// Returns a copy of the stored record.
    pub fn born(
        &mut self,
        tag: UnitTag,
        name: String,
        owner: Option<i64>,
        pos: MapPos,
        creator_ability: Option<String>,
        at_loop: i64,
    ) -> (rec: UnitRecord)
        requires
            old(self).wf(),
        ensures
            final(self).wf(),
            old(self).spec_contains(tag) ==> {
                &&& final(self)@ == old(self)@.insert(
                    tag_key(tag),
                    spec_with_creator(old(self).spec_at(tag), creator_ability, at_loop),
                )
                &&& rec == spec_with_creator(old(self).spec_at(tag), creator_ability, at_loop)
            },
            !old(self).spec_contains(tag) ==> {
                &&& final(self)@ == old(self)@.insert(
                    tag_key(tag),
                    spec_fresh_record(tag, name, owner, pos, creator_ability, at_loop),
                )
                &&& rec == spec_fresh_record(tag, name, owner, pos, creator_ability, at_loop)
            },
    {
        let k = tag.key();
        match self.units.get(&k) {
            Some(existing) => {
                let updated = UnitRecord {
                    tag: existing.tag,
                    name: existing.name.clone(),
                    owner: existing.owner,
                    pos: existing.pos,
                    target: existing.target,
                    radius: existing.radius,
                    selected: existing.selected,
                    color: existing.color,
                    creation_loop: existing.creation_loop,
                    last_updated: at_loop,
                    creator_ability,
                };
                let out = clone_record(&updated);
                self.units.insert(k, updated);
                out
            },
            None => {
                let owner_id = match owner {
                    Some(v) => v,
                    None => 0,
                };
                let (size, color) = get_unit_sized_color(name.as_str(), owner_id);
                let fresh = UnitRecord {
                    tag,
                    name,
                    owner,
                    pos,
                    target: None,
                    radius: size,
                    selected: false,
                    color,
                    creation_loop: at_loop,
                    last_updated: at_loop,
                    creator_ability,
                };
                let out = clone_record(&fresh);
                proof {
                    assert(UNIT_SIZE_MAX <= RADIUS_LIMIT);
                }
                self.units.insert(k, fresh);
                out
            },
        }
    }

    /// Renames a unit on a type-change event, re-deriving its size and
    /// color; an unknown tag is a benign no-op. Returns a copy of the
    /// stored record when the tag was known.
    pub fn type_change(&mut self, tag: UnitTag, name: String, at_loop: i64) -> (rec: Option<
        UnitRecord,
    >)
        requires
            old(self).wf(),
        ensures
            final(self).wf(),
            old(self).spec_contains(tag) ==> {
                &&& final(self)@ == old(self)@.insert(
                    tag_key(tag),
                    spec_with_name(old(self).spec_at(tag), name, at_loop),
                )
                &&& rec == Some(spec_with_name(old(self).spec_at(tag), name, at_loop))
            },
            !old(self).spec_contains(tag) ==> final(self)@ == old(self)@ && rec is None,
    {
        let k = tag.key();
        match self.units.get(&k) {
            Some(existing) => {
                let owner_id = match existing.owner {
                    Some(v) => v,
                    None => 0,
                };
                let (size, color) = get_unit_sized_color(name.as_str(), owner_id);
                let updated = UnitRecord {
                    tag: existing.tag,
                    name,
                    owner: existing.owner,
                    pos: existing.pos,
                    target: existing.target,
                    radius: size,
                    selected: false,
                    color,
                    creation_loop: existing.creation_loop,
                    last_updated: at_loop,
                    creator_ability: match &existing.creator_ability {
                        Some(s) => Some(s.clone()),
                        None => None,
                    },
                };
                let out = clone_record(&updated);
                proof {
                    assert(UNIT_SIZE_MAX <= RADIUS_LIMIT);
                }
                self.units.insert(k, updated);
                Some(out)
            },
            None => None,
        }
    }

    /// Moves a known unit to a new position; an unknown tag is a
    /// recoverable condition and is skipped. Returns a copy of the
    /// updated record when the tag was known.
    pub fn position_update(&mut self, tag: UnitTag, pos: MapPos, at_loop: i64) -> (rec: Option<
        UnitRecord,
    >)
        requires
            old(self).wf(),
        ensures
            final(self).wf(),
            old(self).spec_contains(tag) ==> {
                &&& final(self)@ == old(self)@.insert(
                    tag_key(tag),
                    spec_with_position(old(self).spec_at(tag), pos, at_loop),
                )
                &&& rec == Some(spec_with_position(old(self).spec_at(tag), pos, at_loop))
            },
            !old(self).spec_contains(tag) ==> final(self)@ == old(self)@ && rec is None,
    {
        let k = tag.key();
        match self.units.get(&k) {
            Some(existing) => {
                let updated = UnitRecord {
                    tag: existing.tag,
                    name: existing.name.clone(),
                    owner: existing.owner,
                    pos,
                    target: existing.target,
                    radius: existing.radius,
                    selected: existing.selected,
                    color: existing.color,
                    creation_loop: existing.creation_loop,
                    last_updated: at_loop,
                    creator_ability: match &existing.creator_ability {
                        Some(s) => Some(s.clone()),
                        None => None,
                    },
                };
                let out = clone_record(&updated);
                self.units.insert(k, updated);
                Some(out)
            },
            None => None,
        }
    }

    /// Points a known unit at a new movement/attack target; an unknown
    /// tag is a recoverable condition and is skipped. Returns a copy of
    /// the updated record when the tag was known.
    pub fn set_target(&mut self, tag: UnitTag, target: Option<MapPos>, at_loop: i64) -> (rec:
        Option<UnitRecord>)
        requires
            old(self).wf(),
        ensures
            final(self).wf(),
            old(self).spec_contains(tag) ==> {
                &&& final(self)@ == old(self)@.insert(
                    tag_key(tag),
                    spec_with_target(old(self).spec_at(tag), target, at_loop),
                )
                &&& rec == Some(spec_with_target(old(self).spec_at(tag), target, at_loop))
            },
            !old(self).spec_contains(tag) ==> final(self)@ == old(self)@ && rec is None,
    {
        let k = tag.key();
        match self.units.get(&k) {
            Some(existing) => {
                let updated = UnitRecord {
                    tag: existing.tag,
                    name: existing.name.clone(),
                    owner: existing.owner,
                    pos: existing.pos,
                    target,
                    radius: existing.radius,
                    selected: existing.selected,
                    color: existing.color,
                    creation_loop: existing.creation_loop,
                    last_updated: at_loop,
                    creator_ability: match &existing.creator_ability {
                        Some(s) => Some(s.clone()),
                        None => None,
                    },
                };
                let out = clone_record(&updated);
                self.units.insert(k, updated);
                Some(out)
            },
            None => None,
        }
    }

    /// Removes and returns the record of a dying unit; an unknown tag
    /// is a benign no-op (units can die while unregistered). The caller
    /// must purge the tag from every player's control groups.
    pub fn died(&mut self, tag: UnitTag) -> (r: Option<UnitRecord>)
        requires
            old(self).wf(),
        ensures
            final(self).wf(),
            match r {
                Some(rec) => {
                    &&& old(self).spec_contains(tag)
                    &&& rec == old(self).spec_at(tag)
                    &&& final(self)@ == old(self)@.remove(tag_key(tag))
                },
                None => {
                    &&& !old(self).spec_contains(tag)
                    &&& final(self)@ == old(self)@
                },
            },
    {
        let k = tag.key();
        let r = self.units.remove(&k);
        proof {
            if !old(self)@.contains_key(k) {
                assert(old(self)@.remove(k) =~= old(self)@);
            }
        }
        r
    }

    /// Sets or clears the selection flag of a unit, scaling the radius
    /// exactly once per transition (doubled when selecting, halved when
    /// deselecting); a repeated call with no state change only touches
    /// the last-updated loop. Unknown tags are skipped. Returns whether
    /// a transition happened.
    pub fn set_selected(&mut self, tag: UnitTag, selected: bool, at_loop: i64) -> (changed: bool)
        requires
            old(self).wf(),
        ensures
            final(self).wf(),
            !old(self).spec_contains(tag) ==> final(self)@ == old(self)@ && !changed,
            old(self).spec_contains(tag) && old(self).spec_at(tag).selected == selected ==> {
                &&& final(self)@ == old(self)@.insert(
                    tag_key(tag),
                    spec_with_touch(old(self).spec_at(tag), at_loop),
                )
                &&& !changed
            },
            old(self).spec_contains(tag) && old(self).spec_at(tag).selected != selected ==> {
                &&& final(self)@ == old(self)@.insert(
                    tag_key(tag),
                    spec_with_selection(old(self).spec_at(tag), selected, at_loop),
                )
                &&& changed
            },
    {
        let k = tag.key();
        match self.units.get(&k) {
            Some(existing) => {
                if existing.selected == selected {
                    let updated = UnitRecord {
                        tag: existing.tag,
                        name: existing.name.clone(),
                        owner: existing.owner,
                        pos: existing.pos,
                        target: existing.target,
                        radius: existing.radius,
                        selected: existing.selected,
                        color: existing.color,
                        creation_loop: existing.creation_loop,
                        last_updated: at_loop,
                        creator_ability: match &existing.creator_ability {
                            Some(s) => Some(s.clone()),
                            None => None,
                        },
                    };
                    self.units.insert(k, updated);
                    false
                } else {
                    let new_radius: u64 = if selected {
                        existing.radius * 2
                    } else {
                        existing.radius / 2
                    };
                    let updated = UnitRecord {
                        tag: existing.tag,
                        name: existing.name.clone(),
                        owner: existing.owner,
                        pos: existing.pos,
                        target: existing.target,
                        radius: new_radius,
                        selected,
                        color: existing.color,
                        creation_loop: existing.creation_loop,
                        last_updated: at_loop,
                        creator_ability: match &existing.creator_ability {
                            Some(s) => Some(s.clone()),
                            None => None,
                        },
                    };
                    self.units.insert(k, updated);
                    true
                }
            },
            None => false,
        }
    }
}

/// Selecting a unit and then deselecting it restores the resting radius
/// exactly: the doubling/halving scaling round-trips.
pub proof fn lemma_radius_round_trip(r: u64)
    requires
        r <= RADIUS_LIMIT,
    ensures
        deselected_radius(selected_radius(r)) == r,
{
}

} // verus!
