//! The filter pipeline: an immutable configuration snapshot of pure
//! predicates applied to each event after merge ordering and before the
//! projection emitter; all predicates compose by logical AND. The
//! event-class filter additionally lets the scheduler drop the excluded
//! stream before merging, and the max-event-count is a scheduler
//! counter, not a per-event predicate.

use vstd::prelude::*;

use crate::events::{GamePayloadV, ReplayEvent, ReplayEventV, TrackerPayloadV};
use crate::tag::UnitTag;

verus! {

/// The two stream classes an event can come from.
#[derive(Clone, Copy, PartialEq, Eq, Structural, Debug)]
pub enum EventClass {
    Tracker,
    Game,
}

/// An immutable filter configuration; every field is optional and
/// unset fields restrict nothing.
#[derive(Debug)]
pub struct Filters {
    /// Keep only game events of this player.
    pub player_id: Option<i64>,
    /// Keep only lifecycle events of this unit tag.
    pub unit_tag: Option<UnitTag>,
    /// Keep only init/born events of units with this type name.
    pub unit_name: Option<String>,
    /// Reject events before this adjusted loop (inclusive bound).
    pub min_loop: Option<i64>,
    /// Reject events after this adjusted loop (inclusive bound).
    pub max_loop: Option<i64>,
    /// Keep only one stream class, dropped before merging.
    pub event_type: Option<EventClass>,
    /// Stop the whole pass after this many processed events.
    pub max_events: Option<usize>,
    /// Whether player-stats events pass at all.
    pub include_stats: bool,
}

impl Filters {
    /// A filter set that restricts nothing and excludes stats.
    pub fn none() -> (f: Self)
        ensures
            f.player_id is None,
            f.unit_tag is None,
            f.unit_name is None,
            f.min_loop is None,
            f.max_loop is None,
            f.event_type is None,
            f.max_events is None,
            !f.include_stats,
    {
        Filters {
            player_id: None,
            unit_tag: None,
            unit_name: None,
            min_loop: None,
            max_loop: None,
            event_type: None,
            max_events: None,
            include_stats: false,
        }
    }
}

/// Whether a unit type name passes the name filter.
pub open spec fn spec_name_ok(f: Filters, name: Seq<char>) -> bool {
    match f.unit_name {
        Some(n) => name == n@,
        None => true,
    }
}

/// Whether a unit tag passes the tag filter.
pub open spec fn spec_tag_ok(f: Filters, tag: UnitTag) -> bool {
    match f.unit_tag {
        Some(t) => tag == t,
        None => true,
    }
}

/// The payload predicates of the tracker stream: unit name and tag for
/// lifecycle events, the stats toggle for stats events.
pub open spec fn spec_accepts_tracker(f: Filters, p: TrackerPayloadV) -> bool {
    match p {
        TrackerPayloadV::UnitInit { tag, name, .. } => spec_name_ok(f, name) && spec_tag_ok(
            f,
            tag,
        ),
        TrackerPayloadV::UnitBorn { tag, name, .. } => spec_name_ok(f, name) && spec_tag_ok(
            f,
            tag,
        ),
        TrackerPayloadV::UnitDied { tag, .. } => spec_tag_ok(f, tag),
        TrackerPayloadV::PlayerStats { .. } => f.include_stats,
        _ => true,
    }
}

/// Whether an event survives the filter pipeline: loop range, stream
/// class, acting player (game events only — tracker events are not
/// associated with a single user), and the payload predicates.
pub open spec fn spec_accepts(f: Filters, ev: ReplayEventV) -> bool {
    let l = ev.spec_adjusted_loop();
    &&& (match f.min_loop {
        Some(m) => l >= m,
        None => true,
    })
    &&& (match f.max_loop {
        Some(m) => l <= m,
        None => true,
    })
    &&& (match f.event_type {
        Some(EventClass::Tracker) => ev.spec_is_tracker(),
        Some(EventClass::Game) => !ev.spec_is_tracker(),
        None => true,
    })
    &&& (match ev {
        ReplayEventV::Game { user_id, .. } => match f.player_id {
            Some(p) => user_id == p,
            None => true,
        },
        _ => true,
    })
    &&& (match ev {
        ReplayEventV::Tracker { event, .. } => spec_accepts_tracker(f, event),
        _ => true,
    })
}

/// Whether a unit type name passes the name filter.
fn name_ok(f: &Filters, name: &String) -> (r: bool)
    ensures
        r == spec_name_ok(*f, name@),
{
    match &f.unit_name {
        Some(n) => crate::str_eq(name.as_str(), n.as_str()),
        None => true,
    }
}

/// Whether a unit tag passes the tag filter.
fn tag_ok(f: &Filters, tag: UnitTag) -> (r: bool)
    ensures
        r == spec_tag_ok(*f, tag),
{
    match f.unit_tag {
        Some(t) => tag == t,
        None => true,
    }
}

/// Evaluates the filter pipeline on one event.
pub fn accepts(f: &Filters, ev: &ReplayEvent) -> (r: bool)
    ensures
        r == spec_accepts(*f, ev@),
{
    let l = ev.adjusted_loop();
    let min_ok = match f.min_loop {
        Some(m) => l >= m,
        None => true,
    };
    let max_ok = match f.max_loop {
        Some(m) => l <= m,
        None => true,
    };
    let class_ok = match f.event_type {
        Some(EventClass::Tracker) => ev.is_tracker(),
        Some(EventClass::Game) => !ev.is_tracker(),
        None => true,
    };
    let player_ok = match ev {
        ReplayEvent::Game { user_id, .. } => match f.player_id {
            Some(p) => *user_id == p,
            None => true,
        },
        _ => true,
    };
    let payload_ok = match ev {
        ReplayEvent::Tracker { event, .. } => match event {
            crate::events::TrackerPayload::UnitInit { tag, name, .. } => name_ok(f, name) && tag_ok(
                f,
                *tag,
            ),
            crate::events::TrackerPayload::UnitBorn { tag, name, .. } => name_ok(f, name) && tag_ok(
                f,
                *tag,
            ),
            crate::events::TrackerPayload::UnitDied { tag, .. } => tag_ok(f, *tag),
            crate::events::TrackerPayload::PlayerStats { .. } => f.include_stats,
            _ => true,
        },
        _ => true,
    };
    min_ok && max_ok && class_ok && player_ok && payload_ok
}

} // verus!
