//! The event model: raw delta-encoded events as the upstream decoder
//! hands them over, and the decoded, globally ordered events that the
//! projection consumes. Both loops count discrete simulation ticks; the
//! tracker and game streams advance at different empirical rates.
//!
//! Every payload type has a mathematical view (`@`) in which vectors
//! become sequences and strings become character sequences; stream
//! contracts are stated over these views.

use vstd::prelude::*;

use crate::tag::UnitTag;

verus! {

/// Raw unit-position event coordinates are a fixed multiple of the map
/// unit; divide by this named ratio before storing them (the ratio has
/// differed between capture versions, so it is named, not inlined).
pub const UNIT_POSITION_RATIO: i64 = 4;

/// A position in map units.
#[derive(Clone, Copy, PartialEq, Eq, Structural, Debug)]
pub struct MapPos {
    pub x: i64,
    pub y: i64,
}

/// One stat sample of a player-stats event: a named numeric value.
#[derive(Clone, Debug)]
pub struct StatEntry {
    pub name: String,
    pub value: i64,
}

/// The mathematical value of one stat sample.
pub struct StatEntryV {
    pub name: Seq<char>,
    pub value: i64,
}

impl View for StatEntry {
    type V = StatEntryV;

    open spec fn view(&self) -> StatEntryV {
        StatEntryV { name: self.name@, value: self.value }
    }
}

/// One entry of a batched unit-position event.
#[derive(Clone, Copy, PartialEq, Eq, Structural, Debug)]
pub struct UnitPositionEntry {
    pub tag: UnitTag,
    pub pos: MapPos,
}

/// Payload of a tracker-stream event (object lifecycle and economy).
#[derive(Clone, Debug)]
pub enum TrackerPayload {
    /// A unit starts existing in an initializing state (e.g. morphing).
    UnitInit { tag: UnitTag, name: String, owner: Option<i64>, pos: MapPos },
    /// A unit is confirmed alive; on an already known tag this augments
    /// the record instead of recreating it.
    UnitBorn {
        tag: UnitTag,
        name: String,
        owner: Option<i64>,
        pos: MapPos,
        creator_ability: Option<String>,
    },
    /// A unit stops existing; unknown tags are a benign no-op.
    UnitDied { tag: UnitTag, pos: MapPos, killer: Option<UnitTag> },
    /// A batch of unit position updates.
    UnitPosition { entries: Vec<UnitPositionEntry> },
    /// A unit changes its type name (e.g. a cocoon hatching).
    UnitTypeChange { tag: UnitTag, name: String },
    /// Periodic per-player numeric series.
    PlayerStats { player_id: i64, stats: Vec<StatEntry> },
    /// A player finished researching an upgrade.
    Upgrade { player_id: i64, name: String, count: i64 },
}

/// The mathematical value of a tracker payload.
pub enum TrackerPayloadV {
    UnitInit { tag: UnitTag, name: Seq<char>, owner: Option<i64>, pos: MapPos },
    UnitBorn {
        tag: UnitTag,
        name: Seq<char>,
        owner: Option<i64>,
        pos: MapPos,
        creator_ability: Option<Seq<char>>,
    },
    UnitDied { tag: UnitTag, pos: MapPos, killer: Option<UnitTag> },
    UnitPosition { entries: Seq<UnitPositionEntry> },
    UnitTypeChange { tag: UnitTag, name: Seq<char> },
    PlayerStats { player_id: i64, stats: Seq<StatEntryV> },
    Upgrade { player_id: i64, name: Seq<char>, count: i64 },
}

/// The view of an optional string.
pub open spec fn opt_string_view(s: Option<String>) -> Option<Seq<char>> {
    match s {
        Some(v) => Some(v@),
        None => None,
    }
}

/// The views of a list of stat samples.
pub open spec fn stats_view(v: Seq<StatEntry>) -> Seq<StatEntryV> {
    Seq::new(v.len(), |i: int| v[i]@)
}

impl View for TrackerPayload {
    type V = TrackerPayloadV;

    open spec fn view(&self) -> TrackerPayloadV {
        match self {
            TrackerPayload::UnitInit { tag, name, owner, pos } => TrackerPayloadV::UnitInit {
                tag: *tag,
                name: name@,
                owner: *owner,
                pos: *pos,
            },
            TrackerPayload::UnitBorn { tag, name, owner, pos, creator_ability } => {
                TrackerPayloadV::UnitBorn {
                    tag: *tag,
                    name: name@,
                    owner: *owner,
                    pos: *pos,
                    creator_ability: opt_string_view(*creator_ability),
                }
            },
            TrackerPayload::UnitDied { tag, pos, killer } => TrackerPayloadV::UnitDied {
                tag: *tag,
                pos: *pos,
                killer: *killer,
            },
            TrackerPayload::UnitPosition { entries } => TrackerPayloadV::UnitPosition {
                entries: entries@,
            },
            TrackerPayload::UnitTypeChange { tag, name } => TrackerPayloadV::UnitTypeChange {
                tag: *tag,
                name: name@,
            },
            TrackerPayload::PlayerStats { player_id, stats } => TrackerPayloadV::PlayerStats {
                player_id: *player_id,
                stats: stats_view(stats@),
            },
            TrackerPayload::Upgrade { player_id, name, count } => TrackerPayloadV::Upgrade {
                player_id: *player_id,
                name: name@,
                count: *count,
            },
        }
    }
}

/// The six control-group transitions (see the control module).
#[derive(Clone, Copy, PartialEq, Eq, Structural, Debug)]
pub enum ControlGroupOp {
    /// group[target] := active selection.
    SetGroup,
    /// As `SetGroup`, after removing the selection from the other groups.
    SetGroupSteal,
    /// group[target] := empty.
    ClearGroup,
    /// group[target] := dedup(group[target] ++ active selection).
    AppendGroup,
    /// As `AppendGroup`, after removing the selection from the other groups.
    AppendGroupSteal,
    /// active selection := group[target], marking the units selected.
    Recall,
}

/// Target of a command: a point on the map or another unit.
#[derive(Clone, Copy, PartialEq, Eq, Structural, Debug)]
pub enum CmdData {
    TargetPoint { pos: MapPos },
    TargetUnit { tag: UnitTag, snapshot_pos: MapPos },
    DataValue { value: i64 },
    NoTarget,
}

/// Payload of a game-stream event (player input).
#[derive(Clone, Debug)]
pub enum GamePayload {
    /// The player moved the camera; some updates carry no target.
    CameraUpdate { target: Option<MapPos> },
    /// The player stored a camera position under a hotkey slot.
    CameraSave { which: i64, target: MapPos },
    /// The currently selected units are given a command.
    Cmd { data: CmdData, ability: Option<String> },
    /// The selected units are retargeted to a point.
    CmdUpdateTargetPoint { pos: MapPos },
    /// The selected units are retargeted to a unit.
    CmdUpdateTargetUnit { tag: UnitTag, snapshot_pos: MapPos },
    /// The active selection is replaced by the given tag list.
    SelectionDelta { add_unit_tags: Vec<UnitTag> },
    /// One of the six control-group transitions.
    ControlGroupUpdate { group_index: u8, op: ControlGroupOp },
    /// A chat line typed by the player.
    ChatMessage { message: String },
}

/// The mathematical value of a game payload.
pub enum GamePayloadV {
    CameraUpdate { target: Option<MapPos> },
    CameraSave { which: i64, target: MapPos },
    Cmd { data: CmdData, ability: Option<Seq<char>> },
    CmdUpdateTargetPoint { pos: MapPos },
    CmdUpdateTargetUnit { tag: UnitTag, snapshot_pos: MapPos },
    SelectionDelta { add_unit_tags: Seq<UnitTag> },
    ControlGroupUpdate { group_index: u8, op: ControlGroupOp },
    ChatMessage { message: Seq<char> },
}

impl View for GamePayload {
    type V = GamePayloadV;

    open spec fn view(&self) -> GamePayloadV {
        match self {
            GamePayload::CameraUpdate { target } => GamePayloadV::CameraUpdate {
                target: *target,
            },
            GamePayload::CameraSave { which, target } => GamePayloadV::CameraSave {
                which: *which,
                target: *target,
            },
            GamePayload::Cmd { data, ability } => GamePayloadV::Cmd {
                data: *data,
                ability: opt_string_view(*ability),
            },
            GamePayload::CmdUpdateTargetPoint { pos } => GamePayloadV::CmdUpdateTargetPoint {
                pos: *pos,
            },
            GamePayload::CmdUpdateTargetUnit { tag, snapshot_pos } => {
                GamePayloadV::CmdUpdateTargetUnit { tag: *tag, snapshot_pos: *snapshot_pos }
            },
            GamePayload::SelectionDelta { add_unit_tags } => GamePayloadV::SelectionDelta {
                add_unit_tags: add_unit_tags@,
            },
            GamePayload::ControlGroupUpdate { group_index, op } => {
                GamePayloadV::ControlGroupUpdate { group_index: *group_index, op: *op }
            },
            GamePayload::ChatMessage { message } => GamePayloadV::ChatMessage {
                message: message@,
            },
        }
    }
}

/// A tracker event as decoded upstream: the loop advance since the
/// previous tracker event, and the payload.
#[derive(Clone, Debug)]
pub struct TrackerEventRaw {
    pub delta: u32,
    pub payload: TrackerPayload,
}

/// A game event as decoded upstream: the loop advance since the
/// previous game event, the acting user, and the payload.
#[derive(Clone, Debug)]
pub struct GameEventRaw {
    pub delta: u32,
    pub user_id: i64,
    pub payload: GamePayload,
}

/// A decoded event with its absolute, rescale-adjusted loop, ready for
/// merge ordering. The adjusted loop is what every downstream consumer
/// sees as "the loop" of the event.
#[derive(Clone, Debug)]
pub enum ReplayEvent {
    Tracker { tracker_loop: i64, event: TrackerPayload },
    Game { game_loop: i64, user_id: i64, event: GamePayload },
}

/// The mathematical value of a decoded event.
pub enum ReplayEventV {
    Tracker { tracker_loop: i64, event: TrackerPayloadV },
    Game { game_loop: i64, user_id: i64, event: GamePayloadV },
}

impl View for ReplayEvent {
    type V = ReplayEventV;

    open spec fn view(&self) -> ReplayEventV {
        match self {
            ReplayEvent::Tracker { tracker_loop, event } => ReplayEventV::Tracker {
                tracker_loop: *tracker_loop,
                event: event@,
            },
            ReplayEvent::Game { game_loop, user_id, event } => ReplayEventV::Game {
                game_loop: *game_loop,
                user_id: *user_id,
                event: event@,
            },
        }
    }
}

impl ReplayEventV {
    /// The adjusted loop of the event, in game-loop units.
    pub open spec fn spec_adjusted_loop(self) -> i64 {
        match self {
            ReplayEventV::Tracker { tracker_loop, .. } => tracker_loop,
            ReplayEventV::Game { game_loop, .. } => game_loop,
        }
    }

    /// Whether the event came from the tracker stream.
    pub open spec fn spec_is_tracker(self) -> bool {
        match self {
            ReplayEventV::Tracker { .. } => true,
            ReplayEventV::Game { .. } => false,
        }
    }
}

/// The views of a sequence of decoded events.
pub open spec fn events_view(s: Seq<ReplayEvent>) -> Seq<ReplayEventV> {
    Seq::new(s.len(), |i: int| s[i]@)
}

impl ReplayEvent {
    /// The adjusted loop of the event, in game-loop units.
    pub fn adjusted_loop(&self) -> (l: i64)
        ensures
            l == self@.spec_adjusted_loop(),
    {
        match self {
            ReplayEvent::Tracker { tracker_loop, .. } => *tracker_loop,
            ReplayEvent::Game { game_loop, .. } => *game_loop,
        }
    }

    /// Whether the event came from the tracker stream.
    pub fn is_tracker(&self) -> (b: bool)
        ensures
            b == self@.spec_is_tracker(),
    {
        match self {
            ReplayEvent::Tracker { .. } => true,
            ReplayEvent::Game { .. } => false,
        }
    }
}

/// Copies an optional string.
pub fn clone_opt_string(s: &Option<String>) -> (out: Option<String>)
    ensures
        out == *s,
{
    match s {
        Some(v) => Some(v.clone()),
        None => None,
    }
}

/// Copies a batch of unit position entries.
pub fn copy_position_entries(v: &Vec<UnitPositionEntry>) -> (out: Vec<UnitPositionEntry>)
    ensures
        out@ == v@,
{
    let mut out: Vec<UnitPositionEntry> = Vec::new();
    let mut i: usize = 0;
    while i < v.len()
        invariant
            i <= v@.len(),
            out@ == v@.take(i as int),
        decreases v@.len() - i,
    {
        out.push(v[i]);
        proof {
            assert(v@.take(i + 1 as int) =~= v@.take(i as int).push(v@[i as int]));
        }
        i += 1;
    }
    proof {
        assert(v@.take(v@.len() as int) =~= v@);
    }
    out
}

/// Copies a list of stat samples.
pub fn copy_stat_entries(v: &Vec<StatEntry>) -> (out: Vec<StatEntry>)
    ensures
        out@ == v@,
{
    let mut out: Vec<StatEntry> = Vec::new();
    let mut i: usize = 0;
    while i < v.len()
        invariant
            i <= v@.len(),
            out@ == v@.take(i as int),
        decreases v@.len() - i,
    {
        let entry = StatEntry { name: v[i].name.clone(), value: v[i].value };
        proof {
            assert(entry == v@[i as int]);
            assert(v@.take(i + 1 as int) =~= v@.take(i as int).push(v@[i as int]));
        }
        out.push(entry);
        i += 1;
    }
    proof {
        assert(v@.take(v@.len() as int) =~= v@);
    }
    out
}

/// Copies a list of unit tags.
fn copy_tag_list(v: &Vec<UnitTag>) -> (out: Vec<UnitTag>)
    ensures
        out@ == v@,
{
    let mut out: Vec<UnitTag> = Vec::new();
    let mut i: usize = 0;
    while i < v.len()
        invariant
            i <= v@.len(),
            out@ == v@.take(i as int),
        decreases v@.len() - i,
    {
        out.push(v[i]);
        proof {
            assert(v@.take(i + 1 as int) =~= v@.take(i as int).push(v@[i as int]));
        }
        i += 1;
    }
    proof {
        assert(v@.take(v@.len() as int) =~= v@);
    }
    out
}

/// Copies a tracker payload; the copy has the same mathematical value.
pub fn clone_tracker_payload(p: &TrackerPayload) -> (out: TrackerPayload)
    ensures
        out@ == p@,
{
    match p {
        TrackerPayload::UnitInit { tag, name, owner, pos } => TrackerPayload::UnitInit {
            tag: *tag,
            name: name.clone(),
            owner: *owner,
            pos: *pos,
        },
        TrackerPayload::UnitBorn { tag, name, owner, pos, creator_ability } => {
            TrackerPayload::UnitBorn {
                tag: *tag,
                name: name.clone(),
                owner: *owner,
                pos: *pos,
                creator_ability: clone_opt_string(creator_ability),
            }
        },
        TrackerPayload::UnitDied { tag, pos, killer } => TrackerPayload::UnitDied {
            tag: *tag,
            pos: *pos,
            killer: *killer,
        },
        TrackerPayload::UnitPosition { entries } => TrackerPayload::UnitPosition {
            entries: copy_position_entries(entries),
        },
        TrackerPayload::UnitTypeChange { tag, name } => TrackerPayload::UnitTypeChange {
            tag: *tag,
            name: name.clone(),
        },
        TrackerPayload::PlayerStats { player_id, stats } => {
            let copied = copy_stat_entries(stats);
            proof {
                assert(stats_view(copied@) =~= stats_view(stats@));
            }
            TrackerPayload::PlayerStats { player_id: *player_id, stats: copied }
        },
        TrackerPayload::Upgrade { player_id, name, count } => TrackerPayload::Upgrade {
            player_id: *player_id,
            name: name.clone(),
            count: *count,
        },
    }
}

/// Copies a game payload; the copy has the same mathematical value.
pub fn clone_game_payload(p: &GamePayload) -> (out: GamePayload)
    ensures
        out@ == p@,
{
    match p {
        GamePayload::CameraUpdate { target } => GamePayload::CameraUpdate { target: *target },
        GamePayload::CameraSave { which, target } => GamePayload::CameraSave {
            which: *which,
            target: *target,
        },
        GamePayload::Cmd { data, ability } => GamePayload::Cmd {
            data: *data,
            ability: clone_opt_string(ability),
        },
        GamePayload::CmdUpdateTargetPoint { pos } => GamePayload::CmdUpdateTargetPoint {
            pos: *pos,
        },
        GamePayload::CmdUpdateTargetUnit { tag, snapshot_pos } => {
            GamePayload::CmdUpdateTargetUnit { tag: *tag, snapshot_pos: *snapshot_pos }
        },
        GamePayload::SelectionDelta { add_unit_tags } => GamePayload::SelectionDelta {
            add_unit_tags: copy_tag_list(add_unit_tags),
        },
        GamePayload::ControlGroupUpdate { group_index, op } => GamePayload::ControlGroupUpdate {
            group_index: *group_index,
            op: *op,
        },
        GamePayload::ChatMessage { message } => GamePayload::ChatMessage {
            message: message.clone(),
        },
    }
}

/// Copies a decoded event; the copy has the same mathematical value.
pub fn clone_replay_event(ev: &ReplayEvent) -> (out: ReplayEvent)
    ensures
        out@ == ev@,
{
    match ev {
        ReplayEvent::Tracker { tracker_loop, event } => ReplayEvent::Tracker {
            tracker_loop: *tracker_loop,
            event: clone_tracker_payload(event),
        },
        ReplayEvent::Game { game_loop, user_id, event } => ReplayEvent::Game {
            game_loop: *game_loop,
            user_id: *user_id,
            event: clone_game_payload(event),
        },
    }
}

} // verus!
