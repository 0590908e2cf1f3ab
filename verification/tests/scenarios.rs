//! End-to-end scenarios through the full pass and the projection
//! emitter.

use swarmy::emit::{
    add_game_event, add_tracker_event, register_camera_update, scale_coord, ReplayState,
    SceneDelta, UnitPhase, CAMERA_POS_DIVISOR,
};
use swarmy::events::{
    ControlGroupOp, GameEventRaw, GamePayload, MapPos, TrackerEventRaw, TrackerPayload,
    UnitPositionEntry,
};
use swarmy::camera::{CameraError, PlayerCamera, CAMERA_SCALE};
use swarmy::events::ReplayEvent;
use swarmy::filters::Filters;
use swarmy::merge::MergeConfig;
use swarmy::run::run_replay;
use swarmy::tag::UnitTag;
use swarmy::unit_colors::user_color;

fn tag(index: u32, recycle: u32) -> UnitTag {
    UnitTag { index, recycle }
}

fn pos(x: i64, y: i64) -> MapPos {
    MapPos { x, y }
}

fn init_marine(delta: u32) -> TrackerEventRaw {
    TrackerEventRaw {
        delta,
        payload: TrackerPayload::UnitInit {
            tag: tag(5, 0),
            name: String::from("Marine"),
            owner: Some(1),
            pos: pos(0, 0),
        },
    }
}

fn died(delta: u32, t: UnitTag) -> TrackerEventRaw {
    TrackerEventRaw {
        delta,
        payload: TrackerPayload::UnitDied { tag: t, pos: pos(0, 0), killer: None },
    }
}

#[test]
fn single_init_registers_one_unit() {
    let tracker = vec![init_marine(0)];
    let game: Vec<GameEventRaw> = Vec::new();
    let cfg = MergeConfig::new_default();
    let filters = Filters::none();
    let (state, processed) = run_replay(&tracker, &game, &cfg, &filters, CAMERA_POS_DIVISOR);
    assert_eq!(processed.len(), 1);
    assert_eq!(processed[0].at_loop, 0);
    assert!(processed[0].from_tracker);
    let rec = state.registry.get(tag(5, 0)).expect("unit must be registered");
    assert_eq!(rec.name, "Marine");
    assert_eq!(rec.owner, Some(1));
    assert_eq!(rec.pos, pos(0, 0));
    // No other tag is present.
    assert!(state.registry.get(tag(5, 1)).is_none());
}

#[test]
fn init_then_died_empties_registry_and_purges_groups() {
    // Give player 1 a selection and a stored group holding the unit, so
    // the purge is observable.
    let tracker = vec![init_marine(0), died(10, tag(5, 0))];
    let game = vec![
        GameEventRaw {
            delta: 1,
            user_id: 1,
            payload: GamePayload::SelectionDelta { add_unit_tags: vec![tag(5, 0)] },
        },
        GameEventRaw {
            delta: 1,
            user_id: 1,
            payload: GamePayload::ControlGroupUpdate {
                group_index: 3,
                op: ControlGroupOp::SetGroup,
            },
        },
    ];
    let cfg = MergeConfig::new_default();
    let filters = Filters::none();
    let (state, _) = run_replay(&tracker, &game, &cfg, &filters, CAMERA_POS_DIVISOR);
    assert!(state.registry.get(tag(5, 0)).is_none());
    // Every group of every player was purged.
    for p in &state.players {
        for g in 0..11 {
            assert!(!p.group_copy(g).contains(&tag(5, 0)), "group {} still holds the tag", g);
        }
    }
}

#[test]
fn selection_then_set_then_empty_selection() {
    // Player 1 selects tags {(1,0),(2,0)} at loop 5; a Set on group 3 at
    // loop 6 stores them; replacing the selection with {} at loop 7
    // unmarks both units while group 3 keeps its contents.
    let mut state = ReplayState::new();
    let d1 = add_tracker_event(
        &mut state,
        &TrackerPayload::UnitBorn {
            tag: tag(1, 0),
            name: String::from("Marine"),
            owner: Some(1),
            pos: pos(0, 0),
            creator_ability: None,
        },
        0,
    );
    assert_eq!(d1.len(), 1);
    let _ = add_tracker_event(
        &mut state,
        &TrackerPayload::UnitBorn {
            tag: tag(2, 0),
            name: String::from("Marine"),
            owner: Some(1),
            pos: pos(1, 1),
            creator_ability: None,
        },
        0,
    );
    let base = state.registry.get(tag(1, 0)).unwrap().radius;
    let pulses = add_game_event(
        &mut state,
        1,
        &GamePayload::SelectionDelta { add_unit_tags: vec![tag(1, 0), tag(2, 0)] },
        CAMERA_POS_DIVISOR,
        5,
    );
    assert_eq!(pulses.len(), 2);
    assert_eq!(state.registry.get(tag(1, 0)).unwrap().radius, base * 2);
    let silent = add_game_event(
        &mut state,
        1,
        &GamePayload::ControlGroupUpdate { group_index: 3, op: ControlGroupOp::SetGroup },
        CAMERA_POS_DIVISOR,
        6,
    );
    assert!(silent.is_empty());
    let idx = state.find_player(1).expect("player observed");
    assert_eq!(state.players[idx].group_copy(3), vec![tag(1, 0), tag(2, 0)]);
    let _ = add_game_event(
        &mut state,
        1,
        &GamePayload::SelectionDelta { add_unit_tags: vec![] },
        CAMERA_POS_DIVISOR,
        7,
    );
    // Radii restored exactly; group 3 unchanged.
    assert_eq!(state.registry.get(tag(1, 0)).unwrap().radius, base);
    assert_eq!(state.registry.get(tag(2, 0)).unwrap().radius, base);
    assert!(!state.registry.get(tag(1, 0)).unwrap().selected);
    assert_eq!(state.players[idx].group_copy(3), vec![tag(1, 0), tag(2, 0)]);
}

#[test]
fn recall_marks_units_and_pulses() {
    let mut state = ReplayState::new();
    let _ = add_tracker_event(
        &mut state,
        &TrackerPayload::UnitBorn {
            tag: tag(1, 0),
            name: String::from("Marine"),
            owner: Some(1),
            pos: pos(0, 0),
            creator_ability: None,
        },
        0,
    );
    let _ = add_game_event(
        &mut state,
        1,
        &GamePayload::SelectionDelta { add_unit_tags: vec![tag(1, 0)] },
        CAMERA_POS_DIVISOR,
        1,
    );
    let _ = add_game_event(
        &mut state,
        1,
        &GamePayload::ControlGroupUpdate { group_index: 2, op: ControlGroupOp::SetGroup },
        CAMERA_POS_DIVISOR,
        2,
    );
    let _ = add_game_event(
        &mut state,
        1,
        &GamePayload::SelectionDelta { add_unit_tags: vec![] },
        CAMERA_POS_DIVISOR,
        3,
    );
    assert!(!state.registry.get(tag(1, 0)).unwrap().selected);
    let pulses = add_game_event(
        &mut state,
        1,
        &GamePayload::ControlGroupUpdate { group_index: 2, op: ControlGroupOp::Recall },
        CAMERA_POS_DIVISOR,
        4,
    );
    assert_eq!(pulses.len(), 1);
    assert!(state.registry.get(tag(1, 0)).unwrap().selected);
    let idx = state.find_player(1).unwrap();
    assert_eq!(state.players[idx].active_selection(), vec![tag(1, 0)]);
}

#[test]
fn max_event_count_short_circuits() {
    let tracker = vec![init_marine(0), died(1, tag(5, 0)), init_marine(1), died(1, tag(5, 0))];
    let game: Vec<GameEventRaw> = Vec::new();
    let cfg = MergeConfig::new_default();
    let mut filters = Filters::none();
    filters.max_events = Some(2);
    let (_, processed) = run_replay(&tracker, &game, &cfg, &filters, CAMERA_POS_DIVISOR);
    assert_eq!(processed.len(), 2);
    // With a cap above the stream size, everything is processed.
    filters.max_events = Some(100);
    let (_, all) = run_replay(&tracker, &game, &cfg, &filters, CAMERA_POS_DIVISOR);
    assert_eq!(all.len(), 4);
    // A cap of zero processes nothing.
    filters.max_events = Some(0);
    let (_, none) = run_replay(&tracker, &game, &cfg, &filters, CAMERA_POS_DIVISOR);
    assert!(none.is_empty());
}

#[test]
fn run_keeps_timeline_order() {
    let tracker = vec![init_marine(2), died(2, tag(5, 0))];
    let game = vec![
        GameEventRaw {
            delta: 2,
            user_id: 1,
            payload: GamePayload::ChatMessage { message: String::from("gl") },
        },
        GameEventRaw {
            delta: 1,
            user_id: 1,
            payload: GamePayload::ChatMessage { message: String::from("hf") },
        },
    ];
    let cfg = MergeConfig::new_default();
    let filters = Filters::none();
    let (_, processed) = run_replay(&tracker, &game, &cfg, &filters, CAMERA_POS_DIVISOR);
    assert_eq!(processed.len(), 4);
    for w in processed.windows(2) {
        assert!(w[0].at_loop <= w[1].at_loop);
        if w[0].at_loop == w[1].at_loop && !w[0].from_tracker {
            assert!(!w[1].from_tracker);
        }
    }
    // Tracker event at loop 2 precedes the game event at loop 2.
    assert_eq!(processed[0].at_loop, 2);
    assert!(processed[0].from_tracker);
    assert_eq!(processed[1].at_loop, 2);
    assert!(!processed[1].from_tracker);
}

#[test]
fn died_emits_removal_and_death_marker() {
    let mut state = ReplayState::new();
    let _ = add_tracker_event(
        &mut state,
        &TrackerPayload::UnitInit {
            tag: tag(5, 0),
            name: String::from("Marine"),
            owner: Some(1),
            pos: pos(3, 4),
        },
        0,
    );
    let deltas = add_tracker_event(
        &mut state,
        &TrackerPayload::UnitDied { tag: tag(5, 0), pos: pos(7, 8), killer: Some(tag(9, 0)) },
        10,
    );
    assert_eq!(deltas.len(), 2);
    assert_eq!(
        deltas[0],
        SceneDelta::UnitRemoved { tag: tag(5, 0), name: String::from("Marine"), at_loop: 10 }
    );
    assert_eq!(
        deltas[1],
        SceneDelta::DeathMarker {
            tag: tag(5, 0),
            name: String::from("Marine"),
            pos: pos(7, 8),
            killer: Some(tag(9, 0)),
            at_loop: 10,
        }
    );
    // A died event for an unknown tag is a benign no-op.
    let silent = add_tracker_event(
        &mut state,
        &TrackerPayload::UnitDied { tag: tag(5, 0), pos: pos(0, 0), killer: None },
        11,
    );
    assert!(silent.is_empty());
}

#[test]
fn position_batch_moves_known_units_only() {
    let mut state = ReplayState::new();
    let _ = add_tracker_event(
        &mut state,
        &TrackerPayload::UnitInit {
            tag: tag(1, 0),
            name: String::from("Marine"),
            owner: Some(1),
            pos: pos(0, 0),
        },
        0,
    );
    let deltas = add_tracker_event(
        &mut state,
        &TrackerPayload::UnitPosition {
            entries: vec![
                UnitPositionEntry { tag: tag(1, 0), pos: pos(5, 6) },
                UnitPositionEntry { tag: tag(2, 0), pos: pos(9, 9) },
            ],
        },
        4,
    );
    assert_eq!(deltas.len(), 1);
    assert_eq!(
        deltas[0],
        SceneDelta::UnitMoved {
            tag: tag(1, 0),
            name: String::from("Marine"),
            from: pos(0, 0),
            to: pos(5, 6),
            at_loop: 4,
        }
    );
    assert_eq!(state.registry.get(tag(1, 0)).unwrap().pos, pos(5, 6));
    assert!(state.registry.get(tag(2, 0)).is_none());
}

#[test]
fn camera_update_emits_scaled_marker() {
    let deltas = register_camera_update(1, &Some(pos(500, 1000)), CAMERA_POS_DIVISOR, 9);
    assert_eq!(
        deltas,
        vec![SceneDelta::CameraMarker { user_id: 1, pos: pos(2, 4), color: user_color(1), at_loop: 9 }]
    );
    let silent = register_camera_update(1, &None, CAMERA_POS_DIVISOR, 9);
    assert!(silent.is_empty());
}

#[test]
fn camera_scaling_rounds_toward_zero() {
    assert_eq!(scale_coord(499, 250), 1);
    assert_eq!(scale_coord(500, 250), 2);
    assert_eq!(scale_coord(0, 250), 0);
    assert_eq!(scale_coord(-499, 250), -1);
    assert_eq!(scale_coord(-500, 250), -2);
}

#[test]
fn target_point_draws_arrows_from_selected_units() {
    let mut state = ReplayState::new();
    let _ = add_tracker_event(
        &mut state,
        &TrackerPayload::UnitBorn {
            tag: tag(1, 0),
            name: String::from("Marine"),
            owner: Some(1),
            pos: pos(2, 2),
            creator_ability: None,
        },
        0,
    );
    let _ = add_game_event(
        &mut state,
        1,
        &GamePayload::SelectionDelta { add_unit_tags: vec![tag(1, 0)] },
        CAMERA_POS_DIVISOR,
        1,
    );
    let deltas = add_game_event(
        &mut state,
        1,
        &GamePayload::CmdUpdateTargetPoint { pos: pos(10, 10) },
        CAMERA_POS_DIVISOR,
        2,
    );
    assert_eq!(deltas.len(), 1);
    assert_eq!(
        deltas[0],
        SceneDelta::TargetArrow {
            user_id: 1,
            tag: tag(1, 0),
            name: String::from("Marine"),
            from: pos(2, 2),
            to: pos(10, 10),
            color: user_color(1),
            at_loop: 2,
        }
    );
    assert_eq!(state.registry.get(tag(1, 0)).unwrap().target, Some(pos(10, 10)));
}

#[test]
fn unit_shown_reports_lifecycle_phase() {
    let mut state = ReplayState::new();
    let d = add_tracker_event(
        &mut state,
        &TrackerPayload::UnitInit {
            tag: tag(1, 0),
            name: String::from("Marine"),
            owner: Some(1),
            pos: pos(0, 0),
        },
        0,
    );
    match &d[0] {
        SceneDelta::UnitShown { phase, name, .. } => {
            assert_eq!(*phase, UnitPhase::Init);
            assert_eq!(name, "Marine");
        },
        other => panic!("unexpected delta: {:?}", other),
    }
    let d2 = add_tracker_event(
        &mut state,
        &TrackerPayload::UnitTypeChange { tag: tag(1, 0), name: String::from("Marauder") },
        3,
    );
    match &d2[0] {
        SceneDelta::UnitShown { phase, name, .. } => {
            assert_eq!(*phase, UnitPhase::TypeChanged);
            assert_eq!(name, "Marauder");
        },
        other => panic!("unexpected delta: {:?}", other),
    }
    // A type change for an unknown tag is a benign no-op.
    let d3 = add_tracker_event(
        &mut state,
        &TrackerPayload::UnitTypeChange { tag: tag(9, 9), name: String::from("Ghost") },
        4,
    );
    assert!(d3.is_empty());
}

#[test]
fn cmd_emits_arrows_and_ability_notes() {
    let mut state = ReplayState::new();
    let _ = add_tracker_event(
        &mut state,
        &TrackerPayload::UnitBorn {
            tag: tag(1, 0),
            name: String::from("Marine"),
            owner: Some(1),
            pos: pos(2, 2),
            creator_ability: None,
        },
        0,
    );
    let _ = add_game_event(
        &mut state,
        1,
        &GamePayload::SelectionDelta { add_unit_tags: vec![tag(1, 0)] },
        CAMERA_POS_DIVISOR,
        1,
    );
    let deltas = add_game_event(
        &mut state,
        1,
        &GamePayload::Cmd {
            data: swarmy::events::CmdData::TargetPoint { pos: pos(8, 8) },
            ability: Some(String::from("Attack")),
        },
        CAMERA_POS_DIVISOR,
        3,
    );
    assert_eq!(deltas.len(), 2);
    assert!(matches!(
        deltas[0],
        SceneDelta::TargetArrow { to: MapPos { x: 8, y: 8 }, .. }
    ));
    match &deltas[1] {
        SceneDelta::AbilityNote { ability, name, .. } => {
            assert_eq!(ability, "Attack");
            assert_eq!(name, "Marine");
        },
        other => panic!("unexpected delta: {:?}", other),
    }
    // A command with neither target nor ability is silent.
    let silent = add_game_event(
        &mut state,
        1,
        &GamePayload::Cmd { data: swarmy::events::CmdData::NoTarget, ability: None },
        CAMERA_POS_DIVISOR,
        4,
    );
    assert!(silent.is_empty());
}

#[test]
fn chat_emits_one_note() {
    let mut state = ReplayState::new();
    let deltas = add_game_event(
        &mut state,
        2,
        &GamePayload::ChatMessage { message: String::from("good luck") },
        CAMERA_POS_DIVISOR,
        5,
    );
    assert_eq!(
        deltas,
        vec![SceneDelta::ChatNote { user_id: 2, message: String::from("good luck"), at_loop: 5 }]
    );
}

#[test]
fn player_camera_converts_save_and_update() {
    let save = ReplayEvent::Game {
        game_loop: 4,
        user_id: 2,
        event: GamePayload::CameraSave { which: 3, target: pos(54_000, 27_000) },
    };
    assert_eq!(
        PlayerCamera::try_from_camera_save(&save, CAMERA_SCALE),
        Ok(PlayerCamera { which: Some(3), pos: pos(2, 1), player: 2 })
    );
    assert_eq!(
        PlayerCamera::try_from_camera_update(&save, CAMERA_SCALE),
        Err(CameraError::NotCameraEvent)
    );
    let update = ReplayEvent::Game {
        game_loop: 5,
        user_id: 1,
        event: GamePayload::CameraUpdate { target: Some(pos(500, 250)) },
    };
    assert_eq!(
        PlayerCamera::try_from_camera_update(&update, CAMERA_POS_DIVISOR),
        Ok(PlayerCamera { which: None, pos: pos(2, 1), player: 1 })
    );
    let no_target = ReplayEvent::Game {
        game_loop: 5,
        user_id: 1,
        event: GamePayload::CameraUpdate { target: None },
    };
    assert_eq!(
        PlayerCamera::try_from_camera_update(&no_target, CAMERA_POS_DIVISOR),
        Err(CameraError::NoTarget)
    );
    let tracker_ev = ReplayEvent::Tracker {
        tracker_loop: 0,
        event: TrackerPayload::UnitDied { tag: tag(1, 0), pos: pos(0, 0), killer: None },
    };
    assert_eq!(
        PlayerCamera::try_from_camera_save(&tracker_ev, CAMERA_SCALE),
        Err(CameraError::NotGame)
    );
}

#[test]
fn stats_and_upgrades_emit_series_points() {
    let mut state = ReplayState::new();
    let d = add_tracker_event(
        &mut state,
        &TrackerPayload::PlayerStats {
            player_id: 1,
            stats: vec![
                swarmy::events::StatEntry { name: String::from("MineralsCurrent"), value: 50 },
                swarmy::events::StatEntry { name: String::from("VespeneCurrent"), value: 0 },
            ],
        },
        6,
    );
    assert_eq!(d.len(), 2);
    assert_eq!(
        d[0],
        SceneDelta::StatPoint {
            player_id: 1,
            name: String::from("MineralsCurrent"),
            value: 50,
            at_loop: 6,
        }
    );
    let d2 = add_tracker_event(
        &mut state,
        &TrackerPayload::Upgrade { player_id: 1, name: String::from("Stimpack"), count: 1 },
        7,
    );
    assert_eq!(
        d2,
        vec![SceneDelta::UpgradeNote {
            player_id: 1,
            name: String::from("Stimpack"),
            count: 1,
            at_loop: 7,
        }]
    );
}
