//! Merge ordering, loop rescaling, and the filter pipeline on concrete
//! streams.

use swarmy::events::{
    GameEventRaw, GamePayload, MapPos, ReplayEvent, TrackerEventRaw, TrackerPayload,
};
use swarmy::filters::{accepts, EventClass, Filters};
use swarmy::merge::{decode_tracker, merge_streams, MergeConfig};
use swarmy::tag::UnitTag;

fn tag(index: u32, recycle: u32) -> UnitTag {
    UnitTag { index, recycle }
}

fn pos(x: i64, y: i64) -> MapPos {
    MapPos { x, y }
}

fn tracker_init(delta: u32, index: u32, name: &str) -> TrackerEventRaw {
    TrackerEventRaw {
        delta,
        payload: TrackerPayload::UnitInit {
            tag: tag(index, 0),
            name: String::from(name),
            owner: Some(1),
            pos: pos(0, 0),
        },
    }
}

fn game_chat(delta: u32, user_id: i64, text: &str) -> GameEventRaw {
    GameEventRaw {
        delta,
        user_id,
        payload: GamePayload::ChatMessage { message: String::from(text) },
    }
}

fn event_loop_of(ev: &ReplayEvent) -> i64 {
    ev.adjusted_loop()
}

fn is_tracker(ev: &ReplayEvent) -> bool {
    matches!(ev, ReplayEvent::Tracker { .. })
}

#[test]
fn decode_accumulates_deltas() {
    let stream = vec![tracker_init(0, 1, "A"), tracker_init(10, 2, "B"), tracker_init(5, 3, "C")];
    let cfg = MergeConfig::new_default();
    let out = decode_tracker(&stream, &cfg);
    let loops: Vec<i64> = out.iter().map(event_loop_of).collect();
    assert_eq!(loops, vec![0, 10, 15]);
}

#[test]
fn decode_rescales_tracker_loops_once() {
    let stream = vec![tracker_init(10, 1, "A"), tracker_init(11, 2, "B")];
    // A ratio of 1/2: absolute loops 10 and 21 become 5 and 10.
    let cfg = MergeConfig { ratio_num: 1, ratio_den: 2 };
    let out = decode_tracker(&stream, &cfg);
    let loops: Vec<i64> = out.iter().map(event_loop_of).collect();
    assert_eq!(loops, vec![5, 10]);
}

#[test]
fn merge_orders_by_adjusted_loop() {
    let tracker = vec![tracker_init(4, 1, "A"), tracker_init(6, 2, "B")];
    let game = vec![game_chat(2, 1, "hi"), game_chat(5, 1, "there")];
    let cfg = MergeConfig::new_default();
    let out = merge_streams(&tracker, &game, &cfg);
    let loops: Vec<i64> = out.iter().map(event_loop_of).collect();
    assert_eq!(loops, vec![2, 4, 7, 10]);
    for w in out.windows(2) {
        assert!(event_loop_of(&w[0]) <= event_loop_of(&w[1]));
    }
}

#[test]
fn merge_puts_tracker_before_game_at_equal_loop() {
    let tracker = vec![tracker_init(5, 1, "A")];
    let game = vec![game_chat(5, 1, "hi")];
    let cfg = MergeConfig::new_default();
    let out = merge_streams(&tracker, &game, &cfg);
    assert_eq!(out.len(), 2);
    assert!(is_tracker(&out[0]));
    assert!(!is_tracker(&out[1]));
    assert_eq!(event_loop_of(&out[0]), 5);
    assert_eq!(event_loop_of(&out[1]), 5);
}

#[test]
fn merge_of_two_empty_streams_is_empty() {
    let cfg = MergeConfig::new_default();
    let out = merge_streams(&Vec::new(), &Vec::new(), &cfg);
    assert!(out.is_empty());
}

#[test]
fn merge_with_one_empty_stream_passes_the_other_through() {
    let cfg = MergeConfig::new_default();
    let game = vec![game_chat(1, 1, "a"), game_chat(2, 1, "b")];
    let out = merge_streams(&Vec::new(), &game, &cfg);
    let loops: Vec<i64> = out.iter().map(event_loop_of).collect();
    assert_eq!(loops, vec![1, 3]);
    assert!(out.iter().all(|e| !is_tracker(e)));
}

fn decoded_tracker(delta_loop: i64, payload: TrackerPayload) -> ReplayEvent {
    ReplayEvent::Tracker { tracker_loop: delta_loop, event: payload }
}

fn decoded_game(game_loop: i64, user_id: i64, payload: GamePayload) -> ReplayEvent {
    ReplayEvent::Game { game_loop, user_id, event: payload }
}

#[test]
fn loop_range_filter_rejects_outside_bounds() {
    let mut f = Filters::none();
    f.min_loop = Some(5);
    f.max_loop = Some(10);
    let mk = |l: i64| decoded_game(l, 1, GamePayload::ChatMessage { message: String::new() });
    assert!(!accepts(&f, &mk(4)));
    assert!(accepts(&f, &mk(5)));
    assert!(accepts(&f, &mk(10)));
    assert!(!accepts(&f, &mk(11)));
}

#[test]
fn player_filter_applies_to_game_events_only() {
    let mut f = Filters::none();
    f.player_id = Some(1);
    let game_of_2 = decoded_game(0, 2, GamePayload::ChatMessage { message: String::new() });
    let game_of_1 = decoded_game(0, 1, GamePayload::ChatMessage { message: String::new() });
    let tracker_ev = decoded_tracker(
        0,
        TrackerPayload::UnitDied { tag: tag(1, 0), pos: pos(0, 0), killer: None },
    );
    assert!(!accepts(&f, &game_of_2));
    assert!(accepts(&f, &game_of_1));
    // Tracker events are not associated with a single user.
    assert!(accepts(&f, &tracker_ev));
}

#[test]
fn unit_name_filter_applies_to_init_and_born() {
    let mut f = Filters::none();
    f.unit_name = Some(String::from("Marine"));
    let init_marine = decoded_tracker(
        0,
        TrackerPayload::UnitInit {
            tag: tag(1, 0),
            name: String::from("Marine"),
            owner: None,
            pos: pos(0, 0),
        },
    );
    let init_zergling = decoded_tracker(
        0,
        TrackerPayload::UnitInit {
            tag: tag(2, 0),
            name: String::from("Zergling"),
            owner: None,
            pos: pos(0, 0),
        },
    );
    assert!(accepts(&f, &init_marine));
    assert!(!accepts(&f, &init_zergling));
}

#[test]
fn unit_tag_filter_applies_to_lifecycle_events() {
    let mut f = Filters::none();
    f.unit_tag = Some(tag(5, 0));
    let died_right = decoded_tracker(
        0,
        TrackerPayload::UnitDied { tag: tag(5, 0), pos: pos(0, 0), killer: None },
    );
    let died_wrong = decoded_tracker(
        0,
        TrackerPayload::UnitDied { tag: tag(5, 1), pos: pos(0, 0), killer: None },
    );
    assert!(accepts(&f, &died_right));
    assert!(!accepts(&f, &died_wrong));
}

#[test]
fn stats_pass_only_with_include_stats() {
    let stats_ev = decoded_tracker(
        0,
        TrackerPayload::PlayerStats { player_id: 1, stats: Vec::new() },
    );
    let f_off = Filters::none();
    assert!(!accepts(&f_off, &stats_ev));
    let mut f_on = Filters::none();
    f_on.include_stats = true;
    assert!(accepts(&f_on, &stats_ev));
}

#[test]
fn event_class_filter_keeps_one_stream() {
    let mut f = Filters::none();
    f.event_type = Some(EventClass::Tracker);
    let tracker_ev = decoded_tracker(
        0,
        TrackerPayload::UnitDied { tag: tag(1, 0), pos: pos(0, 0), killer: None },
    );
    let game_ev = decoded_game(0, 1, GamePayload::ChatMessage { message: String::new() });
    assert!(accepts(&f, &tracker_ev));
    assert!(!accepts(&f, &game_ev));
}
