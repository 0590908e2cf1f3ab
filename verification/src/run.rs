//! The single forward pass over one match: decode, merge, filter,
//! project. Each surviving event is fully applied (state mutation plus
//! emission) before the next begins; the max-event-count filter
//! short-circuits the remaining merge once the count is reached.

use vstd::prelude::*;

use crate::emit::{add_game_event, add_tracker_event, ReplayState, SceneDelta};
use crate::events::{events_view, GameEventRaw, ReplayEvent, ReplayEventV, TrackerEventRaw};
use crate::filters::{accepts, spec_accepts, EventClass, Filters};
use crate::merge::{
    game_prefix_loop, lemma_key_order_meaning, lemma_push_sorted, merge_spec, merge_streams,
    sorted_by_key, spec_adjust, spec_decode_game, spec_decode_tracker, spec_merge_key,
    tracker_prefix_loop, MergeConfig,
};

verus! {

/// One processed event of the pass: its adjusted loop, which stream it
/// came from, and the scene deltas it emitted.
#[derive(Debug)]
pub struct ProcessedEvent {
    pub at_loop: i64,
    pub from_tracker: bool,
    pub deltas: Vec<SceneDelta>,
}

/// The events of a merged timeline that survive the filter pipeline,
/// in timeline order.
pub open spec fn accepted_events(f: Filters, s: Seq<ReplayEventV>) -> Seq<ReplayEventV> {
    s.filter(|e: ReplayEventV| spec_accepts(f, e))
}

/// The tracker stream the scheduler actually reads: empty when the
/// event-class filter excludes it (the excluded stream is dropped
/// before merging).
pub open spec fn spec_kept_tracker(f: Filters, t: Seq<TrackerEventRaw>) -> Seq<TrackerEventRaw> {
    match f.event_type {
        Some(EventClass::Game) => Seq::<TrackerEventRaw>::empty(),
        _ => t,
    }
}

/// The game stream the scheduler actually reads: empty when the
/// event-class filter excludes it.
pub open spec fn spec_kept_game(f: Filters, g: Seq<GameEventRaw>) -> Seq<GameEventRaw> {
    match f.event_type {
        Some(EventClass::Tracker) => Seq::<GameEventRaw>::empty(),
        _ => g,
    }
}

/// The merged, filtered timeline the pass processes (before the
/// max-event-count cut).
pub open spec fn spec_timeline(
    f: Filters,
    t: Seq<TrackerEventRaw>,
    g: Seq<GameEventRaw>,
    cfg: MergeConfig,
) -> Seq<ReplayEventV> {
    accepted_events(
        f,
        merge_spec(
            spec_decode_tracker(spec_kept_tracker(f, t), cfg),
            spec_decode_game(spec_kept_game(f, g)),
        ),
    )
}

/// How the accepted subsequence grows by one event.
proof fn lemma_accepted_push(f: Filters, s: Seq<ReplayEventV>, x: ReplayEventV)
    ensures
        accepted_events(f, s.push(x)) == if spec_accepts(f, x) {
            accepted_events(f, s).push(x)
        } else {
            accepted_events(f, s)
        },
{
    reveal_with_fuel(Seq::<ReplayEventV>::filter, 2);
    let sp = s.push(x);
    assert(sp.drop_last() =~= s);
    assert(sp.last() == x);
}

/// A prefix of the timeline never accepts more events than the whole.
proof fn lemma_accepted_take_len(f: Filters, s: Seq<ReplayEventV>, j: int)
    requires
        0 <= j <= s.len(),
    ensures
        accepted_events(f, s.take(j)).len() <= accepted_events(f, s).len(),
    decreases s.len(),
{
    if j < s.len() {
        let t = s.drop_last();
        assert(s =~= t.push(s.last()));
        lemma_accepted_push(f, t, s.last());
        assert(s.take(j) =~= t.take(j));
        lemma_accepted_take_len(f, t, j);
    } else {
        assert(s.take(j) =~= s);
    }
}

/// Filtering a prefix of the timeline yields a prefix of the filtered
/// timeline.
proof fn lemma_accepted_take_prefix(f: Filters, s: Seq<ReplayEventV>, j: int)
    requires
        0 <= j <= s.len(),
    ensures
        accepted_events(f, s.take(j)) == accepted_events(f, s).take(
            accepted_events(f, s.take(j)).len() as int,
        ),
    decreases s.len(),
{
    if j >= s.len() {
        assert(s.take(j) =~= s);
        assert(accepted_events(f, s).take(accepted_events(f, s).len() as int) =~= accepted_events(
            f,
            s,
        ));
    } else {
        let t = s.drop_last();
        assert(s =~= t.push(s.last()));
        lemma_accepted_push(f, t, s.last());
        assert(s.take(j) =~= t.take(j));
        lemma_accepted_take_prefix(f, t, j);
        let l = accepted_events(f, s.take(j)).len() as int;
        lemma_accepted_take_len(f, t, j);
        assert(accepted_events(f, s).take(l) =~= accepted_events(f, t).take(l));
    }
}

/// Filtering keeps the timeline key-sorted and under any key bound.
proof fn lemma_accepted_sorted_bounded(f: Filters, s: Seq<ReplayEventV>, b: int)
    requires
        sorted_by_key(s),
        forall|k: int| 0 <= k < s.len() ==> spec_merge_key(#[trigger] s[k]) <= b,
    ensures
        sorted_by_key(accepted_events(f, s)),
        forall|k: int|
            0 <= k < accepted_events(f, s).len() ==> spec_merge_key(
                #[trigger] accepted_events(f, s)[k],
            ) <= b,
    decreases s.len(),
{
    if s.len() == 0 {
        reveal_with_fuel(Seq::<ReplayEventV>::filter, 1);
        assert(accepted_events(f, s) =~= Seq::<ReplayEventV>::empty());
    } else {
        let t = s.drop_last();
        let x = s.last();
        assert(s =~= t.push(x));
        lemma_accepted_push(f, t, x);
        assert forall|p: int, q: int|
            0 <= p < q < t.len() implies spec_merge_key(#[trigger] t[p]) <= spec_merge_key(
            #[trigger] t[q],
        ) by {
            assert(t[p] == s[p]);
            assert(t[q] == s[q]);
        }
        assert forall|k: int|
            0 <= k < t.len() implies spec_merge_key(#[trigger] t[k]) <= spec_merge_key(x) by {
            assert(t[k] == s[k]);
            assert(x == s[s.len() - 1]);
        }
        lemma_accepted_sorted_bounded(f, t, spec_merge_key(x));
        if spec_accepts(f, x) {
            lemma_push_sorted(accepted_events(f, t), x);
        }
    }
}

/// Filtering keeps the timeline key-sorted.
proof fn lemma_accepted_sorted(f: Filters, s: Seq<ReplayEventV>)
    requires
        sorted_by_key(s),
    ensures
        sorted_by_key(accepted_events(f, s)),
{
    if s.len() == 0 {
        reveal_with_fuel(Seq::<ReplayEventV>::filter, 1);
        assert(accepted_events(f, s) =~= Seq::<ReplayEventV>::empty());
    } else {
        lemma_accepted_sorted_bounded(f, s, spec_merge_key(s[s.len() - 1]));
    }
}

/// Runs the whole pass: drops the stream the event-class filter
/// excludes, decodes and merges the rest into one globally ordered
/// timeline, evaluates the remaining filters per event, and projects
/// each surviving event onto the state, collecting its deltas. With a
/// max-event-count of `n`, exactly `n` events are processed (or all of
/// them, if fewer survive) and the remaining merge is abandoned.
/// Processed events keep timeline order: non-decreasing adjusted loops,
/// tracker before game at equal loops.
pub fn run_replay(
    tracker: &Vec<TrackerEventRaw>,
    game: &Vec<GameEventRaw>,
    cfg: &MergeConfig,
    filters: &Filters,
    camera_divisor: u64,
) -> (r: (ReplayState, Vec<ProcessedEvent>))
    requires
        cfg.wf(),
        camera_divisor >= 1,
        tracker_prefix_loop(
            spec_kept_tracker(*filters, tracker@),
            spec_kept_tracker(*filters, tracker@).len() as int,
        ) <= i64::MAX,
        spec_adjust(
            tracker_prefix_loop(
                spec_kept_tracker(*filters, tracker@),
                spec_kept_tracker(*filters, tracker@).len() as int,
            ),
            *cfg,
        ) <= i64::MAX,
        game_prefix_loop(
            spec_kept_game(*filters, game@),
            spec_kept_game(*filters, game@).len() as int,
        ) <= i64::MAX,
    ensures
        r.0.wf(),
        ({
            let timeline = spec_timeline(*filters, tracker@, game@, *cfg);
            &&& (match filters.max_events {
                Some(n) => r.1@.len() == if timeline.len() <= n {
                    timeline.len() as int
                } else {
                    n as int
                },
                None => r.1@.len() == timeline.len(),
            })
            &&& forall|k: int|
                0 <= k < r.1@.len() ==> (#[trigger] r.1@[k]).at_loop
                    == timeline[k].spec_adjusted_loop() && r.1@[k].from_tracker
                    == timeline[k].spec_is_tracker()
            &&& forall|k1: int, k2: int|
                0 <= k1 < k2 < r.1@.len() ==> (#[trigger] r.1@[k1]).at_loop <= (
                #[trigger] r.1@[k2]).at_loop && ((r.1@[k1].at_loop == r.1@[k2].at_loop
                    && !r.1@[k1].from_tracker) ==> !r.1@[k2].from_tracker)
        }),
{
    let empty_t: Vec<TrackerEventRaw> = Vec::new();
    let empty_g: Vec<GameEventRaw> = Vec::new();
    let drop_t = match filters.event_type {
        Some(EventClass::Game) => true,
        _ => false,
    };
    let drop_g = match filters.event_type {
        Some(EventClass::Tracker) => true,
        _ => false,
    };
    let t_ref: &Vec<TrackerEventRaw> = if drop_t {
        &empty_t
    } else {
        tracker
    };
    let g_ref: &Vec<GameEventRaw> = if drop_g {
        &empty_g
    } else {
        game
    };
    proof {
        assert(t_ref@ =~= spec_kept_tracker(*filters, tracker@));
        assert(g_ref@ =~= spec_kept_game(*filters, game@));
    }
    let merged = merge_streams(t_ref, g_ref, cfg);
    let ghost mv = events_view(merged@);
    let ghost acc = accepted_events(*filters, mv);
    proof {
        lemma_accepted_sorted(*filters, mv);
        reveal_with_fuel(Seq::<ReplayEventV>::filter, 1);
        assert(mv.take(0) =~= Seq::<ReplayEventV>::empty());
        assert(accepted_events(*filters, mv.take(0)) =~= Seq::<ReplayEventV>::empty());
    }
    let mut state = ReplayState::new();
    let mut out: Vec<ProcessedEvent> = Vec::new();
    let mut i: usize = 0;
    let mut cap_reached: bool = false;
    match filters.max_events {
        Some(n) => {
            if n == 0 {
                cap_reached = true;
            }
        },
        None => {},
    }
    while i < merged.len() && !cap_reached
        invariant
            state.wf(),
            camera_divisor >= 1,
            i <= merged@.len(),
            mv == events_view(merged@),
            acc == accepted_events(*filters, mv),
            sorted_by_key(acc),
            match filters.max_events {
                Some(n) => out@.len() <= n && (!cap_reached ==> out@.len() < n) && (cap_reached
                    ==> out@.len() == n && n <= accepted_events(
                    *filters,
                    mv.take(i as int),
                ).len()),
                None => !cap_reached,
            },
            !cap_reached ==> out@.len() == accepted_events(*filters, mv.take(i as int)).len(),
            cap_reached ==> out@.len() <= accepted_events(*filters, mv.take(i as int)).len(),
            forall|k: int|
                0 <= k < out@.len() ==> (#[trigger] out@[k]).at_loop == accepted_events(
                    *filters,
                    mv.take(i as int),
                )[k].spec_adjusted_loop() && out@[k].from_tracker == accepted_events(
                    *filters,
                    mv.take(i as int),
                )[k].spec_is_tracker(),
        decreases merged@.len() - i,
    {
        let ghost pre = mv.take(i as int);
        let ghost acc_pre = accepted_events(*filters, pre);
        proof {
            assert(mv.take(i + 1 as int) =~= pre.push(mv[i as int]));
            lemma_accepted_push(*filters, pre, mv[i as int]);
        }
        let ev = &merged[i];
        if accepts(filters, ev) {
            let at_loop = ev.adjusted_loop();
            let from_tracker = ev.is_tracker();
            let deltas = match ev {
                ReplayEvent::Tracker { tracker_loop, event } => {
                    add_tracker_event(&mut state, event, *tracker_loop)
                },
                ReplayEvent::Game { game_loop, user_id, event } => {
                    add_game_event(&mut state, *user_id, event, camera_divisor, *game_loop)
                },
            };
            out.push(ProcessedEvent { at_loop, from_tracker, deltas });
            match filters.max_events {
                Some(n) => {
                    if out.len() >= n {
                        cap_reached = true;
                    }
                },
                None => {},
            }
        }
        i += 1;
    }
    proof {
        let timeline = spec_timeline(*filters, tracker@, game@, *cfg);
        assert(acc == timeline);
        if i == merged@.len() {
            assert(mv.take(i as int) =~= mv);
        }
        if cap_reached {
            lemma_accepted_take_len(*filters, mv, i as int);
            lemma_accepted_take_prefix(*filters, mv, i as int);
            let acc_i = accepted_events(*filters, mv.take(i as int));
            assert(acc_i == acc.take(acc_i.len() as int));
            assert forall|k: int|
                0 <= k < out@.len() implies (#[trigger] out@[k]).at_loop
                    == acc[k].spec_adjusted_loop() && out@[k].from_tracker
                    == acc[k].spec_is_tracker() by {
                assert(acc_i[k] == acc[k]);
            }
        }
        assert forall|k1: int, k2: int|
            0 <= k1 < k2 < out@.len() implies (#[trigger] out@[k1]).at_loop <= (
            #[trigger] out@[k2]).at_loop && ((out@[k1].at_loop == out@[k2].at_loop
                && !out@[k1].from_tracker) ==> !out@[k2].from_tracker) by {
            if cap_reached {
                let acc_i = accepted_events(*filters, mv.take(i as int));
                assert(acc_i[k1] == acc[k1]);
                assert(acc_i[k2] == acc[k2]);
            }
            assert(spec_merge_key(acc[k1]) <= spec_merge_key(acc[k2]));
            lemma_key_order_meaning(acc[k1], acc[k2]);
        }
    }
    (state, out)
}

} // verus!
