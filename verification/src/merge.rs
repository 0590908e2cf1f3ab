//! The event merge scheduler: decodes the delta-encoded tracker and
//! game streams into absolute loops, rescales the tracker loops by the
//! configured empirical ratio (exactly once, so the merge key and the
//! emitted timestamp agree), and interleaves the two streams in
//! ascending merge-key order. At equal adjusted loops tracker events
//! come first, so object state settles before player commands that
//! reference it.

use vstd::arithmetic::div_mod::{lemma_div_is_ordered, lemma_div_pos_is_pos};
use vstd::arithmetic::mul::lemma_mul_inequality;
use vstd::prelude::*;

use crate::events::{
    clone_game_payload, clone_replay_event, clone_tracker_payload, events_view, GameEventRaw,
    ReplayEvent, ReplayEventV, TrackerEventRaw,
};

verus! {

/// Multiplier of the adjusted loop in the merge key; it exceeds the
/// number of distinct priority classes, so keys of different loops
/// never collide.
pub const MERGE_PRIORITY_BASE: i64 = 4;

/// Tracker events sort before game events at the same adjusted loop.
pub const TRACKER_PRIORITY: i64 = 1;

/// Game events sort after tracker events at the same adjusted loop.
pub const GAME_PRIORITY: i64 = 2;

/// Wall-clock length of one game loop, in nanoseconds, observed from a
/// capture whose maximum game loop was 13735 over a duration of 942
/// seconds (942000000000 / 13735).
pub const GAME_LOOP_SPEED_NANOS: i64 = 68_583_909;

/// Default numerator of the tracker-to-game loop rescaling ratio. The
/// ratio is an empirically fitted constant that differs between game
/// versions, so it is configuration, not a hardcoded value.
pub const TRACKER_RATIO_NUM: u32 = 1;

/// Default denominator of the tracker-to-game loop rescaling ratio.
pub const TRACKER_RATIO_DEN: u32 = 1;

/// The merge configuration: the tracker-loop rescaling ratio as a
/// rational number.
#[derive(Clone, Copy, PartialEq, Eq, Structural, Debug)]
pub struct MergeConfig {
    pub ratio_num: u32,
    pub ratio_den: u32,
}

impl MergeConfig {
    /// Both ratio components must be positive.
    pub open spec fn wf(self) -> bool {
        self.ratio_num >= 1 && self.ratio_den >= 1
    }

    /// The default ratio observed for current captures.
    pub fn new_default() -> (c: Self)
        ensures
            c.wf(),
            c.ratio_num == TRACKER_RATIO_NUM,
            c.ratio_den == TRACKER_RATIO_DEN,
    {
        MergeConfig { ratio_num: TRACKER_RATIO_NUM, ratio_den: TRACKER_RATIO_DEN }
    }
}

/// The absolute tracker loop after the first `n` deltas.
pub open spec fn tracker_prefix_loop(s: Seq<TrackerEventRaw>, n: int) -> int
    decreases n,
{
    if n <= 0 {
        0
    } else {
        tracker_prefix_loop(s, n - 1) + s[n - 1].delta
    }
}

/// The absolute game loop after the first `n` deltas.
pub open spec fn game_prefix_loop(s: Seq<GameEventRaw>, n: int) -> int
    decreases n,
{
    if n <= 0 {
        0
    } else {
        game_prefix_loop(s, n - 1) + s[n - 1].delta
    }
}

/// An absolute tracker loop rescaled into game-loop units:
/// `floor(abs * ratio)`.
pub open spec fn spec_adjust(abs: int, cfg: MergeConfig) -> int {
    (abs * cfg.ratio_num) / (cfg.ratio_den as int)
}

/// The sort key that interleaves the two streams:
/// `adjusted_loop * MERGE_PRIORITY_BASE + stream_priority`.
pub open spec fn spec_merge_key(ev: ReplayEventV) -> int {
    ev.spec_adjusted_loop() * MERGE_PRIORITY_BASE + if ev.spec_is_tracker() {
        TRACKER_PRIORITY as int
    } else {
        GAME_PRIORITY as int
    }
}

/// Non-decreasing merge keys.
pub open spec fn sorted_by_key(s: Seq<ReplayEventV>) -> bool {
    forall|i: int, j: int|
        0 <= i < j < s.len() ==> spec_merge_key(#[trigger] s[i]) <= spec_merge_key(#[trigger] s[j])
}

/// The decoded tracker stream: each event carries its rescaled absolute
/// loop and its payload, in stream order.
pub open spec fn spec_decode_tracker(s: Seq<TrackerEventRaw>, cfg: MergeConfig) -> Seq<
    ReplayEventV,
> {
    Seq::new(
        s.len(),
        |i: int|
            ReplayEventV::Tracker {
                tracker_loop: spec_adjust(tracker_prefix_loop(s, i + 1), cfg) as i64,
                event: s[i].payload@,
            },
    )
}

/// The decoded game stream: each event carries its absolute loop, its
/// user and its payload, in stream order.
pub open spec fn spec_decode_game(s: Seq<GameEventRaw>) -> Seq<ReplayEventV> {
    Seq::new(
        s.len(),
        |i: int|
            ReplayEventV::Game {
                game_loop: game_prefix_loop(s, i + 1) as i64,
                user_id: s[i].user_id,
                event: s[i].payload@,
            },
    )
}

/// The deterministic two-way merge of two key-sorted streams: the event
/// with the smaller key goes first; at equal keys the first stream wins
/// (keys of tracker and game events never tie, as their priorities
/// differ).
pub open spec fn merge_spec(a: Seq<ReplayEventV>, b: Seq<ReplayEventV>) -> Seq<ReplayEventV>
    decreases a.len() + b.len(),
{
    if a.len() == 0 {
        b
    } else if b.len() == 0 {
        a
    } else if spec_merge_key(a[0]) <= spec_merge_key(b[0]) {
        seq![a[0]] + merge_spec(a.skip(1), b)
    } else {
        seq![b[0]] + merge_spec(a, b.skip(1))
    }
}

/// Prefix sums of deltas are monotone and non-negative: loops never
/// decrease within one stream.
proof fn lemma_tracker_prefix_monotone(s: Seq<TrackerEventRaw>, n1: int, n2: int)
    requires
        0 <= n1 <= n2,
    ensures
        0 <= tracker_prefix_loop(s, n1) <= tracker_prefix_loop(s, n2),
    decreases n2 - n1 + n1,
{
    if n1 < n2 {
        lemma_tracker_prefix_monotone(s, n1, n2 - 1);
    } else if n1 > 0 {
        lemma_tracker_prefix_monotone(s, n1 - 1, n1 - 1);
    }
}

/// Prefix sums of deltas are monotone and non-negative: loops never
/// decrease within one stream.
proof fn lemma_game_prefix_monotone(s: Seq<GameEventRaw>, n1: int, n2: int)
    requires
        0 <= n1 <= n2,
    ensures
        0 <= game_prefix_loop(s, n1) <= game_prefix_loop(s, n2),
    decreases n2 - n1 + n1,
{
    if n1 < n2 {
        lemma_game_prefix_monotone(s, n1, n2 - 1);
    } else if n1 > 0 {
        lemma_game_prefix_monotone(s, n1 - 1, n1 - 1);
    }
}

/// Rescaling is monotone: a later absolute loop never maps to an
/// earlier adjusted loop.
proof fn lemma_adjust_monotone(a: int, b: int, cfg: MergeConfig)
    requires
        a <= b,
        cfg.wf(),
    ensures
        spec_adjust(a, cfg) <= spec_adjust(b, cfg),
{
    lemma_mul_inequality(a, b, cfg.ratio_num as int);
    lemma_div_is_ordered(a * cfg.ratio_num, b * cfg.ratio_num, cfg.ratio_den as int);
}

/// Rescaling keeps loops non-negative.
proof fn lemma_adjust_nonneg(a: int, cfg: MergeConfig)
    requires
        a >= 0,
        cfg.wf(),
    ensures
        spec_adjust(a, cfg) >= 0,
{
    assert(a * cfg.ratio_num >= 0) by (nonlinear_arith)
        requires
            a >= 0 && cfg.ratio_num >= 1,
    ;
    lemma_div_pos_is_pos(a * cfg.ratio_num, cfg.ratio_den as int);
}

/// Decodes the tracker stream: accumulates absolute loops from deltas
/// and rescales each exactly once by the configured ratio. The two
/// bounds only keep the accumulated and rescaled loops inside the
/// machine integer range.
pub fn decode_tracker(stream: &Vec<TrackerEventRaw>, cfg: &MergeConfig) -> (out: Vec<ReplayEvent>)
    requires
        cfg.wf(),
        tracker_prefix_loop(stream@, stream@.len() as int) <= i64::MAX,
        spec_adjust(tracker_prefix_loop(stream@, stream@.len() as int), *cfg) <= i64::MAX,
    ensures
        events_view(out@) == spec_decode_tracker(stream@, *cfg),
        sorted_by_key(events_view(out@)),
{
    let mut out: Vec<ReplayEvent> = Vec::new();
    let mut abs: i64 = 0;
    let mut i: usize = 0;
    while i < stream.len()
        invariant
            cfg.wf(),
            tracker_prefix_loop(stream@, stream@.len() as int) <= i64::MAX,
            spec_adjust(tracker_prefix_loop(stream@, stream@.len() as int), *cfg) <= i64::MAX,
            i <= stream@.len(),
            out@.len() == i,
            abs == tracker_prefix_loop(stream@, i as int),
            abs >= 0,
            forall|j: int| 0 <= j < i ==> out@[j]@ == spec_decode_tracker(stream@, *cfg)[j],
        decreases stream@.len() - i,
    {
        proof {
            lemma_tracker_prefix_monotone(stream@, i + 1 as int, stream@.len() as int);
            lemma_adjust_monotone(
                tracker_prefix_loop(stream@, i + 1 as int),
                tracker_prefix_loop(stream@, stream@.len() as int),
                *cfg,
            );
            lemma_adjust_nonneg(tracker_prefix_loop(stream@, i + 1 as int), *cfg);
        }
        abs = abs + stream[i].delta as i64;
        proof {
            assert((abs as u128) * (cfg.ratio_num as u128) < 0x1_0000_0000_0000_0000_0000_0000u128)
                by (nonlinear_arith)
                requires
                    0 <= (abs as u128) < 0x8000_0000_0000_0000u128,
                    (cfg.ratio_num as u128) < 0x1_0000_0000u128,
            ;
        }
        let adj_wide: u128 = (abs as u128) * (cfg.ratio_num as u128) / (cfg.ratio_den as u128);
        proof {
            assert(adj_wide == spec_adjust(abs as int, *cfg));
        }
        let adj: i64 = adj_wide as i64;
        out.push(
            ReplayEvent::Tracker {
                tracker_loop: adj,
                event: clone_tracker_payload(&stream[i].payload),
            },
        );
        i += 1;
    }
    proof {
        assert(events_view(out@) =~= spec_decode_tracker(stream@, *cfg));
        let dec = events_view(out@);
        assert forall|i1: int, j1: int|
            0 <= i1 < j1 < dec.len() implies spec_merge_key(#[trigger] dec[i1]) <= spec_merge_key(
            #[trigger] dec[j1],
        ) by {
            lemma_tracker_prefix_monotone(stream@, i1 + 1, j1 + 1);
            lemma_tracker_prefix_monotone(stream@, j1 + 1, stream@.len() as int);
            lemma_adjust_monotone(
                tracker_prefix_loop(stream@, i1 + 1),
                tracker_prefix_loop(stream@, j1 + 1),
                *cfg,
            );
            lemma_adjust_monotone(
                tracker_prefix_loop(stream@, j1 + 1),
                tracker_prefix_loop(stream@, stream@.len() as int),
                *cfg,
            );
            lemma_adjust_nonneg(tracker_prefix_loop(stream@, i1 + 1), *cfg);
        }
    }
    out
}

/// Decodes the game stream: accumulates absolute loops from deltas; the
/// game stream is the reference time base and is not rescaled. The
/// bound only keeps the accumulated loop inside the machine integer
/// range.
pub fn decode_game(stream: &Vec<GameEventRaw>) -> (out: Vec<ReplayEvent>)
    requires
        game_prefix_loop(stream@, stream@.len() as int) <= i64::MAX,
    ensures
        events_view(out@) == spec_decode_game(stream@),
        sorted_by_key(events_view(out@)),
{
    let mut out: Vec<ReplayEvent> = Vec::new();
    let mut abs: i64 = 0;
    let mut i: usize = 0;
    while i < stream.len()
        invariant
            game_prefix_loop(stream@, stream@.len() as int) <= i64::MAX,
            i <= stream@.len(),
            out@.len() == i,
            abs == game_prefix_loop(stream@, i as int),
            abs >= 0,
            forall|j: int| 0 <= j < i ==> out@[j]@ == spec_decode_game(stream@)[j],
        decreases stream@.len() - i,
    {
        proof {
            lemma_game_prefix_monotone(stream@, i + 1 as int, stream@.len() as int);
        }
        abs = abs + stream[i].delta as i64;
        out.push(
            ReplayEvent::Game {
                game_loop: abs,
                user_id: stream[i].user_id,
                event: clone_game_payload(&stream[i].payload),
            },
        );
        i += 1;
    }
    proof {
        assert(events_view(out@) =~= spec_decode_game(stream@));
        let dec = events_view(out@);
        assert forall|i1: int, j1: int|
            0 <= i1 < j1 < dec.len() implies spec_merge_key(#[trigger] dec[i1]) <= spec_merge_key(
            #[trigger] dec[j1],
        ) by {
            lemma_game_prefix_monotone(stream@, i1 + 1, j1 + 1);
            lemma_game_prefix_monotone(stream@, j1 + 1, stream@.len() as int);
        }
    }
    out
}

/// The merge emits every event of both streams exactly once, by count.
proof fn lemma_merge_spec_len(a: Seq<ReplayEventV>, b: Seq<ReplayEventV>)
    ensures
        merge_spec(a, b).len() == a.len() + b.len(),
    decreases a.len() + b.len(),
{
    if a.len() == 0 || b.len() == 0 {
    } else if spec_merge_key(a[0]) <= spec_merge_key(b[0]) {
        lemma_merge_spec_len(a.skip(1), b);
    } else {
        lemma_merge_spec_len(a, b.skip(1));
    }
}

/// Appending an event whose key dominates every element keeps the
/// sequence key-sorted and dominated by that key.
pub proof fn lemma_push_sorted(outv: Seq<ReplayEventV>, x: ReplayEventV)
    requires
        sorted_by_key(outv),
        forall|k: int| 0 <= k < outv.len() ==> spec_merge_key(#[trigger] outv[k]) <= spec_merge_key(x),
    ensures
        sorted_by_key(outv.push(x)),
        forall|k: int|
            0 <= k < outv.push(x).len() ==> spec_merge_key(#[trigger] outv.push(x)[k])
                <= spec_merge_key(x),
{
    let pushed = outv.push(x);
    assert forall|p: int, q: int|
        0 <= p < q < pushed.len() implies spec_merge_key(pushed[p]) <= spec_merge_key(
        pushed[q],
    ) by {
        assert(pushed[p] == outv[p]);
        if q < outv.len() {
            assert(pushed[q] == outv[q]);
        } else {
            assert(pushed[q] == x);
        }
    }
    assert forall|k: int|
        0 <= k < pushed.len() implies spec_merge_key(pushed[k]) <= spec_merge_key(x) by {
        if k < outv.len() {
            assert(pushed[k] == outv[k]);
        } else {
            assert(pushed[k] == x);
        }
    }
}

/// Merges two key-sorted event sequences into one, in ascending merge
/// key order, stably: ties within a stream keep stream order, and the
/// first stream wins between streams at an equal key.
pub fn merge_events(a: &Vec<ReplayEvent>, b: &Vec<ReplayEvent>) -> (out: Vec<ReplayEvent>)
    requires
        sorted_by_key(events_view(a@)),
        sorted_by_key(events_view(b@)),
    ensures
        events_view(out@) == merge_spec(events_view(a@), events_view(b@)),
        sorted_by_key(events_view(out@)),
        out@.len() == a@.len() + b@.len(),
{
    let ghost av = events_view(a@);
    let ghost bv = events_view(b@);
    let mut out: Vec<ReplayEvent> = Vec::new();
    let mut i: usize = 0;
    let mut j: usize = 0;
    proof {
        assert(av.skip(0) =~= av);
        assert(bv.skip(0) =~= bv);
        assert(events_view(out@) =~= Seq::<ReplayEventV>::empty());
        assert(events_view(out@) + merge_spec(av, bv) =~= merge_spec(av, bv));
    }
    while i < a.len() && j < b.len()
        invariant
            av == events_view(a@),
            bv == events_view(b@),
            sorted_by_key(av),
            sorted_by_key(bv),
            i <= a@.len(),
            j <= b@.len(),
            out@.len() == i + j,
            merge_spec(av, bv) == events_view(out@) + merge_spec(
                av.skip(i as int),
                bv.skip(j as int),
            ),
            sorted_by_key(events_view(out@)),
            forall|k: int|
                0 <= k < out@.len() && i < a@.len() ==> spec_merge_key(
                    #[trigger] events_view(out@)[k],
                ) <= spec_merge_key(av[i as int]),
            forall|k: int|
                0 <= k < out@.len() && j < b@.len() ==> spec_merge_key(
                    #[trigger] events_view(out@)[k],
                ) <= spec_merge_key(bv[j as int]),
        decreases a@.len() + b@.len() - i - j,
    {
        let la = a[i].adjusted_loop();
        let lb = b[j].adjusted_loop();
        let take_a: bool = if la < lb {
            true
        } else if lb < la {
            false
        } else {
            // Equal adjusted loops: keys tie only within one stream
            // class, and then the first stream wins; across classes the
            // tracker event has the smaller key.
            match (&a[i], &b[j]) {
                (ReplayEvent::Game { .. }, ReplayEvent::Tracker { .. }) => false,
                _ => true,
            }
        };
        let ghost ra = av.skip(i as int);
        let ghost rb = bv.skip(j as int);
        let ghost prev = out@;
        proof {
            assert(ra[0] == av[i as int]);
            assert(rb[0] == bv[j as int]);
            assert(ra.skip(1) =~= av.skip(i + 1 as int));
            assert(rb.skip(1) =~= bv.skip(j + 1 as int));
        }
        if take_a {
            let ghost x = av[i as int];
            proof {
                assert(spec_merge_key(x) <= spec_merge_key(bv[j as int]));
                assert(merge_spec(ra, rb) == seq![ra[0]] + merge_spec(ra.skip(1), rb));
                lemma_push_sorted(events_view(prev), x);
            }
            out.push(clone_replay_event(&a[i]));
            i += 1;
            proof {
                assert(events_view(out@) =~= events_view(prev).push(x));
                assert(events_view(prev) + merge_spec(ra, rb) =~= events_view(out@) + merge_spec(
                    av.skip(i as int),
                    rb,
                ));
                assert forall|k: int|
                    0 <= k < out@.len() && i < a@.len() implies spec_merge_key(
                    #[trigger] events_view(out@)[k],
                ) <= spec_merge_key(av[i as int]) by {
                    assert(spec_merge_key(events_view(out@)[k]) <= spec_merge_key(x));
                    assert(spec_merge_key(x) <= spec_merge_key(av[i as int]));
                }
                assert forall|k: int|
                    0 <= k < out@.len() && j < b@.len() implies spec_merge_key(
                    #[trigger] events_view(out@)[k],
                ) <= spec_merge_key(bv[j as int]) by {
                    assert(spec_merge_key(events_view(out@)[k]) <= spec_merge_key(x));
                }
            }
        } else {
            let ghost x = bv[j as int];
            proof {
                assert(spec_merge_key(x) < spec_merge_key(av[i as int]));
                assert(merge_spec(ra, rb) == seq![rb[0]] + merge_spec(ra, rb.skip(1)));
                lemma_push_sorted(events_view(prev), x);
            }
            out.push(clone_replay_event(&b[j]));
            j += 1;
            proof {
                assert(events_view(out@) =~= events_view(prev).push(x));
                assert(events_view(prev) + merge_spec(ra, rb) =~= events_view(out@) + merge_spec(
                    ra,
                    bv.skip(j as int),
                ));
                assert forall|k: int|
                    0 <= k < out@.len() && i < a@.len() implies spec_merge_key(
                    #[trigger] events_view(out@)[k],
                ) <= spec_merge_key(av[i as int]) by {
                    assert(spec_merge_key(events_view(out@)[k]) <= spec_merge_key(x));
                }
                assert forall|k: int|
                    0 <= k < out@.len() && j < b@.len() implies spec_merge_key(
                    #[trigger] events_view(out@)[k],
                ) <= spec_merge_key(bv[j as int]) by {
                    assert(spec_merge_key(events_view(out@)[k]) <= spec_merge_key(x));
                    assert(spec_merge_key(x) <= spec_merge_key(bv[j as int]));
                }
            }
        }
    }
    while i < a.len()
        invariant
            av == events_view(a@),
            bv == events_view(b@),
            sorted_by_key(av),
            i <= a@.len(),
            j <= b@.len(),
            i < a@.len() ==> j == b@.len(),
            out@.len() == i + j,
            merge_spec(av, bv) == events_view(out@) + merge_spec(
                av.skip(i as int),
                bv.skip(j as int),
            ),
            sorted_by_key(events_view(out@)),
            forall|k: int|
                0 <= k < out@.len() && i < a@.len() ==> spec_merge_key(
                    #[trigger] events_view(out@)[k],
                ) <= spec_merge_key(av[i as int]),
            forall|k: int|
                0 <= k < out@.len() && j < b@.len() ==> spec_merge_key(
                    #[trigger] events_view(out@)[k],
                ) <= spec_merge_key(bv[j as int]),
        decreases a@.len() - i,
    {
        let ghost ra = av.skip(i as int);
        let ghost rb = bv.skip(j as int);
        let ghost prev = out@;
        let ghost x = av[i as int];
        proof {
            assert(rb.len() == 0);
            assert(ra[0] == av[i as int]);
            assert(ra.skip(1) =~= av.skip(i + 1 as int));
            assert(merge_spec(ra, rb) == ra);
            assert(merge_spec(ra.skip(1), rb) == ra.skip(1));
            assert(ra =~= seq![ra[0]] + ra.skip(1));
            lemma_push_sorted(events_view(prev), x);
        }
        out.push(clone_replay_event(&a[i]));
        i += 1;
        proof {
            assert(events_view(out@) =~= events_view(prev).push(x));
            assert(events_view(prev) + merge_spec(ra, rb) =~= events_view(out@) + merge_spec(
                av.skip(i as int),
                rb,
            ));
            assert forall|k: int|
                0 <= k < out@.len() && i < a@.len() implies spec_merge_key(
                #[trigger] events_view(out@)[k],
            ) <= spec_merge_key(av[i as int]) by {
                assert(spec_merge_key(events_view(out@)[k]) <= spec_merge_key(x));
                assert(spec_merge_key(x) <= spec_merge_key(av[i as int]));
            }
        }
    }
    while j < b.len()
        invariant
            av == events_view(a@),
            bv == events_view(b@),
            sorted_by_key(bv),
            i == a@.len(),
            j <= b@.len(),
            out@.len() == i + j,
            merge_spec(av, bv) == events_view(out@) + merge_spec(
                av.skip(i as int),
                bv.skip(j as int),
            ),
            sorted_by_key(events_view(out@)),
            forall|k: int|
                0 <= k < out@.len() && j < b@.len() ==> spec_merge_key(
                    #[trigger] events_view(out@)[k],
                ) <= spec_merge_key(bv[j as int]),
        decreases b@.len() - j,
    {
        let ghost ra = av.skip(i as int);
        let ghost rb = bv.skip(j as int);
        let ghost prev = out@;
        let ghost x = bv[j as int];
        proof {
            assert(ra.len() == 0);
            assert(rb[0] == bv[j as int]);
            assert(rb.skip(1) =~= bv.skip(j + 1 as int));
            assert(merge_spec(ra, rb) == rb);
            assert(merge_spec(ra, rb.skip(1)) == rb.skip(1));
            assert(rb =~= seq![rb[0]] + rb.skip(1));
            lemma_push_sorted(events_view(prev), x);
        }
        out.push(clone_replay_event(&b[j]));
        j += 1;
        proof {
            assert(events_view(out@) =~= events_view(prev).push(x));
            assert(events_view(prev) + merge_spec(ra, rb) =~= events_view(out@) + merge_spec(
                ra,
                bv.skip(j as int),
            ));
            assert forall|k: int|
                0 <= k < out@.len() && j < b@.len() implies spec_merge_key(
                #[trigger] events_view(out@)[k],
            ) <= spec_merge_key(bv[j as int]) by {
                assert(spec_merge_key(events_view(out@)[k]) <= spec_merge_key(x));
                assert(spec_merge_key(x) <= spec_merge_key(bv[j as int]));
            }
        }
    }
    proof {
        assert(av.skip(av.len() as int) =~= Seq::<ReplayEventV>::empty());
        assert(bv.skip(bv.len() as int) =~= Seq::<ReplayEventV>::empty());
        assert(merge_spec(av.skip(i as int), bv.skip(j as int)) =~= Seq::<ReplayEventV>::empty());
        assert(events_view(out@) =~= events_view(out@) + Seq::<ReplayEventV>::empty());
        lemma_merge_spec_len(av, bv);
    }
    out
}

/// Decodes both streams and merges them into one globally ordered
/// timeline. The bounds only keep accumulated loops inside the machine
/// integer range.
pub fn merge_streams(
    tracker: &Vec<TrackerEventRaw>,
    game: &Vec<GameEventRaw>,
    cfg: &MergeConfig,
) -> (out: Vec<ReplayEvent>)
    requires
        cfg.wf(),
        tracker_prefix_loop(tracker@, tracker@.len() as int) <= i64::MAX,
        spec_adjust(tracker_prefix_loop(tracker@, tracker@.len() as int), *cfg) <= i64::MAX,
        game_prefix_loop(game@, game@.len() as int) <= i64::MAX,
    ensures
        events_view(out@) == merge_spec(spec_decode_tracker(tracker@, *cfg), spec_decode_game(game@)),
        sorted_by_key(events_view(out@)),
        out@.len() == tracker@.len() + game@.len(),
{
    let a = decode_tracker(tracker, cfg);
    let b = decode_game(game);
    merge_events(&a, &b)
}

/// Key order read back as the timeline guarantee: of two events in key
/// order, the second never has an earlier adjusted loop, and at equal
/// adjusted loops a game event is never followed by a tracker event.
pub proof fn lemma_key_order_meaning(x: ReplayEventV, y: ReplayEventV)
    requires
        spec_merge_key(x) <= spec_merge_key(y),
    ensures
        x.spec_adjusted_loop() <= y.spec_adjusted_loop(),
        (x.spec_adjusted_loop() == y.spec_adjusted_loop() && !x.spec_is_tracker())
            ==> !y.spec_is_tracker(),
{
    let lx = x.spec_adjusted_loop() as int;
    let ly = y.spec_adjusted_loop() as int;
    if lx > ly {
        assert(lx * MERGE_PRIORITY_BASE >= ly * MERGE_PRIORITY_BASE + MERGE_PRIORITY_BASE)
            by (nonlinear_arith)
            requires
                lx >= ly + 1 && MERGE_PRIORITY_BASE == 4,
        ;
        assert(false);
    }
    if lx == ly && !x.spec_is_tracker() && y.spec_is_tracker() {
        assert(false);
    }
}

/// In any merged timeline, emitted events are non-decreasing in
/// adjusted loop, and at one adjusted loop every tracker event precedes
/// every game event.
pub proof fn lemma_merge_ordering(s: Seq<ReplayEventV>, i: int, j: int)
    requires
        sorted_by_key(s),
        0 <= i < j < s.len(),
    ensures
        s[i].spec_adjusted_loop() <= s[j].spec_adjusted_loop(),
        (s[i].spec_adjusted_loop() == s[j].spec_adjusted_loop() && !s[i].spec_is_tracker())
            ==> !s[j].spec_is_tracker(),
{
    lemma_key_order_meaning(s[i], s[j]);
}

} // verus!
