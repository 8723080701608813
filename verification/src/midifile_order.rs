//! The events of a linearized file come in the order of their times, and
//! they are the channel messages of its tracks, each once.

use crate::midifile::{
    at_start, earliest, file_tempo_map, lemma_remaining_lower_bound, lemma_remaining_nonnegative,
    lemma_remaining_step, lemma_tempo_map_within, lemma_tick_of_bounds, lemma_time_at_bounds,
    linearized, merge_from, merged, remaining, tempo_map, tempo_map_within, tick_of, time_at,
    timed_events, MidiEvent, TempoChange, TrackEvent, TrackEventKind,
};
use vstd::multiset::Multiset;
use vstd::prelude::*;

verus! {

/// No event comes before an earlier one.
pub open spec fn sorted_by_time(events: Seq<MidiEvent>) -> bool {
    forall|i: int, j: int|
        0 <= i <= j < events.len() ==> (#[trigger] events[i]).time <= (#[trigger] events[j]).time
}

/// Every point of a tempo map is reached at the time at which the points
/// before it reach its tick.
pub open spec fn tempo_map_consistent(changes: Seq<TempoChange>) -> bool {
    forall|i: int|
        0 <= i < changes.len() ==> (#[trigger] changes[i]).time == time_at(
            changes.take(i),
            changes[i].tick as int,
        )
}

/// What `earliest` finds is due no later than the next event of any other
/// queue, and where it finds nothing no queue has an event left.
pub proof fn lemma_earliest_is_earliest(queues: Seq<Seq<MidiEvent>>, cursors: Seq<int>, n: int)
    requires
        0 <= n <= queues.len() == cursors.len(),
        forall|q: int| 0 <= q < cursors.len() ==> 0 <= #[trigger] cursors[q],
    ensures
        ({
            let found = earliest(queues, cursors, n);
            &&& -1 <= found < n
            &&& found >= 0 ==> cursors[found] < queues[found].len()
            &&& forall|q: int|
                0 <= q < n && #[trigger] cursors[q] < queues[q].len() ==> found >= 0
                    && queues[found][cursors[found]].time <= queues[q][cursors[q]].time
        }),
    decreases n,
{
    if n > 0 {
        lemma_earliest_is_earliest(queues, cursors, n - 1);
    }
}

/// Merging queues that are in the order of their times gives events in the
/// order of their times, none before `floor` where no queue has an event
/// before it.
pub proof fn lemma_merge_from_sorted(
    queues: Seq<Seq<MidiEvent>>,
    cursors: Seq<int>,
    steps: nat,
    floor: int,
)
    requires
        queues.len() == cursors.len(),
        forall|q: int| 0 <= q < cursors.len() ==> 0 <= #[trigger] cursors[q],
        forall|q: int| 0 <= q < queues.len() ==> sorted_by_time(#[trigger] queues[q]),
        forall|q: int|
            0 <= q < queues.len() && #[trigger] cursors[q] < queues[q].len() ==> floor
                <= queues[q][cursors[q]].time,
    ensures
        sorted_by_time(merge_from(queues, cursors, steps)),
        forall|k: int|
            0 <= k < merge_from(queues, cursors, steps).len() ==> floor <= (#[trigger] merge_from(
                queues,
                cursors,
                steps,
            )[k]).time,
    decreases steps,
{
    let next = earliest(queues, cursors, queues.len() as int);
    lemma_earliest_is_earliest(queues, cursors, queues.len() as int);
    if steps == 0 || next < 0 {
    } else {
        let first = queues[next][cursors[next]];
        let moved = cursors.update(next, cursors[next] + 1);
        let rest = merge_from(queues, moved, (steps - 1) as nat);
        assert forall|q: int|
            0 <= q < queues.len() && #[trigger] moved[q] < queues[q].len() implies first.time
            <= queues[q][moved[q]].time by {
            if q == next {
                assert(sorted_by_time(queues[q]));
                assert(queues[q][cursors[q]].time <= queues[q][cursors[q] + 1].time);
            } else {
                assert(cursors[q] < queues[q].len());
            }
        }
        assert(cursors[next] < queues[next].len());
        lemma_merge_from_sorted(queues, moved, (steps - 1) as nat, first.time as int);
        let all = merge_from(queues, cursors, steps);
        assert(all == seq![first] + rest);
        assert forall|i: int, j: int| 0 <= i <= j < all.len() implies (#[trigger] all[i]).time <= (
        #[trigger] all[j]).time by {
            if i == 0 {
                if j > 0 {
                    assert(all[j] == rest[j - 1]);
                }
            } else {
                assert(all[i] == rest[i - 1]);
                assert(all[j] == rest[j - 1]);
            }
        }
        assert forall|k: int| 0 <= k < all.len() implies floor <= (#[trigger] all[k]).time by {
            if k > 0 {
                assert(all[k] == rest[k - 1]);
            }
        }
    }
}

/// Merging queues that are in the order of their times gives events in the
/// order of their times.
pub proof fn lemma_merged_sorted(queues: Seq<Seq<MidiEvent>>)
    requires
        forall|q: int| 0 <= q < queues.len() ==> sorted_by_time(#[trigger] queues[q]),
    ensures
        sorted_by_time(merged(queues)),
{
    let start = at_start(queues.len());
    lemma_merge_from_sorted(
        queues,
        start,
        remaining(queues, start, queues.len() as int) as nat,
        0,
    );
}

/// Under a consistent tempo map with tempos that are not negative, a later
/// tick is reached no earlier.
pub proof fn lemma_time_at_monotone(changes: Seq<TempoChange>, earlier: int, later: int)
    requires
        tempo_map_consistent(changes),
        earlier <= later,
    ensures
        time_at(changes, earlier) <= time_at(changes, later),
    decreases changes.len(),
{
    if changes.len() == 0 {
    } else {
        let last = changes.last();
        let rest = changes.drop_last();
        assert(tempo_map_consistent(rest)) by {
            assert forall|i: int| 0 <= i < rest.len() implies (#[trigger] rest[i]).time == time_at(
                rest.take(i),
                rest[i].tick as int,
            ) by {
                assert(rest[i] == changes[i]);
                assert(rest.take(i) =~= changes.take(i));
            }
        }
        assert(last.time == time_at(rest, last.tick as int)) by {
            assert(changes[changes.len() - 1] == last);
            assert(changes.take(changes.len() - 1) =~= rest);
        }
        if last.tick <= earlier {
            assert((earlier - last.tick) * last.us_per_beat <= (later - last.tick)
                * last.us_per_beat) by (nonlinear_arith)
                requires
                    earlier <= later,
                    0 <= last.us_per_beat,
            ;
        } else if last.tick <= later {
            lemma_time_at_monotone(rest, earlier, last.tick as int);
            assert(0 <= (later - last.tick) * last.us_per_beat) by (nonlinear_arith)
                requires
                    0 <= later - last.tick,
                    0 <= last.us_per_beat,
            ;
        } else {
            lemma_time_at_monotone(rest, earlier, later);
        }
    }
}

/// The tempo map of a track is consistent.
pub proof fn lemma_tempo_map_consistent(lead: Seq<TrackEvent>, n: int)
    requires
        0 <= n <= lead.len() <= 0xFFFF_FFFF_FFFF_FFFF,
    ensures
        tempo_map_consistent(tempo_map(lead, n)),
    decreases n,
{
    if n > 0 {
        lemma_tempo_map_consistent(lead, n - 1);
        let before = tempo_map(lead, n - 1);
        let after = tempo_map(lead, n);
        match lead[n - 1].kind {
            TrackEventKind::Tempo(us_per_beat) => {
                let tick = tick_of(lead, n);
                lemma_tick_of_bounds(lead, n);
                lemma_tempo_map_within(lead, n - 1);
                lemma_time_at_bounds(before, tick);
                assert(tick * 0xFFFF_FFFF <= 0xFFFF_FFFF_FFFF_FFFF * 0xFFFF_FFFF * 0xFFFF_FFFF)
                    by (nonlinear_arith)
                    requires
                        0 <= tick <= n * 0xFFFF_FFFF,
                        n <= 0xFFFF_FFFF_FFFF_FFFF,
                ;
                assert forall|i: int| 0 <= i < after.len() implies (#[trigger] after[i]).time
                    == time_at(after.take(i), after[i].tick as int) by {
                    if i < before.len() {
                        assert(after[i] == before[i]);
                        assert(after.take(i) =~= before.take(i));
                    } else {
                        assert(after.take(i) =~= before);
                    }
                }
            },
            _ => {},
        }
    }
}

/// The channel messages of a track come in the order of their times, and
/// none is due after the track has come to the tick of its `n`-th event.
pub proof fn lemma_timed_events_sorted(track: Seq<TrackEvent>, changes: Seq<TempoChange>, n: int)
    requires
        0 <= n <= track.len() <= 0xFFFF_FFFF_FFFF_FFFF,
        tempo_map_consistent(changes),
        tempo_map_within(changes, crate::midifile::tick_limit()),
    ensures
        sorted_by_time(timed_events(track, changes, n)),
        forall|k: int|
            0 <= k < timed_events(track, changes, n).len() ==> (#[trigger] timed_events(
                track,
                changes,
                n,
            )[k]).time <= time_at(changes, tick_of(track, n)),
    decreases n,
{
    if n > 0 {
        lemma_timed_events_sorted(track, changes, n - 1);
        lemma_tick_of_bounds(track, n);
        let before = timed_events(track, changes, n - 1);
        let after = timed_events(track, changes, n);
        let tick = tick_of(track, n);
        lemma_time_at_monotone(changes, tick_of(track, n - 1), tick);
        lemma_time_at_bounds(changes, tick);
        assert(tick * 0xFFFF_FFFF <= 0xFFFF_FFFF_FFFF_FFFF * 0xFFFF_FFFF * 0xFFFF_FFFF)
            by (nonlinear_arith)
            requires
                0 <= tick <= n * 0xFFFF_FFFF,
                n <= 0xFFFF_FFFF_FFFF_FFFF,
        ;
        assert forall|k: int| 0 <= k < after.len() implies (#[trigger] after[k]).time <= time_at(
            changes,
            tick,
        ) by {
            if k < before.len() {
                assert(after[k] == before[k]);
            }
        }
        assert forall|i: int, j: int| 0 <= i <= j < after.len() implies (#[trigger] after[i]).time
            <= (#[trigger] after[j]).time by {
            if j < before.len() {
                assert(after[i] == before[i]);
                assert(after[j] == before[j]);
            } else if i < before.len() {
                assert(after[i] == before[i]);
            }
        }
    }
}

/// The events of a linearized file come in the order of their times.
pub proof fn lemma_linearized_sorted(tracks: Seq<Seq<TrackEvent>>)
    requires
        forall|t: int| 0 <= t < tracks.len() ==> (#[trigger] tracks[t]).len() <= 0xFFFF_FFFF_FFFF_FFFF,
    ensures
        sorted_by_time(linearized(tracks)),
{
    let changes = file_tempo_map(tracks);
    if tracks.len() > 0 {
        lemma_tempo_map_consistent(tracks[0], tracks[0].len() as int);
        lemma_tempo_map_within(tracks[0], tracks[0].len() as int);
        lemma_tick_of_bounds(tracks[0], tracks[0].len() as int);
    }
    let queues = Seq::new(
        tracks.len(),
        |i: int| timed_events(tracks[i], file_tempo_map(tracks), tracks[i].len() as int),
    );
    assert forall|q: int| 0 <= q < queues.len() implies sorted_by_time(#[trigger] queues[q]) by {
        lemma_timed_events_sorted(tracks[q], changes, tracks[q].len() as int);
    }
    lemma_merged_sorted(queues);
}

/// The events that the first `n` queues have left, each as often as it is
/// left.
pub open spec fn pending(queues: Seq<Seq<MidiEvent>>, cursors: Seq<int>, n: int) -> Multiset<
    MidiEvent,
>
    decreases n,
{
    if n <= 0 {
        Multiset::empty()
    } else {
        pending(queues, cursors, n - 1).add(queues[n - 1].skip(cursors[n - 1]).to_multiset())
    }
}

/// The events of the first `n` queues, each as often as it is there.
pub open spec fn all_events(queues: Seq<Seq<MidiEvent>>, n: int) -> Multiset<MidiEvent>
    decreases n,
{
    if n <= 0 {
        Multiset::empty()
    } else {
        all_events(queues, n - 1).add(queues[n - 1].to_multiset())
    }
}

/// The number of channel messages among the first `n` events of a track.
pub open spec fn channel_messages(track: Seq<TrackEvent>, n: int) -> int
    decreases n,
{
    if n <= 0 {
        0
    } else {
        channel_messages(track, n - 1) + if track[n - 1].kind is Midi {
            1int
        } else {
            0int
        }
    }
}

/// The number of channel messages in the first `n` tracks.
pub open spec fn all_channel_messages(tracks: Seq<Seq<TrackEvent>>, n: int) -> int
    decreases n,
{
    if n <= 0 {
        0
    } else {
        all_channel_messages(tracks, n - 1) + channel_messages(
            tracks[n - 1],
            tracks[n - 1].len() as int,
        )
    }
}

/// The tracks of a file, each as the sequence of its timed channel messages.
pub open spec fn timed_tracks(tracks: Seq<Seq<TrackEvent>>) -> Seq<Seq<MidiEvent>> {
    Seq::new(
        tracks.len(),
        |i: int| timed_events(tracks[i], file_tempo_map(tracks), tracks[i].len() as int),
    )
}

/// Taking the next event of a queue takes just that event out of what is
/// left.
pub proof fn lemma_pending_step(queues: Seq<Seq<MidiEvent>>, cursors: Seq<int>, n: int, at: int)
    requires
        0 <= n <= queues.len() == cursors.len(),
        0 <= at < queues.len(),
        0 <= cursors[at] < queues[at].len(),
    ensures
        pending(queues, cursors, n) == if at < n {
            pending(queues, cursors.update(at, cursors[at] + 1), n).insert(
                queues[at][cursors[at]],
            )
        } else {
            pending(queues, cursors.update(at, cursors[at] + 1), n)
        },
    decreases n,
{
    broadcast use vstd::multiset::group_multiset_axioms;

    let moved = cursors.update(at, cursors[at] + 1);
    if n > 0 {
        lemma_pending_step(queues, cursors, n - 1, at);
        if at == n - 1 {
            let left = queues[at].skip(cursors[at]);
            let event = queues[at][cursors[at]];
            assert(left[0] == event);
            assert(left.remove(0) =~= queues[at].skip(cursors[at] + 1));
            vstd::seq_lib::to_multiset_remove(left, 0);
            vstd::seq_lib::to_multiset_contains(left, event);
            assert(left.contains(event));
            assert(left.to_multiset() =~= queues[at].skip(cursors[at] + 1).to_multiset().insert(
                event,
            ));
            assert(pending(queues, cursors, n) =~= pending(queues, moved, n).insert(event));
        } else if at < n - 1 {
            assert(pending(queues, cursors, n) =~= pending(queues, moved, n).insert(
                queues[at][cursors[at]],
            ));
        } else {
        }
    }
}

/// Queues that are at their ends have nothing left.
pub proof fn lemma_pending_empty(queues: Seq<Seq<MidiEvent>>, cursors: Seq<int>, n: int)
    requires
        0 <= n <= queues.len() == cursors.len(),
        forall|q: int| 0 <= q < n ==> #[trigger] cursors[q] == queues[q].len(),
    ensures
        pending(queues, cursors, n) == Multiset::<MidiEvent>::empty(),
    decreases n,
{
    broadcast use vstd::multiset::group_multiset_axioms;

    if n > 0 {
        lemma_pending_empty(queues, cursors, n - 1);
        let left = queues[n - 1].skip(cursors[n - 1]);
        vstd::seq_lib::to_multiset_len(left);
        assert(left.len() == 0);
        assert(left.to_multiset().len() == 0);
        assert(left.to_multiset() =~= Multiset::<MidiEvent>::empty());
        assert(pending(queues, cursors, n) =~= Multiset::<MidiEvent>::empty());
    }
}

/// Merging gives the events that the queues have left, each as often as it
/// is left: none is lost and none is there twice.
pub proof fn lemma_merge_from_complete(queues: Seq<Seq<MidiEvent>>, cursors: Seq<int>, steps: nat)
    requires
        queues.len() == cursors.len(),
        forall|q: int| 0 <= q < queues.len() ==> 0 <= #[trigger] cursors[q] <= queues[q].len(),
        steps == remaining(queues, cursors, queues.len() as int),
    ensures
        merge_from(queues, cursors, steps).to_multiset() == pending(
            queues,
            cursors,
            queues.len() as int,
        ),
        merge_from(queues, cursors, steps).len() == steps,
    decreases steps,
{
    broadcast use vstd::multiset::group_multiset_axioms;

    let n = queues.len() as int;
    let next = earliest(queues, cursors, n);
    lemma_earliest_is_earliest(queues, cursors, n);
    if next < 0 {
        assert forall|q: int| 0 <= q < n implies #[trigger] cursors[q] == queues[q].len() by {}
        lemma_pending_empty(queues, cursors, n);
        lemma_no_events_left(queues, cursors, n);
        assert(merge_from(queues, cursors, steps) =~= Seq::<MidiEvent>::empty());
        vstd::seq_lib::to_multiset_len(Seq::<MidiEvent>::empty());
        assert(Seq::<MidiEvent>::empty().to_multiset() =~= Multiset::<MidiEvent>::empty());
    } else {
        lemma_remaining_lower_bound(queues, cursors, n, next);
        lemma_remaining_step(queues, cursors, n, next);
        let first = queues[next][cursors[next]];
        let moved = cursors.update(next, cursors[next] + 1);
        let rest = merge_from(queues, moved, (steps - 1) as nat);
        lemma_merge_from_complete(queues, moved, (steps - 1) as nat);
        lemma_pending_step(queues, cursors, n, next);
        let all = merge_from(queues, cursors, steps);
        assert(all == seq![first] + rest);
        assert(all =~= rest.insert(0, first));
        vstd::seq_lib::to_multiset_insert(rest, 0, first);
    }
}

/// Queues that are at their ends have no events left to count.
pub proof fn lemma_no_events_left(queues: Seq<Seq<MidiEvent>>, cursors: Seq<int>, n: int)
    requires
        0 <= n <= queues.len() == cursors.len(),
        forall|q: int| 0 <= q < n ==> #[trigger] cursors[q] == queues[q].len(),
    ensures
        remaining(queues, cursors, n) == 0,
    decreases n,
{
    if n > 0 {
        lemma_no_events_left(queues, cursors, n - 1);
    }
}

/// From their starts, the queues have all their events left.
pub proof fn lemma_pending_from_start(queues: Seq<Seq<MidiEvent>>, n: int)
    requires
        0 <= n <= queues.len(),
    ensures
        pending(queues, at_start(queues.len()), n) == all_events(queues, n),
        remaining(queues, at_start(queues.len()), n) == all_events(queues, n).len(),
    decreases n,
{
    broadcast use vstd::multiset::group_multiset_axioms;

    if n > 0 {
        lemma_pending_from_start(queues, n - 1);
        assert(queues[n - 1].skip(0) =~= queues[n - 1]);
        vstd::seq_lib::to_multiset_len(queues[n - 1]);
    }
}

/// The merged sequence holds the events of the queues, each as often as the
/// queues hold it, and so it is as long as the queues together.
pub proof fn lemma_merged_complete(queues: Seq<Seq<MidiEvent>>)
    ensures
        merged(queues).to_multiset() == all_events(queues, queues.len() as int),
        merged(queues).len() == all_events(queues, queues.len() as int).len(),
{
    let start = at_start(queues.len());
    lemma_pending_from_start(queues, queues.len() as int);
    lemma_remaining_nonnegative(queues, start, queues.len() as int);
    lemma_merge_from_complete(
        queues,
        start,
        remaining(queues, start, queues.len() as int) as nat,
    );
}

/// A track gives one timed event for each of its channel messages.
pub proof fn lemma_timed_events_len(track: Seq<TrackEvent>, changes: Seq<TempoChange>, n: int)
    requires
        0 <= n <= track.len(),
    ensures
        timed_events(track, changes, n).len() == channel_messages(track, n),
    decreases n,
{
    if n > 0 {
        lemma_timed_events_len(track, changes, n - 1);
    }
}

/// The queues of the tracks hold as many events as the tracks hold channel
/// messages.
pub proof fn lemma_all_events_len(tracks: Seq<Seq<TrackEvent>>, n: int)
    requires
        0 <= n <= tracks.len(),
    ensures
        all_events(timed_tracks(tracks), n).len() == all_channel_messages(tracks, n),
    decreases n,
{
    broadcast use vstd::multiset::group_multiset_axioms;

    if n > 0 {
        lemma_all_events_len(tracks, n - 1);
        lemma_timed_events_len(tracks[n - 1], file_tempo_map(tracks), tracks[n - 1].len() as int);
        vstd::seq_lib::to_multiset_len(timed_tracks(tracks)[n - 1]);
    }
}

/// Linearizing loses no event and doubles none: the events of the file are
/// the timed channel messages of its tracks, each as often as the tracks
/// hold it, and there are as many of them as the tracks have channel
/// messages.
pub proof fn lemma_linearized_complete(tracks: Seq<Seq<TrackEvent>>)
    ensures
        linearized(tracks).to_multiset() == all_events(timed_tracks(tracks), tracks.len() as int),
        linearized(tracks).len() == all_channel_messages(tracks, tracks.len() as int),
{
    lemma_merged_complete(timed_tracks(tracks));
    lemma_all_events_len(tracks, tracks.len() as int);
}

} // verus!
