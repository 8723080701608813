//! The pool of voices: allocation, stealing, and the freeing of voices that
//! have come to their end.

use crate::channel::Channel;
use crate::region_pair::RegionPair;
use crate::voice::{NoteTiming, Voice, VoiceState};
use vstd::prelude::*;

verus! {

/// A pool of voices of fixed size.
///
/// The voices at the positions below `active_count` are sounding, the others
/// are free.  Every voice keeps its slot number wherever it moves, and no two
/// voices share one.
pub struct VoiceCollection {
    voices: Vec<Voice>,
    active_count: usize,
    minimum_voice_length: usize,
    /// The number of notes started so far.
    note_ons: u64,
}

impl VoiceCollection {
    /// All voices of the pool, the sounding ones first.
    pub closed spec fn voices(&self) -> Seq<Voice> {
        self.voices@
    }

    /// The number of voices that are sounding.
    pub closed spec fn active(&self) -> int {
        self.active_count as int
    }

    /// The number of voices that the pool holds.
    pub open spec fn size(&self) -> int {
        self.voices().len() as int
    }

    /// The number of samples that a voice plays at least before it is
    /// released.
    pub closed spec fn minimum_length(&self) -> usize {
        self.minimum_voice_length
    }

    /// The number of notes that the pool has started; it stops counting at
    /// the largest number that it can hold.
    pub closed spec fn note_ons(&self) -> u64 {
        self.note_ons
    }

    /// No more voices sound than there are, each voice has a slot of its own
    /// among as many slots as there are voices, and every voice belongs to
    /// one of the sixteen channels.
    pub open spec fn wf(&self) -> bool {
        &&& 0 <= self.active() <= self.size()
        &&& forall|i: int| 0 <= i < self.size() ==> (#[trigger] self.voices()[i]).slot < self.size()
        &&& forall|i: int, j: int|
            0 <= i < j < self.size() ==> (#[trigger] self.voices()[i]).slot != (
            #[trigger] self.voices()[j]).slot
        &&& forall|i: int|
            0 <= i < self.size() ==> 0 <= (#[trigger] self.voices()[i]).channel < 16
    }

    /// The voice at `at` is the one to steal: no sounding voice weighs less;
    /// of those that weigh the same none has played longer; of those that
    /// have played as long none was started earlier; and no voice before it
    /// is its equal in all three.
    pub open spec fn is_candidate(&self, at: int) -> bool {
        &&& 0 <= at < self.active()
        &&& forall|i: int|
            0 <= i < self.active() ==> !(#[trigger] self.voices()[i]).goes_before(self.voices()[at])
        &&& forall|i: int|
            0 <= i < at ==> self.voices()[at].goes_before(#[trigger] self.voices()[i])
    }

    /// Some sounding voice of `self` is `before` one sample on.
    pub open spec fn holds_processed(&self, before: Voice, data: Seq<i16>) -> bool {
        exists|i: int|
            0 <= i < self.active() && #[trigger] self.voices()[i] == before.processed(data)
    }

    /// `after` is a voice that sounded in `self` and goes on, one sample on.
    pub open spec fn gave(&self, after: Voice, data: Seq<i16>) -> bool {
        exists|j: int|
            0 <= j < self.active() && (#[trigger] self.voices()[j]).survives(data) && after
                == self.voices()[j].processed(data)
    }

    /// The places of the sounding voices that go on after this sample.
    pub open spec fn going_on(&self, data: Seq<i16>) -> Set<int> {
        Set::new(|j: int| 0 <= j < self.active() && self.voices()[j].survives(data))
    }

    /// The places of the sounding voices that end with this sample.
    pub open spec fn ending(&self, data: Seq<i16>) -> Set<int> {
        Set::new(|j: int| 0 <= j < self.active() && !self.voices()[j].survives(data))
    }

    /// Every voice rests in the slot of its position.
    pub open spec fn all_at_rest(voices: Seq<Voice>) -> bool {
        forall|i: int| 0 <= i < voices.len() ==> #[trigger] voices[i] == Voice::at_rest(i as usize)
    }

    /// A pool of `capacity` voices, none of which sounds: each rests in the
    /// slot of its position.
    pub fn new(capacity: usize, minimum_voice_length: usize) -> (pool: Self)
        ensures
            pool.wf(),
            pool.size() == capacity,
            pool.active() == 0,
            pool.minimum_length() == minimum_voice_length,
            pool.note_ons() == 0,
            Self::all_at_rest(pool.voices()),
    {
        let mut voices: Vec<Voice> = Vec::new();
        while voices.len() < capacity
            invariant
                voices.len() <= capacity,
                Self::all_at_rest(voices@),
            decreases capacity - voices.len(),
        {
            let voice = Voice::new(voices.len());
            voices.push(voice);
        }
        VoiceCollection { voices, active_count: 0, minimum_voice_length, note_ons: 0 }
    }

    /// The number of voices that are sounding.
    pub fn active_count(&self) -> (count: usize)
        ensures
            count == self.active(),
    {
        self.active_count
    }

    /// The number of voices that the pool holds.
    pub fn capacity(&self) -> (count: usize)
        ensures
            count == self.size(),
    {
        self.voices.len()
    }

    /// The voice at a position.
    pub fn voice(&self, index: usize) -> (voice: &Voice)
        requires
            index < self.size(),
        ensures
            *voice == self.voices()[index as int],
    {
        &self.voices[index]
    }

    /// Finds the position for a new note: the first free one while there is
    /// one, which then counts as sounding; else that of the voice to steal.
    pub fn request_new(&mut self) -> (index: usize)
        requires
            old(self).wf(),
            old(self).size() > 0,
        ensures
            final(self).wf(),
            final(self).voices() == old(self).voices(),
            final(self).minimum_length() == old(self).minimum_length(),
            final(self).note_ons() == old(self).note_ons(),
            index < final(self).active(),
            old(self).active() < old(self).size() ==> index == old(self).active() && final(self).active() == old(self).active() + 1,
            old(self).active() == old(self).size() ==> final(self).active() == old(self).active()
                && old(self).is_candidate(index as int),
    {
        if self.active_count < self.voices.len() {
            let index: usize = self.active_count;
            self.active_count = self.active_count + 1;
            return index;
        }
        let mut candidate: usize = 0;
        let mut i: usize = 1;
        while i < self.active_count
            invariant
                self.wf(),
                1 <= i <= self.active_count == self.voices.len(),
                candidate < i,
                forall|k: int|
                    0 <= k < i ==> !(#[trigger] self.voices@[k]).goes_before(
                        self.voices@[candidate as int],
                    ),
                forall|k: int|
                    0 <= k < candidate ==> self.voices@[candidate as int].goes_before(
                        #[trigger] self.voices@[k],
                    ),
            decreases self.active_count - i,
        {
            if self.voices[i].steals_before(&self.voices[candidate]) {
                candidate = i;
            }
            i += 1;
        }
        candidate
    }

    /// Starts a note in the voice at `index` and stamps the voice with the
    /// number of notes started before it.
    pub fn start(
        &mut self,
        index: usize,
        region: &RegionPair,
        channel: i32,
        key: i32,
        velocity: i32,
        timing: &NoteTiming,
    )
        requires
            old(self).wf(),
            index < old(self).active(),
            0 <= channel < 16,
        ensures
            final(self).wf(),
            final(self).active() == old(self).active(),
            final(self).minimum_length() == old(self).minimum_length(),
            final(self).note_ons() == if old(self).note_ons() < u64::MAX {
                (old(self).note_ons() + 1) as u64
            } else {
                old(self).note_ons()
            },
            final(self).voices() == old(self).voices().update(
                index as int,
                Voice {
                    started_at: old(self).note_ons(),
                    ..old(self).voices()[index as int].started(
                        *region,
                        channel,
                        key,
                        velocity,
                        *timing,
                    )
                },
            ),
    {
        let mut voice = self.voices[index];
        voice.start(region, channel, key, velocity, timing);
        voice.started_at = self.note_ons;
        self.voices.set(index, voice);
        if self.note_ons < u64::MAX {
            self.note_ons = self.note_ons + 1;
        }
    }

    /// Begins the next sample in every sounding voice.
    pub fn advance(&mut self, channels: &Vec<Channel>)
        requires
            old(self).wf(),
            channels.len() == 16,
        ensures
            final(self).wf(),
            final(self).active() == old(self).active(),
            final(self).size() == old(self).size(),
            final(self).minimum_length() == old(self).minimum_length(),
            final(self).note_ons() == old(self).note_ons(),
            forall|i: int|
                0 <= i < old(self).active() ==> #[trigger] final(self).voices()[i] == old(self).voices()[i].advanced(
                    channels[old(self).voices()[i].channel as int].hold_pedal,
                    old(self).minimum_length(),
                ),
            forall|i: int|
                old(self).active() <= i < old(self).size() ==> #[trigger] final(self).voices()[i]
                    == old(self).voices()[i],
    {
        let mut i: usize = 0;
        while i < self.active_count
            invariant
                i <= self.active_count == old(self).active_count,
                self.voices.len() == old(self).voices.len(),
                self.minimum_voice_length == old(self).minimum_voice_length,
                self.note_ons == old(self).note_ons,
                old(self).wf(),
                channels.len() == 16,
                forall|k: int| 0 <= k < self.voices.len() ==> (#[trigger] self.voices@[k]).slot
                    == old(self).voices@[k].slot,
                forall|k: int| 0 <= k < self.voices.len() ==> (#[trigger] self.voices@[k]).channel
                    == old(self).voices@[k].channel,
                forall|k: int|
                    0 <= k < i ==> #[trigger] self.voices@[k] == old(self).voices@[k].advanced(
                        channels[old(self).voices@[k].channel as int].hold_pedal,
                        old(self).minimum_voice_length,
                    ),
                forall|k: int|
                    i <= k < self.voices.len() ==> #[trigger] self.voices@[k] == old(self).voices@[k],
            decreases self.active_count - i,
        {
            let mut voice = self.voices[i];
            voice.advance(&channels[voice.channel as usize], self.minimum_voice_length);
            self.voices.set(i, voice);
            i += 1;
        }
    }

    /// Takes what the caller has worked out for this sample of the voice at
    /// `index`: whether the level of its volume envelope can be heard, which
    /// counts in the decay and in the release alone, and the step of its
    /// sample position.
    pub fn drive(&mut self, index: usize, level_audible: bool, pitch_ratio_fp: i64)
        requires
            old(self).wf(),
            index < old(self).active(),
        ensures
            final(self).wf(),
            final(self).active() == old(self).active(),
            final(self).minimum_length() == old(self).minimum_length(),
            final(self).note_ons() == old(self).note_ons(),
            final(self).voices() == old(self).voices().update(
                index as int,
                old(self).voices()[index as int].driven(level_audible, pitch_ratio_fp),
            ),
    {
        let mut voice = self.voices[index];
        voice.drive(level_audible, pitch_ratio_fp);
        self.voices.set(index, voice);
    }

    /// Makes the sample of every sounding voice and frees the voices that
    /// have come to their end: each of them changes places with the last
    /// sounding voice, which then is no longer counted.
    ///
    /// What is left sounding are the voices that go on, each one sample on
    /// and each once, in whatever order: as many as sounded, less those that
    /// have ended.
    pub fn process(&mut self, data: &[i16])
        requires
            old(self).wf(),
        ensures
            final(self).wf(),
            final(self).size() == old(self).size(),
            final(self).minimum_length() == old(self).minimum_length(),
            final(self).note_ons() == old(self).note_ons(),
            final(self).active() <= old(self).active(),
            old(self).going_on(data@).finite(),
            final(self).active() == old(self).going_on(data@).len(),
            forall|i: int|
                0 <= i < final(self).active() ==> old(self).gave(
                    #[trigger] final(self).voices()[i],
                    data@,
                ),
            forall|j: int|
                0 <= j < old(self).active() && old(self).voices()[j].survives(data@) ==> final(self).holds_processed(#[trigger] old(self).voices()[j], data@),
    {
        let ghost before = self.voices@;
        let ghost count_before = self.active_count as int;
        let ghost mut origin: Seq<int> = Seq::new(self.active_count as nat, |k: int| k);
        proof {
            assert forall|j: int|
                0 <= j < count_before && (#[trigger] before[j]).survives(data@) implies exists|
                k: int,
            |
                0 <= k < self.active_count && #[trigger] origin[k] == j by {
                assert(origin[j] == j);
            }
        }
        let mut i: usize = 0;
        while i < self.active_count
            invariant
                old(self).wf(),
                before == old(self).voices@,
                count_before == old(self).active_count,
                self.minimum_voice_length == old(self).minimum_voice_length,
                self.note_ons == old(self).note_ons,
                self.voices.len() == before.len(),
                i <= self.active_count <= count_before,
                self.wf(),
                origin.len() == count_before,
                forall|k: int| 0 <= k < self.active_count ==> 0 <= #[trigger] origin[k] < count_before,
                forall|a: int, b: int|
                    0 <= a < b < self.active_count ==> #[trigger] origin[a] != #[trigger] origin[b],
                forall|k: int|
                    0 <= k < i ==> before[origin[k]].survives(data@) && #[trigger] self.voices@[k]
                        == before[origin[k]].processed(data@),
                forall|k: int|
                    i <= k < self.active_count ==> #[trigger] self.voices@[k] == before[origin[k]],
                forall|j: int|
                    0 <= j < count_before && (#[trigger] before[j]).survives(data@) ==> exists|
                        k: int,
                    |
                        0 <= k < self.active_count && #[trigger] origin[k] == j,
            decreases self.active_count - i,
        {
            let ghost voices_then = self.voices@;
            let ghost origin_then = origin;
            let ghost active_then = self.active_count as int;
            let mut voice = self.voices[i];
            let running = voice.process(data);
            if running {
                self.voices.set(i, voice);
                proof {
                    assert forall|j: int|
                        0 <= j < count_before && (#[trigger] before[j]).survives(
                            data@,
                        ) implies exists|k: int|
                        0 <= k < self.active_count && #[trigger] origin[k] == j by {
                        let k = choose|k: int| 0 <= k < active_then && #[trigger] origin_then[k] == j;
                        assert(origin[k] == j);
                    }
                }
                i += 1;
            } else {
                let last: usize = self.active_count - 1;
                let moved = self.voices[last];
                self.voices.set(i, moved);
                self.voices.set(last, voice);
                self.active_count = last;
                proof {
                    origin = origin.update(i as int, origin[last as int]);
                    assert forall|j: int|
                        0 <= j < count_before && (#[trigger] before[j]).survives(
                            data@,
                        ) implies exists|k: int|
                        0 <= k < self.active_count && #[trigger] origin[k] == j by {
                        let k = choose|k: int| 0 <= k < active_then && #[trigger] origin_then[k] == j;
                        if k == last {
                            assert(origin[i as int] == j);
                        } else {
                            assert(k != i);
                            assert(origin[k] == j);
                        }
                    }
                }
            }
        }
        proof {
            let places = vstd::set_lib::set_int_range(0, self.active_count as int);
            let from = |k: int| origin[k];
            vstd::set_lib::lemma_int_range(0, self.active_count as int);
            assert forall|a: int, b: int|
                places.contains(a) && places.contains(b) && #[trigger] from(a) == #[trigger] from(
                    b,
                ) implies a == b by {
                if a < b {
                    assert(origin[a] != origin[b]);
                } else if b < a {
                    assert(origin[b] != origin[a]);
                }
            }
            assert forall|j: int| old(self).going_on(data@).contains(j) implies #[trigger] places.map(
                from,
            ).contains(j) by {
                let k = choose|k: int| 0 <= k < self.active_count && #[trigger] origin[k] == j;
                assert(places.contains(k) && from(k) == j);
            }
            assert forall|j: int| #[trigger] places.map(from).contains(j) implies old(
                self,
            ).going_on(data@).contains(j) by {
                let k = choose|k: int| places.contains(k) && j == from(k);
                assert(0 <= origin[k] < count_before);
                assert(self.voices@[k] == before[origin[k]].processed(data@));
            }
            assert(places.map(from) =~= old(self).going_on(data@));
            vstd::set_lib::lemma_map_size(places, old(self).going_on(data@), from);
            assert forall|k: int| 0 <= k < self.active_count implies old(self).gave(
                #[trigger] self.voices@[k],
                data@,
            ) by {
                let j = origin[k];
                assert(self.voices@[k] == before[j].processed(data@));
                assert(before[j].survives(data@));
            }
            assert forall|j: int|
                0 <= j < count_before && before[j].survives(data@) implies self.holds_processed(
                #[trigger] before[j],
                data@,
            ) by {
                let k = choose|k: int| 0 <= k < self.active_count && #[trigger] origin[k] == j;
                assert(self.voices@[k] == before[j].processed(data@));
            }
        }
    }

    /// The voice after a note-off for the channel and the key, each of which
    /// may be left open: let go or, where it is to happen at once, silenced
    /// if it plays there, else as it is.
    pub open spec fn marked(
        voice: Voice,
        channel: Option<i32>,
        key: Option<i32>,
        immediate: bool,
    ) -> Voice {
        if (channel matches Some(c) ==> voice.channel == c) && (key matches Some(k) ==> voice.key
            == k) {
            if immediate {
                voice.killed()
            } else {
                voice.ended()
            }
        } else {
            voice
        }
    }

    /// `after` is the pool with every sounding voice marked by the note-off
    /// and nothing else changed.
    pub open spec fn marks(
        &self,
        after: &Self,
        channel: Option<i32>,
        key: Option<i32>,
        immediate: bool,
    ) -> bool {
        &&& after.active() == self.active()
        &&& after.size() == self.size()
        &&& after.minimum_length() == self.minimum_length()
        &&& after.note_ons() == self.note_ons()
        &&& forall|i: int|
            0 <= i < self.active() ==> #[trigger] after.voices()[i] == Self::marked(
                self.voices()[i],
                channel,
                key,
                immediate,
            )
        &&& forall|i: int|
            self.active() <= i < self.size() ==> #[trigger] after.voices()[i] == self.voices()[i]
    }

    /// Lets go, or silences, the voices of a channel and a key, each of
    /// which may be left open.
    fn mark(&mut self, channel: Option<i32>, key: Option<i32>, immediate: bool)
        requires
            old(self).wf(),
        ensures
            final(self).wf(),
            old(self).marks(final(self), channel, key, immediate),
    {
        let mut i: usize = 0;
        while i < self.active_count
            invariant
                i <= self.active_count == old(self).active_count,
                self.voices.len() == old(self).voices.len(),
                self.minimum_voice_length == old(self).minimum_voice_length,
                self.note_ons == old(self).note_ons,
                old(self).wf(),
                forall|k: int| 0 <= k < self.voices.len() ==> (#[trigger] self.voices@[k]).slot
                    == old(self).voices@[k].slot,
                forall|k: int| 0 <= k < self.voices.len() ==> (#[trigger] self.voices@[k]).channel
                    == old(self).voices@[k].channel,
                forall|k: int|
                    0 <= k < i ==> #[trigger] self.voices@[k] == Self::marked(
                        old(self).voices@[k],
                        channel,
                        key,
                        immediate,
                    ),
                forall|k: int|
                    i <= k < self.voices.len() ==> #[trigger] self.voices@[k] == old(self).voices@[k],
            decreases self.active_count - i,
        {
            let mut voice = self.voices[i];
            let on_channel = match channel {
                Some(c) => voice.channel == c,
                None => true,
            };
            let on_key = match key {
                Some(k) => voice.key == k,
                None => true,
            };
            if on_channel && on_key {
                if immediate {
                    voice.kill();
                } else {
                    voice.end();
                }
                self.voices.set(i, voice);
            }
            i += 1;
        }
    }

    /// Lets go the voices that play `key` on `channel`.
    pub fn note_off(&mut self, channel: i32, key: i32)
        requires
            old(self).wf(),
        ensures
            final(self).wf(),
            old(self).marks(final(self), Some(channel), Some(key), false),
    {
        self.mark(Some(channel), Some(key), false);
    }

    /// Lets go every voice or, with `immediate`, silences every voice.
    pub fn note_off_all(&mut self, immediate: bool)
        requires
            old(self).wf(),
        ensures
            final(self).wf(),
            old(self).marks(final(self), None, None, immediate),
    {
        self.mark(None, None, immediate);
    }

    /// Lets go the voices of `channel` or, with `immediate`, silences them.
    pub fn note_off_all_channel(&mut self, channel: i32, immediate: bool)
        requires
            old(self).wf(),
        ensures
            final(self).wf(),
            old(self).marks(final(self), Some(channel), None, immediate),
    {
        self.mark(Some(channel), None, immediate);
    }

    /// Frees every voice.
    pub fn clear(&mut self)
        requires
            old(self).wf(),
        ensures
            final(self).wf(),
            final(self).active() == 0,
            final(self).voices() == old(self).voices(),
            final(self).minimum_length() == old(self).minimum_length(),
            final(self).note_ons() == old(self).note_ons(),
    {
        self.active_count = 0;
    }
}

/// A pool in order never has more voices sounding than it holds, and each
/// of them is playing, waiting for its release, or released.
pub proof fn lemma_pool_is_never_overfull(pool: VoiceCollection)
    requires
        pool.wf(),
    ensures
        0 <= pool.active() <= pool.size(),
        forall|i: int|
            0 <= i < pool.active() ==> {
                let state = (#[trigger] pool.voices()[i]).voice_state;
                state == VoiceState::Playing || state == VoiceState::ReleaseRequested || state
                    == VoiceState::Released
            },
{
}

/// A full pool has one voice to steal and no other: the rule leaves nothing
/// open, also where voices weigh the same, have played as long and were
/// started at the same count.
pub proof fn lemma_one_voice_is_stolen(pool: VoiceCollection, first: int, second: int)
    requires
        pool.is_candidate(first),
        pool.is_candidate(second),
    ensures
        first == second,
{
    if first < second {
        assert(pool.voices()[second].goes_before(pool.voices()[first]));
    } else if second < first {
        assert(pool.voices()[first].goes_before(pool.voices()[second]));
    }
}

/// The voice that is stolen weighs least; of those that weigh as little it
/// has played longest; and of those that have played as long, none was
/// started before it.
pub proof fn lemma_stolen_voice_is_least(pool: VoiceCollection, stolen: int, other: int)
    requires
        pool.is_candidate(stolen),
        0 <= other < pool.active(),
    ensures
        pool.voices()[stolen].priority() <= pool.voices()[other].priority(),
        pool.voices()[stolen].priority() == pool.voices()[other].priority()
            ==> pool.voices()[stolen].voice_length >= pool.voices()[other].voice_length,
        pool.voices()[stolen].priority() == pool.voices()[other].priority()
            && pool.voices()[stolen].voice_length == pool.voices()[other].voice_length
            ==> pool.voices()[stolen].started_at <= pool.voices()[other].started_at,
{
    assert(!pool.voices()[other].goes_before(pool.voices()[stolen]));
}

/// A voice that does not go on is gone after the sample was made: where all
/// that still sounds came from voices that go on, no sounding voice has the
/// slot of one that does not.
pub proof fn lemma_ended_voice_is_freed(
    before: VoiceCollection,
    after: VoiceCollection,
    data: Seq<i16>,
    ended: int,
)
    requires
        before.wf(),
        forall|i: int| 0 <= i < after.active() ==> before.gave(#[trigger] after.voices()[i], data),
        0 <= ended < before.active(),
        !before.voices()[ended].survives(data),
    ensures
        forall|i: int|
            0 <= i < after.active() ==> (#[trigger] after.voices()[i]).slot
                != before.voices()[ended].slot,
{
    assert forall|i: int| 0 <= i < after.active() implies (#[trigger] after.voices()[i]).slot
        != before.voices()[ended].slot by {
        let voice = after.voices()[i];
        assert(before.gave(voice, data));
        let j = choose|j: int|
            0 <= j < before.active() && (#[trigger] before.voices()[j]).survives(data) && voice
                == before.voices()[j].processed(data);
        assert(j != ended);
        if j < ended {
            assert(before.voices()[j].slot != before.voices()[ended].slot);
        } else {
            assert(before.voices()[ended].slot != before.voices()[j].slot);
        }
    }
}

/// The voices that go on are the sounding voices less those that end: after
/// a sample was made, as many voices sound as sounded before, less the
/// voices that have ended.
pub proof fn lemma_voices_left_are_those_not_ended(pool: VoiceCollection, data: Seq<i16>)
    requires
        pool.wf(),
    ensures
        pool.going_on(data).finite(),
        pool.ending(data).finite(),
        pool.going_on(data).len() == pool.active() - pool.ending(data).len(),
{
    let places = vstd::set_lib::set_int_range(0, pool.active());
    vstd::set_lib::lemma_int_range(0, pool.active());
    vstd::set_lib::lemma_len_subset(pool.going_on(data), places);
    vstd::set_lib::lemma_len_subset(pool.ending(data), places);
    vstd::set_lib::lemma_set_disjoint_lens(pool.going_on(data), pool.ending(data));
    assert(pool.going_on(data) + pool.ending(data) =~= places);
}

/// Of the voices that still sound after a sample was made no two are the
/// same: none that goes on is there twice.
pub proof fn lemma_voices_that_go_on_are_kept_once(
    before: VoiceCollection,
    after: VoiceCollection,
    data: Seq<i16>,
    first: int,
    second: int,
)
    requires
        before.wf(),
        after.wf(),
        forall|i: int| 0 <= i < after.active() ==> before.gave(#[trigger] after.voices()[i], data),
        0 <= first < second < after.active(),
    ensures
        after.voices()[first].slot != after.voices()[second].slot,
{
}

} // verus!
