//! SoundFonts in memory and the lookup of the regions to play a note with.

use crate::error::SoundFontError;
use crate::oscillator::View;
use crate::region_pair::RegionPair;
use crate::LoopMode;
use std::collections::HashMap;
use std::sync::Arc;
use vstd::prelude::*;
use vstd::view::View as _;

verus! {

/// A key and velocity rectangle of a preset with its generators and the
/// instrument that it plays.
#[derive(Clone, Copy, Debug)]
pub struct PresetRegion {
    pub gs: [i16; 58],
    pub key_range_start: i32,
    pub key_range_end: i32,
    pub velocity_range_start: i32,
    pub velocity_range_end: i32,
    /// The index of the instrument.
    pub instrument: usize,
}

/// A key and velocity rectangle of an instrument with its generators and the
/// sample that it plays.
#[derive(Clone, Copy, Debug)]
pub struct InstrumentRegion {
    pub gs: [i16; 58],
    pub key_range_start: i32,
    pub key_range_end: i32,
    pub velocity_range_start: i32,
    pub velocity_range_end: i32,
    /// Where the sample starts in the pool.
    pub sample_start: i32,
    /// Where the sample ends in the pool.
    pub sample_end: i32,
    /// Where the loop starts in the pool.
    pub sample_start_loop: i32,
    /// Where the loop ends in the pool.
    pub sample_end_loop: i32,
    pub sample_sample_rate: i32,
    /// The key at which the sample sounds at its own pitch.
    pub root_key: i32,
    /// In cents.
    pub sample_pitch_correction: i32,
    pub sample_modes: LoopMode,
    pub exclusive_class: i32,
}

/// A preset: what a bank and a patch number select.
#[derive(Debug)]
pub struct Preset {
    pub name: String,
    pub patch_number: i32,
    pub bank_number: i32,
    pub regions: Vec<PresetRegion>,
}

/// An instrument: the regions that a preset region plays.
#[derive(Debug)]
pub struct Instrument {
    pub name: String,
    pub regions: Vec<InstrumentRegion>,
}

/// A loaded SoundFont.
#[derive(Debug)]
pub struct SoundFont {
    pub presets: Vec<Preset>,
    pub instruments: Vec<Instrument>,
    pub wave_data: Vec<i16>,
}

/// The key and the velocity lie in the rectangle.
pub open spec fn in_rectangle(
    key: int,
    velocity: int,
    key_start: int,
    key_end: int,
    velocity_start: int,
    velocity_end: int,
) -> bool {
    key_start <= key <= key_end && velocity_start <= velocity <= velocity_end
}

impl PresetRegion {
    pub open spec fn covers(&self, key: int, velocity: int) -> bool {
        in_rectangle(
            key,
            velocity,
            self.key_range_start as int,
            self.key_range_end as int,
            self.velocity_range_start as int,
            self.velocity_range_end as int,
        )
    }

    /// Whether the region is meant for this key at this velocity.
    pub fn contains(&self, key: i32, velocity: i32) -> (inside: bool)
        ensures
            inside == self.covers(key as int, velocity as int),
    {
        self.key_range_start <= key && key <= self.key_range_end && self.velocity_range_start
            <= velocity && velocity <= self.velocity_range_end
    }
}

impl InstrumentRegion {
    pub open spec fn covers(&self, key: int, velocity: int) -> bool {
        in_rectangle(
            key,
            velocity,
            self.key_range_start as int,
            self.key_range_end as int,
            self.velocity_range_start as int,
            self.velocity_range_end as int,
        )
    }

    /// Whether the region is meant for this key at this velocity.
    pub fn contains(&self, key: i32, velocity: i32) -> (inside: bool)
        ensures
            inside == self.covers(key as int, velocity as int),
    {
        self.key_range_start <= key && key <= self.key_range_end && self.velocity_range_start
            <= velocity && velocity <= self.velocity_range_end
    }
}

/// The number under which a preset is looked up: the bank in the upper 16
/// bits, the patch in the lower.
pub open spec fn preset_id(bank: i32, patch: i32) -> i32 {
    (bank << 16) | patch
}

/// The number of the standard drum set, patch 0 of bank 128.
pub open spec fn drum_set_id() -> i32 {
    128i32 << 16
}

/// The table that the first `n` presets make: each preset number leads to
/// the last preset that carries it.
pub open spec fn preset_table(presets: Seq<Preset>, n: int) -> Map<i32, usize>
    decreases n,
{
    if n <= 0 {
        Map::empty()
    } else {
        preset_table(presets, n - 1).insert(
            preset_id(presets[n - 1].bank_number, presets[n - 1].patch_number),
            (n - 1) as usize,
        )
    }
}

/// `index` is the first among the first `n` presets to carry their smallest
/// number; 0 where there is none.
pub open spec fn is_default_preset(presets: Seq<Preset>, n: int, index: int) -> bool {
    if n <= 0 {
        index == 0
    } else {
        &&& 0 <= index < n
        &&& forall|i: int|
            0 <= i < n ==> preset_id(presets[index].bank_number, presets[index].patch_number)
                <= preset_id(#[trigger] presets[i].bank_number, presets[i].patch_number)
        &&& forall|i: int|
            0 <= i < index ==> preset_id(presets[index].bank_number, presets[index].patch_number)
                < preset_id(#[trigger] presets[i].bank_number, presets[i].patch_number)
    }
}

/// Every preset region names an instrument that there is.
pub open spec fn instruments_in_range(presets: Seq<Preset>, instruments: Seq<Instrument>) -> bool {
    forall|p: int, r: int|
        0 <= p < presets.len() && 0 <= r < presets[p].regions@.len() ==> (
        #[trigger] presets[p].regions@[r]).instrument < instruments.len()
}

/// `Arc::clone`: one more handle to the same pool of samples, which is
/// equal to the one it was made from.
#[verifier::external_body]
fn share(pool: &Arc<Vec<i16>>) -> (shared: Arc<Vec<i16>>)
    ensures
        shared == *pool,
{
    Arc::clone(pool)
}

/// Every preset region names an instrument below `limit`.
pub open spec fn regions_below(presets: Seq<Preset>, limit: int) -> bool {
    forall|p: int, r: int|
        0 <= p < presets.len() && 0 <= r < presets[p].regions@.len() ==> (
        #[trigger] presets[p].regions@[r]).instrument < limit
}

fn compute_preset_id(bank: i32, patch: i32) -> (id: i32)
    ensures
        id == preset_id(bank, patch),
{
    (bank << 16) | patch
}

impl SoundFont {
    /// The font has a preset, and every preset region names an instrument
    /// that there is.
    pub open spec fn valid(&self) -> bool {
        &&& self.presets@.len() > 0
        &&& instruments_in_range(self.presets@, self.instruments@)
    }

    /// What `validate` finds wrong with the font, if anything: no preset at
    /// all, or else the first preset region, in the order of the font, whose
    /// instrument does not exist.
    pub open spec fn first_fault(&self) -> Option<SoundFontError> {
        if self.presets@.len() == 0 {
            Some(SoundFontError::PresetNotFound)
        } else if instruments_in_range(self.presets@, self.instruments@) {
            None
        } else {
            let p = choose|p: int| self.is_first_faulty_preset(p);
            let r = choose|r: int| self.is_first_faulty_region(p, r);
            Some(
                SoundFontError::InvalidInstrumentId {
                    preset_id: p as usize,
                    instrument_id: self.presets@[p].regions@[r].instrument,
                },
            )
        }
    }

    /// A region of the preset names an instrument that is missing.
    pub open spec fn is_faulty_region(&self, p: int, r: int) -> bool {
        0 <= p < self.presets@.len() && 0 <= r < self.presets@[p].regions@.len()
            && self.presets@[p].regions@[r].instrument >= self.instruments@.len()
    }

    /// `r` is the first faulty region of preset `p`.
    pub open spec fn is_first_faulty_region(&self, p: int, r: int) -> bool {
        self.is_faulty_region(p, r) && forall|q: int| 0 <= q < r ==> !self.is_faulty_region(p, q)
    }

    /// `p` is the first preset with a faulty region.
    pub open spec fn is_first_faulty_preset(&self, p: int) -> bool {
        (exists|r: int| self.is_faulty_region(p, r)) && forall|q: int, r: int|
            0 <= q < p ==> !self.is_faulty_region(q, r)
    }

    /// Checks that the font can be played from.
    pub fn validate(&self) -> (result: Result<(), SoundFontError>)
        ensures
            result is Ok <==> self.valid(),
            result matches Err(error) ==> self.first_fault() == Some(error),
    {
        if self.presets.len() == 0 {
            return Err(SoundFontError::PresetNotFound);
        }
        let mut p: usize = 0;
        while p < self.presets.len()
            invariant
                p <= self.presets@.len(),
                forall|q: int, r: int| 0 <= q < p ==> !self.is_faulty_region(q, r),
            decreases self.presets.len() - p,
        {
            let preset = &self.presets[p];
            let mut r: usize = 0;
            while r < preset.regions.len()
                invariant
                    p < self.presets@.len(),
                    *preset == self.presets@[p as int],
                    r <= preset.regions@.len(),
                    forall|q: int| 0 <= q < r ==> !self.is_faulty_region(p as int, q),
                    forall|q: int, r: int| 0 <= q < p ==> !self.is_faulty_region(q, r),
                decreases preset.regions.len() - r,
            {
                let instrument: usize = preset.regions[r].instrument;
                if instrument >= self.instruments.len() {
                    proof {
                        assert(self.is_faulty_region(p as int, r as int));
                        assert(self.is_first_faulty_preset(p as int));
                        assert(self.is_first_faulty_region(p as int, r as int));
                        let first_p = choose|first_p: int| self.is_first_faulty_preset(first_p);
                        assert(first_p == p) by {
                            if first_p < p {
                                let some_r = choose|some_r: int| self.is_faulty_region(first_p, some_r);
                                assert(!self.is_faulty_region(first_p, some_r));
                            }
                            if p < first_p {
                                assert(!self.is_faulty_region(p as int, r as int));
                            }
                        }
                        let first_r = choose|first_r: int| self.is_first_faulty_region(first_p, first_r);
                        assert(first_r == r) by {
                            if first_r < r {
                                assert(!self.is_faulty_region(p as int, first_r));
                            }
                            if r < first_r {
                                assert(!self.is_faulty_region(p as int, r as int));
                            }
                        }
                        assert(!instruments_in_range(self.presets@, self.instruments@));
                    }
                    return Err(
                        SoundFontError::InvalidInstrumentId {
                            preset_id: p,
                            instrument_id: instrument,
                        },
                    );
                }
                r += 1;
            }
            p += 1;
        }
        proof {
            assert forall|p: int, r: int|
                0 <= p < self.presets@.len() && 0 <= r < self.presets@[p].regions@.len() implies (
            #[trigger] self.presets@[p].regions@[r]).instrument < self.instruments@.len() by {
                assert(!self.is_faulty_region(p, r));
            }
        }
        Ok(())
    }
}

/// A SoundFont prepared for playing: its presets with the table to look them
/// up by bank and patch.
pub struct SoundFontProc {
    presets: Vec<Preset>,
    instruments: Vec<Instrument>,
    preset_lookup: HashMap<i32, usize>,
    default_preset: usize,
    wave_data: Arc<Vec<i16>>,
}

impl SoundFontProc {
    pub closed spec fn presets(&self) -> Seq<Preset> {
        self.presets@
    }

    pub closed spec fn instruments(&self) -> Seq<Instrument> {
        self.instruments@
    }

    /// The sample pool.
    pub closed spec fn samples(&self) -> Seq<i16> {
        self.wave_data@
    }

    /// The pool as the regions share it.
    pub closed spec fn pool(&self) -> Arc<Vec<i16>> {
        self.wave_data
    }

    /// The preset that is played where a bank and a patch select none.
    pub closed spec fn default_preset(&self) -> int {
        self.default_preset as int
    }

    /// The table leads from each preset number to the last preset that
    /// carries it, and the default preset is the first with the smallest
    /// number.
    pub closed spec fn wf(&self) -> bool {
        &&& self.presets@.len() > 0
        &&& instruments_in_range(self.presets@, self.instruments@)
        &&& self.preset_lookup@ == preset_table(self.presets@, self.presets@.len() as int)
        &&& is_default_preset(self.presets@, self.presets@.len() as int, self.default_preset as int)
    }

    /// The preset that a bank and a patch number lead to: the preset with
    /// these numbers; failing that, for a bank below 128 the preset of bank 0
    /// with this patch, for a bank from 128 on the standard drum set; failing
    /// that too, the default preset.
    pub open spec fn chosen_preset(&self, bank: i32, patch: i32) -> int {
        let table = preset_table(self.presets(), self.presets().len() as int);
        let fallback = if bank < 128 {
            patch
        } else {
            drum_set_id()
        };
        if table.contains_key(preset_id(bank, patch)) {
            table[preset_id(bank, patch)] as int
        } else if table.contains_key(fallback) {
            table[fallback] as int
        } else {
            self.default_preset()
        }
    }

    /// Region `p` of the preset and region `r` of its instrument both cover
    /// the key at the velocity.
    pub open spec fn pair_matches(&self, preset: int, p: int, r: int, key: int, velocity: int) -> bool {
        let regions = self.presets()[preset].regions@;
        &&& 0 <= p < regions.len()
        &&& regions[p].covers(key, velocity)
        &&& regions[p].instrument < self.instruments().len()
        &&& 0 <= r < self.instruments()[regions[p].instrument as int].regions@.len()
        &&& self.instruments()[regions[p].instrument as int].regions@[r].covers(key, velocity)
    }

    /// The pair is the first that matches: no earlier preset region has a
    /// matching instrument region, and of this preset region no earlier
    /// instrument region matches.
    pub open spec fn first_match(&self, preset: int, p: int, r: int, key: int, velocity: int) -> bool {
        &&& self.pair_matches(preset, p, r, key, velocity)
        &&& forall|other_p: int, other_r: int| #[trigger]
            self.pair_matches(preset, other_p, other_r, key, velocity) ==> p < other_p || (p == other_p && r <= other_r)
    }

    /// `pair` is what the first matching regions of the chosen preset give:
    /// the two regions and the window of the sample in the pool.
    pub open spec fn finds(
        &self,
        bank: i32,
        patch: i32,
        key: i32,
        velocity: i32,
        pair: RegionPair,
    ) -> bool {
        exists|p: int, r: int|
            {
                let preset = self.presets()[self.chosen_preset(bank, patch)];
                let region = preset.regions@[p];
                let instrument = self.instruments()[region.instrument as int].regions@[r];
                &&& #[trigger] self.first_match(
                    self.chosen_preset(bank, patch),
                    p,
                    r,
                    key as int,
                    velocity as int,
                )
                &&& pair.preset == region
                &&& pair.instrument == instrument
                &&& pair.wave_data == (View {
                    data: self.pool(),
                    start: instrument.sample_start as usize,
                    end: instrument.sample_end as usize,
                })
            }
    }

    /// No regions of the chosen preset match.
    pub open spec fn finds_none(&self, bank: i32, patch: i32, key: i32, velocity: i32) -> bool {
        forall|p: int, r: int|
            !#[trigger] self.pair_matches(
                self.chosen_preset(bank, patch),
                p,
                r,
                key as int,
                velocity as int,
            )
    }

    /// What `wf()` says to a caller: the font has a preset, every preset
    /// region names an instrument that there is, and the default preset is
    /// the first of those with the smallest number.
    pub proof fn lemma_wf(&self)
        requires
            self.wf(),
        ensures
            self.presets().len() > 0,
            instruments_in_range(self.presets(), self.instruments()),
            is_default_preset(self.presets(), self.presets().len() as int, self.default_preset()),
            0 <= self.default_preset() < self.presets().len(),
            forall|bank: i32, patch: i32|
                0 <= #[trigger] self.chosen_preset(bank, patch) < self.presets().len(),
    {
        assert(self.presets@.len() == self.presets.len());
        lemma_preset_table_in_range(self.presets@, self.presets@.len() as int);
    }

    /// Prepares a font for playing.
    pub fn new(sound_font: SoundFont) -> (proc: Self)
        requires
            sound_font.valid(),
        ensures
            proc.wf(),
            proc.presets() == sound_font.presets@,
            proc.instruments() == sound_font.instruments@,
            proc.samples() == sound_font.wave_data@,
            is_default_preset(
                proc.presets(),
                proc.presets().len() as int,
                proc.default_preset(),
            ),
    {
        broadcast use vstd::std_specs::hash::group_hash_axioms;

        let mut preset_lookup: HashMap<i32, usize> = HashMap::new();
        let mut min_preset_id: i32 = i32::MAX;
        let mut default_preset: usize = 0;
        let mut i: usize = 0;
        while i < sound_font.presets.len()
            invariant
                i <= sound_font.presets@.len(),
                preset_lookup@ == preset_table(sound_font.presets@, i as int),
                is_default_preset(sound_font.presets@, i as int, default_preset as int),
                i > 0 ==> min_preset_id == preset_id(
                    sound_font.presets@[default_preset as int].bank_number,
                    sound_font.presets@[default_preset as int].patch_number,
                ),
                i == 0 ==> min_preset_id == i32::MAX,
            decreases sound_font.presets.len() - i,
        {
            let preset = &sound_font.presets[i];
            let id: i32 = compute_preset_id(preset.bank_number, preset.patch_number);
            preset_lookup.insert(id, i);
            if id < min_preset_id {
                default_preset = i;
                min_preset_id = id;
            } else if i == 0 {
                min_preset_id = id;
            }
            i += 1;
        }
        SoundFontProc {
            presets: sound_font.presets,
            instruments: sound_font.instruments,
            preset_lookup,
            default_preset,
            wave_data: Arc::new(sound_font.wave_data),
        }
    }

    /// The samples that the regions refer to.
    pub fn wave_data(&self) -> (data: &Vec<i16>)
        ensures
            data@ == self.samples(),
    {
        &self.wave_data
    }

    /// Looks up the preset for a bank and a patch number.
    fn find_preset(&self, bank_id: i32, patch_id: i32) -> (preset: usize)
        requires
            self.wf(),
        ensures
            preset == self.chosen_preset(bank_id, patch_id),
            preset < self.presets().len(),
    {
        broadcast use vstd::std_specs::hash::group_hash_axioms;

        let count: usize = self.presets.len();
        proof {
            lemma_preset_table_in_range(self.presets@, count as int);
        }
        let id: i32 = compute_preset_id(bank_id, patch_id);
        match self.preset_lookup.get(&id) {
            Some(value) => *value,
            None => {
                let gm_preset_id: i32 = if bank_id < 128 {
                    patch_id
                } else {
                    128i32 << 16
                };
                match self.preset_lookup.get(&gm_preset_id) {
                    Some(value) => *value,
                    None => self.default_preset,
                }
            },
        }
    }

    /// Finds the regions to play a key at a velocity with: the first preset
    /// region of the chosen preset that covers both and has an instrument
    /// region that does so too, with the first such instrument region.
    /// Gives `None` where there is none.
    pub fn get_regions(&self, bank_id: i32, patch_id: i32, key: i32, velocity: i32) -> (found:
        Option<RegionPair>)
        requires
            self.wf(),
        ensures
            match found {
                Some(pair) => self.finds(bank_id, patch_id, key, velocity, pair),
                None => self.finds_none(bank_id, patch_id, key, velocity),
            },
    {
        let chosen: usize = self.find_preset(bank_id, patch_id);
        let preset = &self.presets[chosen];
        let mut p: usize = 0;
        while p < preset.regions.len()
            invariant
                self.wf(),
                chosen == self.chosen_preset(bank_id, patch_id),
                chosen < self.presets@.len(),
                *preset == self.presets@[chosen as int],
                p <= preset.regions@.len(),
                forall|other_p: int, other_r: int|
                    0 <= other_p < p ==> !#[trigger] self.pair_matches(
                        chosen as int,
                        other_p,
                        other_r,
                        key as int,
                        velocity as int,
                    ),
            decreases preset.regions.len() - p,
        {
            let region = &preset.regions[p];
            if region.contains(key, velocity) {
                assert(region.instrument < self.instruments@.len());
                let instrument = &self.instruments[region.instrument];
                let mut r: usize = 0;
                while r < instrument.regions.len()
                    invariant
                        self.wf(),
                        chosen == self.chosen_preset(bank_id, patch_id),
                        chosen < self.presets@.len(),
                        *preset == self.presets@[chosen as int],
                        p < preset.regions@.len(),
                        *region == preset.regions@[p as int],
                        region.instrument < self.instruments@.len(),
                        *instrument == self.instruments@[region.instrument as int],
                        r <= instrument.regions@.len(),
                        region.covers(key as int, velocity as int),
                        forall|other_r: int|
                            0 <= other_r < r ==> !#[trigger] self.pair_matches(
                                chosen as int,
                                p as int,
                                other_r,
                                key as int,
                                velocity as int,
                            ),
                        forall|other_p: int, other_r: int|
                            0 <= other_p < p ==> !#[trigger] self.pair_matches(
                                chosen as int,
                                other_p,
                                other_r,
                                key as int,
                                velocity as int,
                            ),
                    decreases instrument.regions.len() - r,
                {
                    let sample = &instrument.regions[r];
                    if sample.contains(key, velocity) {
                        let wave_data = View {
                            data: share(&self.wave_data),
                            start: #[verifier::truncate]
                            (sample.sample_start as usize),
                            end: #[verifier::truncate]
                            (sample.sample_end as usize),
                        };
                        assert(self.first_match(
                            chosen as int,
                            p as int,
                            r as int,
                            key as int,
                            velocity as int,
                        ));
                        return Some(RegionPair { preset: *region, instrument: *sample, wave_data });
                    }
                    r += 1;
                }
            }
            p += 1;
        }
        None
    }
}

/// The table leads only to presets that there are.
pub proof fn lemma_preset_table_in_range(presets: Seq<Preset>, n: int)
    requires
        0 <= n <= presets.len(),
        n <= usize::MAX,
    ensures
        forall|id: i32| #[trigger]
            preset_table(presets, n).contains_key(id) ==> preset_table(presets, n)[id] < n,
    decreases n,
{
    if n > 0 {
        lemma_preset_table_in_range(presets, n - 1);
        let before = preset_table(presets, n - 1);
        let added = preset_id(presets[n - 1].bank_number, presets[n - 1].patch_number);
        assert forall|id: i32| #[trigger]
            preset_table(presets, n).contains_key(id) implies preset_table(presets, n)[id] < n by {
            if id != added {
                assert(before.contains_key(id));
            }
        }
    }
}

/// The number of the preset at `i`.
pub open spec fn id_at(presets: Seq<Preset>, i: int) -> i32 {
    preset_id(presets[i].bank_number, presets[i].patch_number)
}

/// The table has the numbers of the presets for its keys and no others, and
/// each number leads to the last preset that carries it.
pub proof fn lemma_preset_table_holds(presets: Seq<Preset>, n: int)
    requires
        0 <= n <= presets.len(),
        n <= usize::MAX,
    ensures
        forall|i: int| 0 <= i < n ==> preset_table(presets, n).contains_key(#[trigger] id_at(presets, i)),
        forall|id: i32| #[trigger]
            preset_table(presets, n).contains_key(id) ==> {
                let found = preset_table(presets, n)[id] as int;
                &&& 0 <= found < n
                &&& id_at(presets, found) == id
                &&& forall|i: int| found < i < n ==> #[trigger] id_at(presets, i) != id
            },
    decreases n,
{
    if n > 0 {
        lemma_preset_table_holds(presets, n - 1);
        let before = preset_table(presets, n - 1);
        let after = preset_table(presets, n);
        let added = id_at(presets, n - 1);
        assert forall|i: int| 0 <= i < n implies after.contains_key(#[trigger] id_at(presets, i)) by {
            if i < n - 1 {
                assert(before.contains_key(id_at(presets, i)));
            }
        }
        assert forall|id: i32| #[trigger] after.contains_key(id) implies {
            let found = after[id] as int;
            &&& 0 <= found < n
            &&& id_at(presets, found) == id
            &&& forall|i: int| found < i < n ==> #[trigger] id_at(presets, i) != id
        } by {
            if id != added {
                assert(before.contains_key(id));
            }
        }
    }
}

} // verus!
