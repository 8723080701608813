//! Reading a SoundFont from the bytes of its file.

use crate::error::{FourCC, SoundFontError};
use crate::generator_type;
use crate::soundfont::{Instrument, InstrumentRegion, Preset, PresetRegion, SoundFont};
use crate::binary_reader::{
    four_cc_at, i16_le_at, i32_le_at, read_fixed_length_string, read_four_cc, read_i16, read_i32,
    read_u16, text_len, u16_le_at, utf8_lossy,
};
use crate::LoopMode;
use crate::soundfont_info::{info_outcome, SoundFontInfo, INFO, LIST};
use vstd::prelude::*;
use vstd::slice::slice_subrange;

verus! {

pub const RIFF: u32 = 0x5249_4646;

pub const SFBK: u32 = 0x7366_626B;

pub const SDTA: u32 = 0x7364_7461;

pub const SMPL: u32 = 0x736D_706C;

pub const SM24: u32 = 0x736D_3234;

/// The first four bytes of samples that are compressed.
pub const OGGS: u32 = 0x4F67_6753;

pub const PDTA: u32 = 0x7064_7461;

pub const PHDR: u32 = 0x7068_6472;

pub const PBAG: u32 = 0x7062_6167;

pub const PMOD: u32 = 0x706D_6F64;

pub const PGEN: u32 = 0x7067_656E;

pub const INST: u32 = 0x696E_7374;

pub const IBAG: u32 = 0x6962_6167;

pub const IMOD: u32 = 0x696D_6F64;

pub const IGEN: u32 = 0x6967_656E;

pub const SHDR: u32 = 0x7368_6472;

/// A list of sub-chunks is known by the kind of its contents.
#[derive(Clone, Copy, Debug, PartialEq, Eq, Structural)]
pub enum ListKind {
    /// The samples.
    SampleData,
    /// The presets, the instruments and the headers of the samples.
    Parameters,
}

/// A sub-chunk of this name may stand in a list of this kind.
pub open spec fn is_known(kind: ListKind, id: int) -> bool {
    match kind {
        ListKind::SampleData => id == SMPL || id == SM24,
        ListKind::Parameters => id == PHDR || id == PBAG || id == PMOD || id == PGEN || id == INST
            || id == IBAG || id == IMOD || id == IGEN || id == SHDR,
    }
}

/// Where the sub-chunks of a list lie, each by its name: the start of its
/// data and its length.
#[derive(Clone, Copy, Debug)]
pub struct ChunkSpans {
    pub samples: Option<(usize, usize)>,
    pub preset_headers: Option<(usize, usize)>,
    pub preset_bags: Option<(usize, usize)>,
    pub preset_generators: Option<(usize, usize)>,
    pub instrument_headers: Option<(usize, usize)>,
    pub instrument_bags: Option<(usize, usize)>,
    pub instrument_generators: Option<(usize, usize)>,
    pub sample_headers: Option<(usize, usize)>,
}

impl ChunkSpans {
    /// No sub-chunk found yet.
    pub open spec fn none() -> ChunkSpans {
        ChunkSpans {
            samples: None,
            preset_headers: None,
            preset_bags: None,
            preset_generators: None,
            instrument_headers: None,
            instrument_bags: None,
            instrument_generators: None,
            sample_headers: None,
        }
    }

    /// The spans with the sub-chunk of the name `id` found at `span`; names
    /// whose data is not read are passed over.
    pub open spec fn with(self, id: int, span: (usize, usize)) -> ChunkSpans {
        if id == SMPL {
            ChunkSpans { samples: Some(span), ..self }
        } else if id == PHDR {
            ChunkSpans { preset_headers: Some(span), ..self }
        } else if id == PBAG {
            ChunkSpans { preset_bags: Some(span), ..self }
        } else if id == PGEN {
            ChunkSpans { preset_generators: Some(span), ..self }
        } else if id == INST {
            ChunkSpans { instrument_headers: Some(span), ..self }
        } else if id == IBAG {
            ChunkSpans { instrument_bags: Some(span), ..self }
        } else if id == IGEN {
            ChunkSpans { instrument_generators: Some(span), ..self }
        } else if id == SHDR {
            ChunkSpans { sample_headers: Some(span), ..self }
        } else {
            self
        }
    }

    /// The spans lie within `end` bytes.
    pub open spec fn within(self, end: int) -> bool {
        &&& self.samples matches Some((start, size)) ==> start + size <= end
        &&& self.preset_headers matches Some((start, size)) ==> start + size <= end
        &&& self.preset_bags matches Some((start, size)) ==> start + size <= end
        &&& self.preset_generators matches Some((start, size)) ==> start + size <= end
        &&& self.instrument_headers matches Some((start, size)) ==> start + size <= end
        &&& self.instrument_bags matches Some((start, size)) ==> start + size <= end
        &&& self.instrument_generators matches Some((start, size)) ==> start + size <= end
        &&& self.sample_headers matches Some((start, size)) ==> start + size <= end
    }

    fn noted(self, id: u32, span: (usize, usize)) -> (spans: ChunkSpans)
        ensures
            spans == self.with(id as int, span),
    {
        let mut spans = self;
        if id == SMPL {
            spans.samples = Some(span);
        } else if id == PHDR {
            spans.preset_headers = Some(span);
        } else if id == PBAG {
            spans.preset_bags = Some(span);
        } else if id == PGEN {
            spans.preset_generators = Some(span);
        } else if id == INST {
            spans.instrument_headers = Some(span);
        } else if id == IBAG {
            spans.instrument_bags = Some(span);
        } else if id == IGEN {
            spans.instrument_generators = Some(span);
        } else if id == SHDR {
            spans.sample_headers = Some(span);
        }
        spans
    }
}

/// Walks the sub-chunks of a list from `pos` to `end` and notes for each name
/// where the data of its last sub-chunk lies and how long it is.
///
/// The walk fails where a sub-chunk does not end within the list and where
/// it has a name that a list of this kind does not have.
pub open spec fn chunk_table(
    data: Seq<u8>,
    pos: int,
    end: int,
    kind: ListKind,
    found: ChunkSpans,
) -> Result<ChunkSpans, SoundFontError>
    decreases end - pos,
{
    if pos >= end {
        Ok(found)
    } else if pos < 0 || pos + 8 > end {
        Err(SoundFontError::IoError)
    } else {
        let id = four_cc_at(data, pos);
        let size = i32_le_at(data, pos + 4);
        if !is_known(kind, id) {
            Err(SoundFontError::ListContainsUnknownId(FourCC(id as u32)))
        } else if size < 0 || pos + 8 + size > end {
            Err(SoundFontError::IoError)
        } else {
            chunk_table(
                data,
                pos + 8 + size,
                end,
                kind,
                found.with(id, ((pos + 8) as usize, size as usize)),
            )
        }
    }
}

/// Walks the sub-chunks of a list that lies between `start` and `end`.
pub fn read_chunk_table(data: &[u8], start: usize, end: usize, kind: ListKind) -> (result: Result<
    ChunkSpans,
    SoundFontError,
>)
    requires
        start <= end <= data@.len(),
    ensures
        result == chunk_table(data@, start as int, end as int, kind, ChunkSpans::none()),
        result matches Ok(spans) ==> spans.within(end as int),
{
    let mut spans = ChunkSpans {
        samples: None,
        preset_headers: None,
        preset_bags: None,
        preset_generators: None,
        instrument_headers: None,
        instrument_bags: None,
        instrument_generators: None,
        sample_headers: None,
    };
    let mut pos: usize = start;
    while pos < end
        invariant
            start <= pos <= end <= data@.len(),
            spans.within(end as int),
            chunk_table(data@, start as int, end as int, kind, ChunkSpans::none()) == chunk_table(
                data@,
                pos as int,
                end as int,
                kind,
                spans,
            ),
        decreases end - pos,
    {
        if end - pos < 8 {
            return Err(SoundFontError::IoError);
        }
        let id: u32 = read_four_cc(data, pos);
        let size: i32 = read_i32(data, pos + 4);
        let known = match kind {
            ListKind::SampleData => id == SMPL || id == SM24,
            ListKind::Parameters => id == PHDR || id == PBAG || id == PMOD || id == PGEN || id
                == INST || id == IBAG || id == IMOD || id == IGEN || id == SHDR,
        };
        if !known {
            return Err(SoundFontError::ListContainsUnknownId(FourCC(id)));
        }
        if size < 0 || end - pos - 8 < size as usize {
            return Err(SoundFontError::IoError);
        }
        spans = spans.noted(id, (pos + 8, size as usize));
        pos = pos + 8 + size as usize;
    }
    Ok(spans)
}

pub const GEN_START_ADDRESS_OFFSET: usize = 0;

pub const GEN_END_ADDRESS_OFFSET: usize = 1;

pub const GEN_START_LOOP_ADDRESS_OFFSET: usize = 2;

pub const GEN_END_LOOP_ADDRESS_OFFSET: usize = 3;

pub const GEN_START_ADDRESS_COARSE_OFFSET: usize = 4;

pub const GEN_END_ADDRESS_COARSE_OFFSET: usize = 12;

pub const GEN_INSTRUMENT: usize = 41;

pub const GEN_KEY_RANGE: usize = 43;

pub const GEN_VELOCITY_RANGE: usize = 44;

pub const GEN_START_LOOP_ADDRESS_COARSE_OFFSET: usize = 45;

pub const GEN_KEY_NUMBER: usize = 46;

pub const GEN_VELOCITY: usize = 47;

pub const GEN_END_LOOP_ADDRESS_COARSE_OFFSET: usize = 50;

pub const GEN_SAMPLE_ID: usize = 53;

pub const GEN_SAMPLE_MODES: usize = 54;

pub const GEN_EXCLUSIVE_CLASS: usize = 57;

pub const GEN_OVERRIDING_ROOT_KEY: usize = 58;

/// The number of records of `width` bytes in a sub-chunk.
pub open spec fn records(span: (usize, usize), width: int) -> int {
    span.1 as int / width
}

/// The generator at which zone `z` of a list of bags begins; the zone ends
/// where the next begins.
pub open spec fn zone_from(data: Seq<u8>, bags: (usize, usize), z: int) -> int {
    u16_le_at(data, bags.0 + 4 * z)
}

/// The kind of generator `g`.
pub open spec fn generator_kind(data: Seq<u8>, generators: (usize, usize), g: int) -> int {
    u16_le_at(data, generators.0 + 4 * g)
}

/// The amount of generator `g`.
pub open spec fn generator_amount(data: Seq<u8>, generators: (usize, usize), g: int) -> i16 {
    i16_le_at(data, generators.0 + 4 * g + 2) as i16
}

/// The generators of zone `z` do not lie within the list of generators.
pub open spec fn zone_is_faulty(
    data: Seq<u8>,
    bags: (usize, usize),
    generators: (usize, usize),
    z: int,
) -> bool {
    zone_from(data, bags, z) > zone_from(data, bags, z + 1) || zone_from(data, bags, z + 1)
        > records(generators, 4)
}

/// The last generator of zone `z` is of the kind `link`: the zone is a
/// region.  A zone without it, if it leads its header, holds what all
/// regions of the header share.
pub open spec fn zone_links(
    data: Seq<u8>,
    bags: (usize, usize),
    generators: (usize, usize),
    z: int,
    link: int,
) -> bool {
    zone_from(data, bags, z) < zone_from(data, bags, z + 1) && generator_kind(
        data,
        generators,
        zone_from(data, bags, z + 1) - 1,
    ) == link
}

/// The values `gs` with the generators from `from` up to `to` written over
/// them, each at the place of its kind; kinds beyond the slots are passed
/// over.
pub open spec fn applied(
    data: Seq<u8>,
    generators: (usize, usize),
    from: int,
    to: int,
    gs: Seq<i16>,
) -> Seq<i16>
    decreases to - from,
{
    if from >= to {
        gs
    } else {
        let kind = generator_kind(data, generators, from);
        applied(
            data,
            generators,
            from + 1,
            to,
            if kind < gs.len() {
                gs.update(kind, generator_amount(data, generators, from))
            } else {
                gs
            },
        )
    }
}

/// The values `gs` with the generators of zone `z` written over them.
pub open spec fn zone_applied(
    data: Seq<u8>,
    bags: (usize, usize),
    generators: (usize, usize),
    z: int,
    gs: Seq<i16>,
) -> Seq<i16> {
    applied(data, generators, zone_from(data, bags, z), zone_from(data, bags, z + 1), gs)
}

/// The sub-chunks that hold the headers of presets or of instruments with
/// their zones and generators.
#[derive(Clone, Copy, Debug)]
pub struct ZoneTable {
    /// Where the headers lie.
    pub headers: (usize, usize),
    /// The length of a header.
    pub width: usize,
    /// Where in a header its first zone is noted.
    pub offset: usize,
    /// Where the bags lie, one for each zone.
    pub bags: (usize, usize),
    /// Where the generators lie.
    pub generators: (usize, usize),
    /// The kind of generator that ends a zone which is a region: the
    /// instrument of a preset, the sample of an instrument.
    pub link: usize,
}

impl ZoneTable {
    /// The sub-chunks lie within the data and hold whole records, the
    /// headers are presets or instruments, and there is a header and a zone.
    pub open spec fn wf(self, data: Seq<u8>) -> bool {
        &&& self.headers.0 + self.headers.1 <= data.len()
        &&& self.bags.0 + self.bags.1 <= data.len()
        &&& self.generators.0 + self.generators.1 <= data.len()
        &&& (self.width == 38 && self.offset == 24 && self.link == GEN_INSTRUMENT) || (self.width
            == 22 && self.offset == 20 && self.link == GEN_SAMPLE_ID)
        &&& self.headers.1 as int % self.width as int == 0
        &&& self.bags.1 as int % 4 == 0
        &&& self.generators.1 as int % 4 == 0
        &&& self.count() >= 1
        &&& self.zones() >= 1
    }

    /// The number of headers, the last record not counted: it only ends the
    /// zones of the one before.
    pub open spec fn count(self) -> int {
        records(self.headers, self.width as int) - 1
    }

    /// The number of zones, the last record not counted.
    pub open spec fn zones(self) -> int {
        records(self.bags, 4) - 1
    }

    /// Every zone has its generators within the list of generators.
    pub open spec fn zones_ok(self, data: Seq<u8>) -> bool {
        forall|z: int|
            0 <= z < self.zones() ==> !#[trigger] zone_is_faulty(data, self.bags, self.generators, z)
    }

    /// Where header `h` begins.
    pub open spec fn header_at(self, h: int) -> int {
        self.headers.0 + self.width * h
    }

    /// The zone at which the zones of header `h` begin; they end where those
    /// of the next header begin.
    pub open spec fn header_zone(self, data: Seq<u8>, h: int) -> int {
        u16_le_at(data, self.header_at(h) + self.offset)
    }

    /// What is wrong with the zones of header `h`, if anything: it has none,
    /// or they do not lie within the zones that there are.
    pub open spec fn header_fault(self, data: Seq<u8>, h: int) -> Option<SoundFontError> {
        if self.header_zone(data, h) >= self.header_zone(data, h + 1) {
            if self.link == GEN_INSTRUMENT {
                Some(SoundFontError::InvalidPreset(h as usize))
            } else {
                Some(SoundFontError::InvalidInstrument(h as usize))
            }
        } else if self.header_zone(data, h + 1) > self.zones() {
            Some(SoundFontError::InvalidZoneList)
        } else {
            None
        }
    }

    /// The first zone of header `h` that is a region: its first zone, or the
    /// one after it where the first holds what all regions share.
    pub open spec fn region_base(self, data: Seq<u8>, h: int) -> int {
        let first = self.header_zone(data, h);
        if zone_links(data, self.bags, self.generators, first, self.link as int) {
            first
        } else {
            first + 1
        }
    }

    /// The number of regions of header `h`.
    pub open spec fn region_count(self, data: Seq<u8>, h: int) -> int {
        self.header_zone(data, h + 1) - self.region_base(data, h)
    }

    /// What all regions of header `h` start from: the defaults, with what the
    /// first zone sets where it is no region.
    pub open spec fn shared_generators(self, data: Seq<u8>, defaults: Seq<i16>, h: int) -> Seq<
        i16,
    > {
        let first = self.header_zone(data, h);
        if self.region_base(data, h) == first {
            defaults
        } else {
            zone_applied(data, self.bags, self.generators, first, defaults)
        }
    }

    /// The generators of region `r` of header `h`: what all regions of the
    /// header start from, with what the zone of the region sets.
    pub open spec fn region_generators(
        self,
        data: Seq<u8>,
        defaults: Seq<i16>,
        h: int,
        r: int,
    ) -> Seq<i16> {
        zone_applied(
            data,
            self.bags,
            self.generators,
            self.region_base(data, h) + r,
            self.shared_generators(data, defaults, h),
        )
    }
}

/// The generator is the delay of an LFO or a time of an envelope.
pub open spec fn is_time(kind: int) -> bool {
    kind == generator_type::DELAY_MODULATION_LFO || kind == generator_type::DELAY_VIBRATO_LFO
        || kind == generator_type::DELAY_MODULATION_ENVELOPE || kind
        == generator_type::ATTACK_MODULATION_ENVELOPE || kind
        == generator_type::HOLD_MODULATION_ENVELOPE || kind
        == generator_type::DECAY_MODULATION_ENVELOPE || kind
        == generator_type::RELEASE_MODULATION_ENVELOPE || kind
        == generator_type::DELAY_VOLUME_ENVELOPE || kind == generator_type::ATTACK_VOLUME_ENVELOPE
        || kind == generator_type::HOLD_VOLUME_ENVELOPE || kind
        == generator_type::DECAY_VOLUME_ENVELOPE || kind == generator_type::RELEASE_VOLUME_ENVELOPE
}

/// The generators of an instrument region before any zone is applied: the
/// filter open, the times as short as can be, the whole range of keys and
/// velocities, a hundred cents from key to key, and no key, velocity or
/// root key forced.
pub open spec fn instrument_defaults() -> Seq<i16> {
    Seq::new(
        61,
        |kind: int|
            if kind == generator_type::INITIAL_FILTER_CUTOFF_FREQUENCY {
                13500i16
            } else if is_time(kind) {
                -12000i16
            } else if kind == GEN_KEY_RANGE || kind == GEN_VELOCITY_RANGE {
                0x7F00i16
            } else if kind == GEN_KEY_NUMBER || kind == GEN_VELOCITY || kind
                == GEN_OVERRIDING_ROOT_KEY {
                -1i16
            } else if kind == generator_type::SCALE_TUNING {
                100i16
            } else {
                0i16
            },
    )
}

/// The generators of a preset region before any zone is applied: the whole
/// range of keys and velocities, and nothing added to any generator.
pub open spec fn preset_defaults() -> Seq<i16> {
    Seq::new(
        61,
        |kind: int|
            if kind == GEN_KEY_RANGE || kind == GEN_VELOCITY_RANGE {
                0x7F00i16
            } else {
                0i16
            },
    )
}

fn make_instrument_defaults() -> (gs: [i16; 61])
    ensures
        gs@ == instrument_defaults(),
{
    let mut gs: [i16; 61] = [0i16; 61];
    gs[generator_type::INITIAL_FILTER_CUTOFF_FREQUENCY] = 13500;
    gs[generator_type::DELAY_MODULATION_LFO] = -12000;
    gs[generator_type::DELAY_VIBRATO_LFO] = -12000;
    gs[generator_type::DELAY_MODULATION_ENVELOPE] = -12000;
    gs[generator_type::ATTACK_MODULATION_ENVELOPE] = -12000;
    gs[generator_type::HOLD_MODULATION_ENVELOPE] = -12000;
    gs[generator_type::DECAY_MODULATION_ENVELOPE] = -12000;
    gs[generator_type::RELEASE_MODULATION_ENVELOPE] = -12000;
    gs[generator_type::DELAY_VOLUME_ENVELOPE] = -12000;
    gs[generator_type::ATTACK_VOLUME_ENVELOPE] = -12000;
    gs[generator_type::HOLD_VOLUME_ENVELOPE] = -12000;
    gs[generator_type::DECAY_VOLUME_ENVELOPE] = -12000;
    gs[generator_type::RELEASE_VOLUME_ENVELOPE] = -12000;
    gs[GEN_KEY_RANGE] = 0x7F00;
    gs[GEN_VELOCITY_RANGE] = 0x7F00;
    gs[GEN_KEY_NUMBER] = -1;
    gs[GEN_VELOCITY] = -1;
    gs[generator_type::SCALE_TUNING] = 100;
    gs[GEN_OVERRIDING_ROOT_KEY] = -1;
    assert(gs@ =~= instrument_defaults());
    gs
}

fn make_preset_defaults() -> (gs: [i16; 61])
    ensures
        gs@ == preset_defaults(),
{
    let mut gs: [i16; 61] = [0i16; 61];
    gs[GEN_KEY_RANGE] = 0x7F00;
    gs[GEN_VELOCITY_RANGE] = 0x7F00;
    assert(gs@ =~= preset_defaults());
    gs
}

/// Writes the generators from `from` up to `to` over `gs`.
fn apply_generators(
    data: &[u8],
    generators: (usize, usize),
    from: usize,
    to: usize,
    gs: [i16; 61],
) -> (result: [i16; 61])
    requires
        generators.0 + generators.1 <= data@.len(),
        from <= to <= records(generators, 4),
    ensures
        result@ == applied(data@, generators, from as int, to as int, gs@),
{
    let length: usize = data.len();
    let mut result = gs;
    let mut g: usize = from;
    while g < to
        invariant
            from <= g <= to <= records(generators, 4),
            generators.0 + generators.1 <= data@.len() == length,
            applied(data@, generators, from as int, to as int, gs@) == applied(
                data@,
                generators,
                g as int,
                to as int,
                result@,
            ),
        decreases to - g,
    {
        let at: usize = generators.0 + 4 * g;
        let kind: u16 = read_u16(data, at);
        let amount: i16 = read_i16(data, at + 2);
        if (kind as usize) < 61 {
            result[kind as usize] = amount;
        }
        g += 1;
    }
    result
}

/// Checks that every zone has its generators within the list of
/// generators.
fn check_zones(data: &[u8], table: &ZoneTable) -> (ok: bool)
    requires
        table.wf(data@),
    ensures
        ok == table.zones_ok(data@),
{
    let length: usize = data.len();
    let zones: usize = table.bags.1 / 4 - 1;
    let limit: usize = table.generators.1 / 4;
    let mut z: usize = 0;
    while z < zones
        invariant
            z <= zones == table.zones(),
            limit == records(table.generators, 4),
            table.wf(data@),
            length == data@.len(),
            forall|k: int|
                0 <= k < z ==> !#[trigger] zone_is_faulty(data@, table.bags, table.generators, k),
        decreases zones - z,
    {
        let from: u16 = read_u16(data, table.bags.0 + 4 * z);
        let to: u16 = read_u16(data, table.bags.0 + 4 * (z + 1));
        if from > to || to as usize > limit {
            assert(zone_is_faulty(data@, table.bags, table.generators, z as int));
            return false;
        }
        z += 1;
    }
    true
}

/// Reads the zones of a header: the zone at which they begin and the zone at
/// which they end.
fn read_header_zones(data: &[u8], table: &ZoneTable, h: usize) -> (result: Result<
    (usize, usize),
    SoundFontError,
>)
    requires
        table.wf(data@),
        h < table.count(),
    ensures
        match table.header_fault(data@, h as int) {
            Some(error) => result matches Err(e) && e == error,
            None => result matches Ok((first, end)) && first == table.header_zone(data@, h as int)
                && end == table.header_zone(data@, h + 1),
        },
{
    let length: usize = data.len();
    assert(table.width * (h + 2) <= table.headers.1) by (nonlinear_arith)
        requires
            h + 2 <= table.headers.1 as int / table.width as int,
            table.headers.1 as int % table.width as int == 0,
            table.width > 0,
    ;
    assert(table.width * h <= table.width * (h + 1) <= table.width * (h + 2)) by (nonlinear_arith)
        requires
            table.width > 0,
            h >= 0,
    ;
    assert(table.width * (h + 2) == table.width * (h + 1) + table.width) by (nonlinear_arith);
    assert(table.width * (h + 1) == table.width * h + table.width) by (nonlinear_arith);
    let first: u16 = read_u16(data, table.headers.0 + table.width * h + table.offset);
    let end: u16 = read_u16(data, table.headers.0 + table.width * (h + 1) + table.offset);
    if first >= end {
        if table.link == GEN_INSTRUMENT {
            return Err(SoundFontError::InvalidPreset(h));
        } else {
            return Err(SoundFontError::InvalidInstrument(h));
        }
    }
    if end as usize > table.bags.1 / 4 - 1 {
        return Err(SoundFontError::InvalidZoneList);
    }
    Ok((first as usize, end as usize))
}

/// Writes the generators of zone `z` over `gs`.
fn apply_zone(data: &[u8], table: &ZoneTable, z: usize, gs: [i16; 61]) -> (result: [i16; 61])
    requires
        table.wf(data@),
        z < table.zones(),
        !zone_is_faulty(data@, table.bags, table.generators, z as int),
    ensures
        result@ == zone_applied(data@, table.bags, table.generators, z as int, gs@),
{
    let length: usize = data.len();
    let from: u16 = read_u16(data, table.bags.0 + 4 * z);
    let to: u16 = read_u16(data, table.bags.0 + 4 * (z + 1));
    apply_generators(data, table.generators, from as usize, to as usize, gs)
}

/// Whether zone `z` is a region.
fn zone_is_region(data: &[u8], table: &ZoneTable, z: usize) -> (linked: bool)
    requires
        table.wf(data@),
        z < table.zones(),
        !zone_is_faulty(data@, table.bags, table.generators, z as int),
    ensures
        linked == zone_links(data@, table.bags, table.generators, z as int, table.link as int),
{
    let length: usize = data.len();
    let from: u16 = read_u16(data, table.bags.0 + 4 * z);
    let to: u16 = read_u16(data, table.bags.0 + 4 * (z + 1));
    if from >= to {
        return false;
    }
    let kind: u16 = read_u16(data, table.generators.0 + 4 * (to as usize - 1));
    kind as usize == table.link
}

/// The lower of the two bytes of a range.
pub open spec fn low_byte(packed: i16) -> int {
    (packed as u16) as int % 256
}

/// The higher of the two bytes of a range.
pub open spec fn high_byte(packed: i16) -> int {
    (packed as u16) as int / 256
}

/// The number fits 32 bits.
pub open spec fn fits_i32(value: int) -> bool {
    i32::MIN <= value <= i32::MAX
}

/// An address of a sample: what its header says at `at`, moved by 32768 for
/// each unit of the coarse generator and by 1 for each of the fine one.
pub open spec fn sample_address(
    data: Seq<u8>,
    header: int,
    at: int,
    gs: Seq<i16>,
    coarse: int,
    fine: int,
) -> int {
    i32_le_at(data, header + at) + 32768 * gs[coarse] + gs[fine]
}

/// Where the sample of a region starts.
pub open spec fn sample_start_of(data: Seq<u8>, header: int, gs: Seq<i16>) -> int {
    sample_address(
        data,
        header,
        20,
        gs,
        GEN_START_ADDRESS_COARSE_OFFSET as int,
        GEN_START_ADDRESS_OFFSET as int,
    )
}

/// Where the sample of a region ends.
pub open spec fn sample_end_of(data: Seq<u8>, header: int, gs: Seq<i16>) -> int {
    sample_address(
        data,
        header,
        24,
        gs,
        GEN_END_ADDRESS_COARSE_OFFSET as int,
        GEN_END_ADDRESS_OFFSET as int,
    )
}

/// Where the loop of a region starts.
pub open spec fn loop_start_of(data: Seq<u8>, header: int, gs: Seq<i16>) -> int {
    sample_address(
        data,
        header,
        28,
        gs,
        GEN_START_LOOP_ADDRESS_COARSE_OFFSET as int,
        GEN_START_LOOP_ADDRESS_OFFSET as int,
    )
}

/// Where the loop of a region ends.
pub open spec fn loop_end_of(data: Seq<u8>, header: int, gs: Seq<i16>) -> int {
    sample_address(
        data,
        header,
        32,
        gs,
        GEN_END_LOOP_ADDRESS_COARSE_OFFSET as int,
        GEN_END_LOOP_ADDRESS_OFFSET as int,
    )
}

/// How a sample loops, by its generator.
pub open spec fn loop_mode_of(mode: i16) -> LoopMode {
    if mode == 1 {
        LoopMode::Continuous
    } else if mode == 3 {
        LoopMode::LoopUntilNoteOff
    } else {
        LoopMode::NoLoop
    }
}

/// The number that the link generator of a region holds: the instrument of
/// a preset region, the sample of an instrument region.
pub open spec fn linked(gs: Seq<i16>, link: int) -> int {
    (gs[link] as u16) as int
}

/// What is wrong with a region of header `h` that has the generators `gs`,
/// if anything: what it is linked to is not among the `limit` that there
/// are, or an address of its sample does not fit 32 bits.
pub open spec fn region_fault(
    data: Seq<u8>,
    table: ZoneTable,
    samples: (usize, usize),
    gs: Seq<i16>,
    h: int,
    limit: int,
) -> Option<SoundFontError> {
    let id = linked(gs, table.link as int);
    if table.link == GEN_INSTRUMENT {
        if id >= limit {
            Some(
                SoundFontError::InvalidInstrumentId {
                    preset_id: h as usize,
                    instrument_id: id as usize,
                },
            )
        } else {
            None
        }
    } else if id >= limit {
        Some(SoundFontError::InvalidSampleId { instrument_id: h as usize, sample_id: id as usize })
    } else {
        let header = samples.0 + 46 * id;
        if fits_i32(sample_start_of(data, header, gs)) && fits_i32(
            sample_end_of(data, header, gs),
        ) && fits_i32(loop_start_of(data, header, gs)) && fits_i32(
            loop_end_of(data, header, gs),
        ) {
            None
        } else {
            Some(SoundFontError::SanityCheckFailed)
        }
    }
}

/// The first thing that is wrong with the first `n` regions of header `h`.
pub open spec fn regions_fault(
    data: Seq<u8>,
    table: ZoneTable,
    samples: (usize, usize),
    defaults: Seq<i16>,
    h: int,
    limit: int,
    n: int,
) -> Option<SoundFontError>
    decreases n,
{
    if n <= 0 {
        None
    } else {
        match regions_fault(data, table, samples, defaults, h, limit, n - 1) {
            Some(error) => Some(error),
            None => region_fault(
                data,
                table,
                samples,
                table.region_generators(data, defaults, h, n - 1),
                h,
                limit,
            ),
        }
    }
}

/// The first thing that is wrong with header `h`: with its zones, or else
/// with its regions.
pub open spec fn header_regions_fault(
    data: Seq<u8>,
    table: ZoneTable,
    samples: (usize, usize),
    defaults: Seq<i16>,
    h: int,
    limit: int,
) -> Option<SoundFontError> {
    match table.header_fault(data, h) {
        Some(error) => Some(error),
        None => regions_fault(
            data,
            table,
            samples,
            defaults,
            h,
            limit,
            table.region_count(data, h),
        ),
    }
}

/// The first thing that is wrong with the first `n` headers.
pub open spec fn headers_fault(
    data: Seq<u8>,
    table: ZoneTable,
    samples: (usize, usize),
    defaults: Seq<i16>,
    limit: int,
    n: int,
) -> Option<SoundFontError>
    decreases n,
{
    if n <= 0 {
        None
    } else {
        match headers_fault(data, table, samples, defaults, limit, n - 1) {
            Some(error) => Some(error),
            None => header_regions_fault(data, table, samples, defaults, n - 1, limit),
        }
    }
}

/// What is wrong among the first regions stays wrong among more.
pub proof fn lemma_regions_fault_stays(
    data: Seq<u8>,
    table: ZoneTable,
    samples: (usize, usize),
    defaults: Seq<i16>,
    h: int,
    limit: int,
    k: int,
    n: int,
)
    requires
        k <= n,
        regions_fault(data, table, samples, defaults, h, limit, k) is Some,
    ensures
        regions_fault(data, table, samples, defaults, h, limit, n) == regions_fault(
            data,
            table,
            samples,
            defaults,
            h,
            limit,
            k,
        ),
    decreases n - k,
{
    if k < n {
        lemma_regions_fault_stays(data, table, samples, defaults, h, limit, k, n - 1);
    }
}

/// What is wrong among the first headers stays wrong among more.
pub proof fn lemma_headers_fault_stays(
    data: Seq<u8>,
    table: ZoneTable,
    samples: (usize, usize),
    defaults: Seq<i16>,
    limit: int,
    k: int,
    n: int,
)
    requires
        k <= n,
        headers_fault(data, table, samples, defaults, limit, k) is Some,
    ensures
        headers_fault(data, table, samples, defaults, limit, n) == headers_fault(
            data,
            table,
            samples,
            defaults,
            limit,
            k,
        ),
    decreases n - k,
{
    if k < n {
        lemma_headers_fault_stays(data, table, samples, defaults, limit, k, n - 1);
    }
}

/// The region holds what its generators and the header of its sample say.
pub open spec fn instrument_region_holds(
    region: InstrumentRegion,
    data: Seq<u8>,
    samples: (usize, usize),
    gs: Seq<i16>,
) -> bool {
    let header = samples.0 + 46 * linked(gs, GEN_SAMPLE_ID as int);
    &&& region.gs@ == gs.take(58)
    &&& region.key_range_start == low_byte(gs[GEN_KEY_RANGE as int])
    &&& region.key_range_end == high_byte(gs[GEN_KEY_RANGE as int])
    &&& region.velocity_range_start == low_byte(gs[GEN_VELOCITY_RANGE as int])
    &&& region.velocity_range_end == high_byte(gs[GEN_VELOCITY_RANGE as int])
    &&& region.sample_start == sample_start_of(data, header, gs)
    &&& region.sample_end == sample_end_of(data, header, gs)
    &&& region.sample_start_loop == loop_start_of(data, header, gs)
    &&& region.sample_end_loop == loop_end_of(data, header, gs)
    &&& region.sample_sample_rate == i32_le_at(data, header + 36)
    &&& region.root_key == if gs[GEN_OVERRIDING_ROOT_KEY as int] != -1 {
        gs[GEN_OVERRIDING_ROOT_KEY as int] as int
    } else {
        data[header + 40] as int
    }
    &&& region.sample_pitch_correction == if data[header + 41] >= 128 {
        data[header + 41] - 256
    } else {
        data[header + 41] as int
    }
    &&& region.sample_modes == loop_mode_of(gs[GEN_SAMPLE_MODES as int])
    &&& region.exclusive_class == gs[GEN_EXCLUSIVE_CLASS as int]
}

/// The region holds what its generators say.
pub open spec fn preset_region_holds(region: PresetRegion, gs: Seq<i16>) -> bool {
    &&& region.gs@ == gs.take(58)
    &&& region.key_range_start == low_byte(gs[GEN_KEY_RANGE as int])
    &&& region.key_range_end == high_byte(gs[GEN_KEY_RANGE as int])
    &&& region.velocity_range_start == low_byte(gs[GEN_VELOCITY_RANGE as int])
    &&& region.velocity_range_end == high_byte(gs[GEN_VELOCITY_RANGE as int])
    &&& region.instrument == linked(gs, GEN_INSTRUMENT as int)
}

/// The generators that a region keeps.
fn kept_generators(gs: &[i16; 61]) -> (kept: [i16; 58])
    ensures
        kept@ == gs@.take(58),
{
    let mut kept: [i16; 58] = [0i16; 58];
    let mut i: usize = 0;
    while i < 58
        invariant
            i <= 58,
            forall|k: int| 0 <= k < i ==> kept@[k] == gs@[k],
        decreases 58 - i,
    {
        kept[i] = gs[i];
        i += 1;
    }
    assert(kept@ =~= gs@.take(58));
    kept
}

/// The two bytes of a range.
fn range_of(packed: i16) -> (range: (i32, i32))
    ensures
        range.0 == low_byte(packed),
        range.1 == high_byte(packed),
{
    let unsigned: u16 = #[verifier::truncate]
    (packed as u16);
    ((unsigned % 256) as i32, (unsigned / 256) as i32)
}

/// The number that a link generator holds.
fn link_of(value: i16) -> (id: usize)
    ensures
        id == (value as u16) as int,
{
    let unsigned: u16 = #[verifier::truncate]
    (value as u16);
    unsigned as usize
}

/// Makes the region of a preset from its generators.
fn make_preset_region(
    data: &[u8],
    table: &ZoneTable,
    gs: &[i16; 61],
    h: usize,
    limit: usize,
) -> (result: Result<PresetRegion, SoundFontError>)
    requires
        table.link == GEN_INSTRUMENT,
    ensures
        match region_fault(data@, *table, (0, 0), gs@, h as int, limit as int) {
            Some(error) => result matches Err(e) && e == error,
            None => result matches Ok(region) && preset_region_holds(region, gs@)
                && region.instrument < limit,
        },
{
    let instrument: usize = link_of(gs[GEN_INSTRUMENT]);
    if instrument >= limit {
        return Err(SoundFontError::InvalidInstrumentId { preset_id: h, instrument_id: instrument });
    }
    let keys = range_of(gs[GEN_KEY_RANGE]);
    let velocities = range_of(gs[GEN_VELOCITY_RANGE]);
    Ok(
        PresetRegion {
            gs: kept_generators(gs),
            key_range_start: keys.0,
            key_range_end: keys.1,
            velocity_range_start: velocities.0,
            velocity_range_end: velocities.1,
            instrument,
        },
    )
}

/// Reads an address of a sample, if it fits 32 bits.
fn read_sample_address(
    data: &[u8],
    header: usize,
    at: usize,
    gs: &[i16; 61],
    coarse: usize,
    fine: usize,
) -> (address: Option<i32>)
    requires
        header + 46 <= data@.len(),
        at + 4 <= 46,
        coarse < 61,
        fine < 61,
    ensures
        match address {
            Some(value) => value == sample_address(
                data@,
                header as int,
                at as int,
                gs@,
                coarse as int,
                fine as int,
            ),
            None => !fits_i32(
                sample_address(data@, header as int, at as int, gs@, coarse as int, fine as int),
            ),
        },
{
    let length: usize = data.len();
    let address: i64 = read_i32(data, header + at) as i64 + 32768 * (gs[coarse] as i64)
        + gs[fine] as i64;
    if address < i32::MIN as i64 || address > i32::MAX as i64 {
        None
    } else {
        Some(address as i32)
    }
}

/// Makes the region of an instrument from its generators and the header of
/// its sample.
fn make_instrument_region(
    data: &[u8],
    table: &ZoneTable,
    samples: (usize, usize),
    gs: &[i16; 61],
    h: usize,
    limit: usize,
) -> (result: Result<InstrumentRegion, SoundFontError>)
    requires
        table.link == GEN_SAMPLE_ID,
        samples.0 + samples.1 <= data@.len(),
        samples.1 as int % 46 == 0,
        limit == records(samples, 46) - 1,
    ensures
        match region_fault(data@, *table, samples, gs@, h as int, limit as int) {
            Some(error) => result matches Err(e) && e == error,
            None => result matches Ok(region) && instrument_region_holds(
                region,
                data@,
                samples,
                gs@,
            ),
        },
{
    let length: usize = data.len();
    let sample: usize = link_of(gs[GEN_SAMPLE_ID]);
    if sample >= limit {
        return Err(SoundFontError::InvalidSampleId { instrument_id: h, sample_id: sample });
    }
    assert(46 * (sample + 2) <= samples.1) by (nonlinear_arith)
        requires
            sample + 2 <= samples.1 as int / 46,
            samples.1 as int % 46 == 0,
    ;
    let header: usize = samples.0 + 46 * sample;
    let start = read_sample_address(
        data,
        header,
        20,
        gs,
        GEN_START_ADDRESS_COARSE_OFFSET,
        GEN_START_ADDRESS_OFFSET,
    );
    let end = read_sample_address(
        data,
        header,
        24,
        gs,
        GEN_END_ADDRESS_COARSE_OFFSET,
        GEN_END_ADDRESS_OFFSET,
    );
    let start_loop = read_sample_address(
        data,
        header,
        28,
        gs,
        GEN_START_LOOP_ADDRESS_COARSE_OFFSET,
        GEN_START_LOOP_ADDRESS_OFFSET,
    );
    let end_loop = read_sample_address(
        data,
        header,
        32,
        gs,
        GEN_END_LOOP_ADDRESS_COARSE_OFFSET,
        GEN_END_LOOP_ADDRESS_OFFSET,
    );
    match (start, end, start_loop, end_loop) {
        (Some(sample_start), Some(sample_end), Some(sample_start_loop), Some(sample_end_loop)) => {
            let keys = range_of(gs[GEN_KEY_RANGE]);
            let velocities = range_of(gs[GEN_VELOCITY_RANGE]);
            let correction: u8 = data[header + 41];
            Ok(
                InstrumentRegion {
                    gs: kept_generators(gs),
                    key_range_start: keys.0,
                    key_range_end: keys.1,
                    velocity_range_start: velocities.0,
                    velocity_range_end: velocities.1,
                    sample_start,
                    sample_end,
                    sample_start_loop,
                    sample_end_loop,
                    sample_sample_rate: read_i32(data, header + 36),
                    root_key: if gs[GEN_OVERRIDING_ROOT_KEY] != -1 {
                        gs[GEN_OVERRIDING_ROOT_KEY] as i32
                    } else {
                        data[header + 40] as i32
                    },
                    sample_pitch_correction: if correction >= 128 {
                        correction as i32 - 256
                    } else {
                        correction as i32
                    },
                    sample_modes: if gs[GEN_SAMPLE_MODES] == 1 {
                        LoopMode::Continuous
                    } else if gs[GEN_SAMPLE_MODES] == 3 {
                        LoopMode::LoopUntilNoteOff
                    } else {
                        LoopMode::NoLoop
                    },
                    exclusive_class: gs[GEN_EXCLUSIVE_CLASS] as i32,
                },
            )
        },
        _ => Err(SoundFontError::SanityCheckFailed),
    }
}

/// The name in a header: the text in its first twenty bytes.
pub open spec fn header_name(data: Seq<u8>, at: int) -> Seq<char> {
    utf8_lossy(data.subrange(at, at + text_len(data, at, 20)))
}

/// The regions are those of header `h`.
pub open spec fn instrument_regions_hold(
    regions: Seq<InstrumentRegion>,
    data: Seq<u8>,
    table: ZoneTable,
    samples: (usize, usize),
    h: int,
) -> bool {
    &&& regions.len() == table.region_count(data, h)
    &&& forall|r: int|
        0 <= r < regions.len() ==> instrument_region_holds(
            #[trigger] regions[r],
            data,
            samples,
            table.region_generators(data, instrument_defaults(), h, r),
        )
}

/// The regions are those of header `h`.
pub open spec fn preset_regions_hold(
    regions: Seq<PresetRegion>,
    data: Seq<u8>,
    table: ZoneTable,
    h: int,
) -> bool {
    &&& regions.len() == table.region_count(data, h)
    &&& forall|r: int|
        0 <= r < regions.len() ==> preset_region_holds(
            #[trigger] regions[r],
            table.region_generators(data, preset_defaults(), h, r),
        )
}

/// The instrument is that of header `h`.
pub open spec fn instrument_holds(
    instrument: Instrument,
    data: Seq<u8>,
    table: ZoneTable,
    samples: (usize, usize),
    h: int,
) -> bool {
    &&& instrument.name@ == header_name(data, table.header_at(h))
    &&& instrument_regions_hold(instrument.regions@, data, table, samples, h)
}

/// The preset is that of header `h`.
pub open spec fn preset_holds(preset: Preset, data: Seq<u8>, table: ZoneTable, h: int) -> bool {
    &&& preset.name@ == header_name(data, table.header_at(h))
    &&& preset.patch_number == u16_le_at(data, table.header_at(h) + 20)
    &&& preset.bank_number == u16_le_at(data, table.header_at(h) + 22)
    &&& preset_regions_hold(preset.regions@, data, table, h)
}

/// Finds where the regions of a header begin and what they all start from.
fn read_shared(
    data: &[u8],
    table: &ZoneTable,
    defaults: [i16; 61],
    h: usize,
    first: usize,
) -> (result: (usize, [i16; 61]))
    requires
        table.wf(data@),
        table.zones_ok(data@),
        first == table.header_zone(data@, h as int),
        first < table.zones(),
    ensures
        result.0 == table.region_base(data@, h as int),
        result.1@ == table.shared_generators(data@, defaults@, h as int),
{
    assert(!zone_is_faulty(data@, table.bags, table.generators, first as int));
    if zone_is_region(data, table, first) {
        (first, defaults)
    } else {
        (first + 1, apply_zone(data, table, first, defaults))
    }
}

/// Reads the regions of an instrument.
fn read_instrument_regions(
    data: &[u8],
    table: &ZoneTable,
    samples: (usize, usize),
    h: usize,
) -> (result: Result<Vec<InstrumentRegion>, SoundFontError>)
    requires
        table.wf(data@),
        table.zones_ok(data@),
        table.link == GEN_SAMPLE_ID,
        h < table.count(),
        samples.0 + samples.1 <= data@.len(),
        samples.1 as int % 46 == 0,
        records(samples, 46) >= 1,
    ensures
        match header_regions_fault(
            data@,
            *table,
            samples,
            instrument_defaults(),
            h as int,
            records(samples, 46) - 1,
        ) {
            Some(error) => result matches Err(e) && e == error,
            None => result matches Ok(regions) && instrument_regions_hold(
                regions@,
                data@,
                *table,
                samples,
                h as int,
            ),
        },
{
    let limit: usize = samples.1 / 46 - 1;
    let (first, end) = match read_header_zones(data, table, h) {
        Ok(zones) => zones,
        Err(error) => {
            return Err(error);
        },
    };
    let defaults = make_instrument_defaults();
    let (base, shared) = read_shared(data, table, defaults, h, first);
    let count: usize = end - base;
    let mut regions: Vec<InstrumentRegion> = Vec::new();
    let mut r: usize = 0;
    while r < count
        invariant
            r <= count,
            table.wf(data@),
            table.zones_ok(data@),
            table.link == GEN_SAMPLE_ID,
            samples.0 + samples.1 <= data@.len(),
            samples.1 as int % 46 == 0,
            limit == records(samples, 46) - 1,
            base == table.region_base(data@, h as int),
            base + count == table.header_zone(data@, h + 1) <= table.zones(),
            count == table.region_count(data@, h as int),
            shared@ == table.shared_generators(data@, instrument_defaults(), h as int),
            regions.len() == r,
            regions_fault(data@, *table, samples, instrument_defaults(), h as int, limit as int, r as int)
                is None,
            forall|k: int|
                0 <= k < r ==> instrument_region_holds(
                    #[trigger] regions@[k],
                    data@,
                    samples,
                    table.region_generators(data@, instrument_defaults(), h as int, k),
                ),
        decreases count - r,
    {
        assert(!zone_is_faulty(data@, table.bags, table.generators, (base + r) as int));
        let gs = apply_zone(data, table, base + r, shared);
        match make_instrument_region(data, table, samples, &gs, h, limit) {
            Ok(region) => {
                regions.push(region);
            },
            Err(error) => {
                proof {
                    lemma_regions_fault_stays(
                        data@,
                        *table,
                        samples,
                        instrument_defaults(),
                        h as int,
                        limit as int,
                        r + 1,
                        count as int,
                    );
                }
                return Err(error);
            },
        }
        r += 1;
    }
    Ok(regions)
}

/// Reads the regions of a preset.
fn read_preset_regions(data: &[u8], table: &ZoneTable, h: usize, limit: usize) -> (result: Result<
    Vec<PresetRegion>,
    SoundFontError,
>)
    requires
        table.wf(data@),
        table.zones_ok(data@),
        table.link == GEN_INSTRUMENT,
        h < table.count(),
    ensures
        match header_regions_fault(
            data@,
            *table,
            (0, 0),
            preset_defaults(),
            h as int,
            limit as int,
        ) {
            Some(error) => result matches Err(e) && e == error,
            None => result matches Ok(regions) && preset_regions_hold(
                regions@,
                data@,
                *table,
                h as int,
            ) && forall|r: int| 0 <= r < regions@.len() ==> (#[trigger] regions@[r]).instrument < limit,
        },
{
    let (first, end) = match read_header_zones(data, table, h) {
        Ok(zones) => zones,
        Err(error) => {
            return Err(error);
        },
    };
    let defaults = make_preset_defaults();
    let (base, shared) = read_shared(data, table, defaults, h, first);
    let count: usize = end - base;
    let mut regions: Vec<PresetRegion> = Vec::new();
    let mut r: usize = 0;
    while r < count
        invariant
            r <= count,
            table.wf(data@),
            table.zones_ok(data@),
            table.link == GEN_INSTRUMENT,
            base == table.region_base(data@, h as int),
            base + count == table.header_zone(data@, h + 1) <= table.zones(),
            count == table.region_count(data@, h as int),
            shared@ == table.shared_generators(data@, preset_defaults(), h as int),
            regions.len() == r,
            regions_fault(data@, *table, (0, 0), preset_defaults(), h as int, limit as int, r as int)
                is None,
            forall|k: int|
                0 <= k < r ==> preset_region_holds(
                    #[trigger] regions@[k],
                    table.region_generators(data@, preset_defaults(), h as int, k),
                ),
            forall|k: int| 0 <= k < r ==> (#[trigger] regions@[k]).instrument < limit,
        decreases count - r,
    {
        assert(!zone_is_faulty(data@, table.bags, table.generators, (base + r) as int));
        let gs = apply_zone(data, table, base + r, shared);
        match make_preset_region(data, table, &gs, h, limit) {
            Ok(region) => {
                regions.push(region);
            },
            Err(error) => {
                proof {
                    lemma_regions_fault_stays(
                        data@,
                        *table,
                        (0, 0),
                        preset_defaults(),
                        h as int,
                        limit as int,
                        r + 1,
                        count as int,
                    );
                }
                return Err(error);
            },
        }
        r += 1;
    }
    Ok(regions)
}

/// Where header `h` lies; it and the one after it lie within the data.
fn header_position(data: &[u8], table: &ZoneTable, h: usize) -> (at: usize)
    requires
        table.wf(data@),
        h < table.count(),
    ensures
        at == table.header_at(h as int),
        at + table.width <= data@.len(),
{
    let length: usize = data.len();
    assert(table.width * (h + 2) <= table.headers.1) by (nonlinear_arith)
        requires
            h + 2 <= table.headers.1 as int / table.width as int,
            table.headers.1 as int % table.width as int == 0,
            table.width > 0,
    ;
    assert(table.width * (h + 1) == table.width * h + table.width) by (nonlinear_arith);
    assert(table.width * (h + 1) <= table.width * (h + 2)) by (nonlinear_arith)
        requires
            table.width > 0,
    ;
    table.headers.0 + table.width * h
}

/// Reads the instruments.
fn read_instruments(data: &[u8], table: &ZoneTable, samples: (usize, usize)) -> (result: Result<
    Vec<Instrument>,
    SoundFontError,
>)
    requires
        table.wf(data@),
        table.zones_ok(data@),
        table.link == GEN_SAMPLE_ID,
        samples.0 + samples.1 <= data@.len(),
        samples.1 as int % 46 == 0,
        records(samples, 46) >= 1,
    ensures
        match headers_fault(
            data@,
            *table,
            samples,
            instrument_defaults(),
            records(samples, 46) - 1,
            table.count(),
        ) {
            Some(error) => result matches Err(e) && e == error,
            None => result matches Ok(instruments) && instruments@.len() == table.count()
                && forall|h: int|
                0 <= h < instruments@.len() ==> instrument_holds(
                    #[trigger] instruments@[h],
                    data@,
                    *table,
                    samples,
                    h,
                ),
        },
{
    let count: usize = table.headers.1 / table.width - 1;
    let ghost limit = records(samples, 46) - 1;
    let mut instruments: Vec<Instrument> = Vec::new();
    let mut h: usize = 0;
    while h < count
        invariant
            h <= count == table.count(),
            table.wf(data@),
            table.zones_ok(data@),
            table.link == GEN_SAMPLE_ID,
            samples.0 + samples.1 <= data@.len(),
            samples.1 as int % 46 == 0,
            records(samples, 46) >= 1,
            limit == records(samples, 46) - 1,
            instruments.len() == h,
            headers_fault(data@, *table, samples, instrument_defaults(), limit, h as int) is None,
            forall|k: int|
                0 <= k < h ==> instrument_holds(#[trigger] instruments@[k], data@, *table, samples, k),
        decreases count - h,
    {
        let regions = match read_instrument_regions(data, table, samples, h) {
            Ok(regions) => regions,
            Err(error) => {
                proof {
                    lemma_headers_fault_stays(
                        data@,
                        *table,
                        samples,
                        instrument_defaults(),
                        limit,
                        h + 1,
                        count as int,
                    );
                }
                return Err(error);
            },
        };
        let at: usize = header_position(data, table, h);
        let name = read_fixed_length_string(data, at, 20);
        instruments.push(Instrument { name, regions });
        h += 1;
    }
    Ok(instruments)
}

/// Reads the presets.
fn read_presets(data: &[u8], table: &ZoneTable, limit: usize) -> (result: Result<
    Vec<Preset>,
    SoundFontError,
>)
    requires
        table.wf(data@),
        table.zones_ok(data@),
        table.link == GEN_INSTRUMENT,
    ensures
        match headers_fault(
            data@,
            *table,
            (0, 0),
            preset_defaults(),
            limit as int,
            table.count(),
        ) {
            Some(error) => result matches Err(e) && e == error,
            None => result matches Ok(presets) && presets@.len() == table.count() && (forall|
                h: int,
            |
                0 <= h < presets@.len() ==> preset_holds(#[trigger] presets@[h], data@, *table, h))
                && crate::soundfont::regions_below(presets@, limit as int),
        },
{
    let count: usize = table.headers.1 / table.width - 1;
    let mut presets: Vec<Preset> = Vec::new();
    let mut h: usize = 0;
    while h < count
        invariant
            h <= count == table.count(),
            table.wf(data@),
            table.zones_ok(data@),
            table.link == GEN_INSTRUMENT,
            presets.len() == h,
            headers_fault(data@, *table, (0, 0), preset_defaults(), limit as int, h as int) is None,
            forall|k: int| 0 <= k < h ==> preset_holds(#[trigger] presets@[k], data@, *table, k),
            crate::soundfont::regions_below(presets@, limit as int),
        decreases count - h,
    {
        let regions = match read_preset_regions(data, table, h, limit) {
            Ok(regions) => regions,
            Err(error) => {
                proof {
                    lemma_headers_fault_stays(
                        data@,
                        *table,
                        (0, 0),
                        preset_defaults(),
                        limit as int,
                        h + 1,
                        count as int,
                    );
                }
                return Err(error);
            },
        };
        let at: usize = header_position(data, table, h);
        let length: usize = data.len();
        let name = read_fixed_length_string(data, at, 20);
        let patch_number: i32 = read_u16(data, at + 20) as i32;
        let bank_number: i32 = read_u16(data, at + 22) as i32;
        presets.push(Preset { name, patch_number, bank_number, regions });
        h += 1;
    }
    Ok(presets)
}

/// The samples in a sub-chunk: 16 bits each, the lower byte first.
pub open spec fn samples_at(data: Seq<u8>, wave: (usize, usize)) -> Seq<i16> {
    Seq::new((wave.1 / 2) as nat, |i: int| i16_le_at(data, wave.0 + 2 * i) as i16)
}

/// Reads the samples.
fn read_samples(data: &[u8], wave: (usize, usize)) -> (samples: Vec<i16>)
    requires
        wave.0 + wave.1 <= data@.len(),
    ensures
        samples@ == samples_at(data@, wave),
{
    let length: usize = data.len();
    let count: usize = wave.1 / 2;
    let mut samples: Vec<i16> = Vec::new();
    while samples.len() < count
        invariant
            samples.len() <= count == wave.1 / 2,
            wave.0 + wave.1 <= data@.len() == length,
            forall|i: int|
                0 <= i < samples.len() ==> samples@[i] == i16_le_at(data@, wave.0 + 2 * i) as i16,
        decreases count - samples.len(),
    {
        let sample: i16 = read_i16(data, wave.0 + 2 * samples.len());
        samples.push(sample);
    }
    assert(samples@ =~= samples_at(data@, wave));
    samples
}

/// Where the parts of a SoundFont lie in its file.
#[derive(Clone, Copy, Debug)]
pub struct Layout {
    /// The samples.
    pub wave: (usize, usize),
    /// The presets with their zones.
    pub presets: ZoneTable,
    /// The instruments with their zones.
    pub instruments: ZoneTable,
    /// The headers of the samples.
    pub sample_headers: (usize, usize),
}

impl Layout {
    /// Everything lies within the data and holds whole records, and there is
    /// a preset, an instrument, a zone for each and the last header of the
    /// samples.
    pub open spec fn wf(self, data: Seq<u8>) -> bool {
        &&& self.wave.0 + self.wave.1 <= data.len()
        &&& self.presets.wf(data)
        &&& self.presets.link == GEN_INSTRUMENT
        &&& self.instruments.wf(data)
        &&& self.instruments.link == GEN_SAMPLE_ID
        &&& self.sample_headers.0 + self.sample_headers.1 <= data.len()
        &&& self.sample_headers.1 as int % 46 == 0
        &&& records(self.sample_headers, 46) >= 1
    }

    /// The number of samples that a region can name.
    pub open spec fn sample_count(self) -> int {
        records(self.sample_headers, 46) - 1
    }

    /// Region `r` of instrument `h` has its sample and its loop within the
    /// pool of samples.
    pub open spec fn region_in_pool(self, data: Seq<u8>, h: int, r: int) -> bool {
        let gs = self.instruments.region_generators(data, instrument_defaults(), h, r);
        let header = self.sample_headers.0 + 46 * linked(gs, GEN_SAMPLE_ID as int);
        &&& 0 <= sample_start_of(data, header, gs)
        &&& 0 <= loop_start_of(data, header, gs)
        &&& sample_end_of(data, header, gs) <= self.wave.1 / 2
        &&& loop_end_of(data, header, gs) <= self.wave.1 / 2
    }

    /// Every region of every instrument has its sample within the pool.
    pub open spec fn all_in_pool(self, data: Seq<u8>) -> bool {
        forall|h: int, r: int|
            0 <= h < self.instruments.count() && 0 <= r < self.instruments.region_count(data, h)
                ==> #[trigger] self.region_in_pool(data, h, r)
    }

    /// The first thing that is wrong with what the file holds, if anything:
    /// a zone with generators that do not exist, then whatever is wrong with
    /// an instrument, then with a preset, then a sample that does not lie in
    /// the pool.
    pub open spec fn fault(self, data: Seq<u8>) -> Option<SoundFontError> {
        if !self.instruments.zones_ok(data) || !self.presets.zones_ok(data) {
            Some(SoundFontError::InvalidGeneratorList)
        } else {
            match headers_fault(
                data,
                self.instruments,
                self.sample_headers,
                instrument_defaults(),
                self.sample_count(),
                self.instruments.count(),
            ) {
                Some(error) => Some(error),
                None => match headers_fault(
                    data,
                    self.presets,
                    (0, 0),
                    preset_defaults(),
                    self.instruments.count(),
                    self.presets.count(),
                ) {
                    Some(error) => Some(error),
                    None => if self.all_in_pool(data) {
                        None
                    } else {
                        Some(SoundFontError::SanityCheckFailed)
                    },
                },
            }
        }
    }
}

/// The layout that the sub-chunks of a list of parameters give, with the
/// samples at `wave`, or what is wrong: a sub-chunk that is missing, one
/// that does not hold whole records, or no instrument, preset or zone at
/// all.
pub open spec fn parameters_layout(spans: ChunkSpans, wave: (usize, usize)) -> Result<
    Layout,
    SoundFontError,
> {
    if spans.preset_headers is None {
        Err(SoundFontError::SubChunkNotFound(FourCC(PHDR)))
    } else if spans.preset_bags is None {
        Err(SoundFontError::SubChunkNotFound(FourCC(PBAG)))
    } else if spans.preset_generators is None {
        Err(SoundFontError::SubChunkNotFound(FourCC(PGEN)))
    } else if spans.instrument_headers is None {
        Err(SoundFontError::SubChunkNotFound(FourCC(INST)))
    } else if spans.instrument_bags is None {
        Err(SoundFontError::SubChunkNotFound(FourCC(IBAG)))
    } else if spans.instrument_generators is None {
        Err(SoundFontError::SubChunkNotFound(FourCC(IGEN)))
    } else if spans.sample_headers is None {
        Err(SoundFontError::SubChunkNotFound(FourCC(SHDR)))
    } else {
        let preset_headers = spans.preset_headers->0;
        let preset_bags = spans.preset_bags->0;
        let preset_generators = spans.preset_generators->0;
        let instrument_headers = spans.instrument_headers->0;
        let instrument_bags = spans.instrument_bags->0;
        let instrument_generators = spans.instrument_generators->0;
        let sample_headers = spans.sample_headers->0;
        if preset_headers.1 as int % 38 != 0 {
            Err(SoundFontError::InvalidPresetList)
        } else if preset_bags.1 as int % 4 != 0 {
            Err(SoundFontError::InvalidZoneList)
        } else if preset_generators.1 as int % 4 != 0 {
            Err(SoundFontError::InvalidGeneratorList)
        } else if instrument_headers.1 as int % 22 != 0 {
            Err(SoundFontError::InvalidInstrumentList)
        } else if instrument_bags.1 as int % 4 != 0 {
            Err(SoundFontError::InvalidZoneList)
        } else if instrument_generators.1 as int % 4 != 0 {
            Err(SoundFontError::InvalidGeneratorList)
        } else if sample_headers.1 as int % 46 != 0 || sample_headers.1 < 46 {
            Err(SoundFontError::InvalidSampleHeaderList)
        } else if instrument_headers.1 < 2 * 22 {
            Err(SoundFontError::InstrumentNotFound)
        } else if preset_headers.1 < 2 * 38 {
            Err(SoundFontError::PresetNotFound)
        } else if instrument_bags.1 < 2 * 4 || preset_bags.1 < 2 * 4 {
            Err(SoundFontError::ZoneNotFound)
        } else {
            Ok(
                Layout {
                    wave,
                    presets: ZoneTable {
                        headers: preset_headers,
                        width: 38,
                        offset: 24,
                        bags: preset_bags,
                        generators: preset_generators,
                        link: GEN_INSTRUMENT,
                    },
                    instruments: ZoneTable {
                        headers: instrument_headers,
                        width: 22,
                        offset: 20,
                        bags: instrument_bags,
                        generators: instrument_generators,
                        link: GEN_SAMPLE_ID,
                    },
                    sample_headers,
                },
            )
        }
    }
}

/// Lays out the parameters.
fn plan_parameters(spans: &ChunkSpans, wave: (usize, usize), Ghost(data): Ghost<Seq<u8>>) -> (result:
    Result<Layout, SoundFontError>)
    requires
        spans.within(data.len() as int),
        wave.0 + wave.1 <= data.len(),
    ensures
        result == parameters_layout(*spans, wave),
        result matches Ok(layout) ==> layout.wf(data),
{
    let preset_headers = match spans.preset_headers {
        Some(span) => span,
        None => {
            return Err(SoundFontError::SubChunkNotFound(FourCC(PHDR)));
        },
    };
    let preset_bags = match spans.preset_bags {
        Some(span) => span,
        None => {
            return Err(SoundFontError::SubChunkNotFound(FourCC(PBAG)));
        },
    };
    let preset_generators = match spans.preset_generators {
        Some(span) => span,
        None => {
            return Err(SoundFontError::SubChunkNotFound(FourCC(PGEN)));
        },
    };
    let instrument_headers = match spans.instrument_headers {
        Some(span) => span,
        None => {
            return Err(SoundFontError::SubChunkNotFound(FourCC(INST)));
        },
    };
    let instrument_bags = match spans.instrument_bags {
        Some(span) => span,
        None => {
            return Err(SoundFontError::SubChunkNotFound(FourCC(IBAG)));
        },
    };
    let instrument_generators = match spans.instrument_generators {
        Some(span) => span,
        None => {
            return Err(SoundFontError::SubChunkNotFound(FourCC(IGEN)));
        },
    };
    let sample_headers = match spans.sample_headers {
        Some(span) => span,
        None => {
            return Err(SoundFontError::SubChunkNotFound(FourCC(SHDR)));
        },
    };
    if preset_headers.1 % 38 != 0 {
        return Err(SoundFontError::InvalidPresetList);
    }
    if preset_bags.1 % 4 != 0 {
        return Err(SoundFontError::InvalidZoneList);
    }
    if preset_generators.1 % 4 != 0 {
        return Err(SoundFontError::InvalidGeneratorList);
    }
    if instrument_headers.1 % 22 != 0 {
        return Err(SoundFontError::InvalidInstrumentList);
    }
    if instrument_bags.1 % 4 != 0 {
        return Err(SoundFontError::InvalidZoneList);
    }
    if instrument_generators.1 % 4 != 0 {
        return Err(SoundFontError::InvalidGeneratorList);
    }
    if sample_headers.1 % 46 != 0 || sample_headers.1 < 46 {
        return Err(SoundFontError::InvalidSampleHeaderList);
    }
    if instrument_headers.1 < 2 * 22 {
        return Err(SoundFontError::InstrumentNotFound);
    }
    if preset_headers.1 < 2 * 38 {
        return Err(SoundFontError::PresetNotFound);
    }
    if instrument_bags.1 < 2 * 4 || preset_bags.1 < 2 * 4 {
        return Err(SoundFontError::ZoneNotFound);
    }
    Ok(
        Layout {
            wave,
            presets: ZoneTable {
                headers: preset_headers,
                width: 38,
                offset: 24,
                bags: preset_bags,
                generators: preset_generators,
                link: GEN_INSTRUMENT,
            },
            instruments: ZoneTable {
                headers: instrument_headers,
                width: 22,
                offset: 20,
                bags: instrument_bags,
                generators: instrument_generators,
                link: GEN_SAMPLE_ID,
            },
            sample_headers,
        },
    )
}

/// Where the list at `pos` has its sub-chunks, where it ends and where the
/// next chunk begins, an odd length being filled up by a byte if there is
/// one; or why it is no list of the kind `kind`.
pub open spec fn list_span(data: Seq<u8>, pos: int, kind: int) -> Result<
    (int, int, int),
    SoundFontError,
> {
    if pos < 0 || pos + 4 > data.len() {
        Err(SoundFontError::IoError)
    } else if four_cc_at(data, pos) != LIST {
        Err(SoundFontError::ListChunkNotFound)
    } else if pos + 12 > data.len() {
        Err(SoundFontError::IoError)
    } else {
        let size = i32_le_at(data, pos + 4);
        if size < 4 || pos + 8 + size > data.len() {
            Err(SoundFontError::IoError)
        } else if four_cc_at(data, pos + 8) != kind {
            Err(
                SoundFontError::InvalidListChunkType {
                    expected: FourCC(kind as u32),
                    actual: FourCC(four_cc_at(data, pos + 8) as u32),
                },
            )
        } else {
            Ok(
                (
                    pos + 12,
                    pos + 8 + size,
                    if size % 2 == 1 && pos + 8 + size < data.len() {
                        pos + 8 + size + 1
                    } else {
                        pos + 8 + size
                    },
                ),
            )
        }
    }
}

/// Finds the list at `pos`.
fn read_list(data: &[u8], pos: usize, kind: u32) -> (result: Result<
    (usize, usize, usize),
    SoundFontError,
>)
    ensures
        match list_span(data@, pos as int, kind as int) {
            Ok((start, end, next)) => result matches Ok(span) && span.0 == start && span.1 == end
                && span.2 == next && start <= end <= data@.len(),
            Err(error) => result matches Err(e) && e == error,
        },
{
    let length: usize = data.len();
    if pos > length || length - pos < 4 {
        return Err(SoundFontError::IoError);
    }
    if read_four_cc(data, pos) != LIST {
        return Err(SoundFontError::ListChunkNotFound);
    }
    if length - pos < 12 {
        return Err(SoundFontError::IoError);
    }
    let size: i32 = read_i32(data, pos + 4);
    if size < 4 || length - pos - 8 < size as usize {
        return Err(SoundFontError::IoError);
    }
    let actual: u32 = read_four_cc(data, pos + 8);
    if actual != kind {
        return Err(
            SoundFontError::InvalidListChunkType { expected: FourCC(kind), actual: FourCC(actual) },
        );
    }
    let end: usize = pos + 8 + size as usize;
    let next: usize = if size % 2 == 1 && end < length {
        end + 1
    } else {
        end
    };
    Ok((pos + 12, end, next))
}

/// Where the parts of the SoundFont in `data` lie, or the first thing that
/// is wrong with the make-up of the file.
///
/// The file is a RIFF chunk of the type `sfbk` that holds three lists: the
/// information, the sample data and the parameters.  Samples that begin with
/// `OggS` are compressed, which is not supported.
pub open spec fn layout_of(data: Seq<u8>) -> Result<Layout, SoundFontError> {
    if data.len() < 4 {
        Err(SoundFontError::IoError)
    } else if four_cc_at(data, 0) != RIFF {
        Err(SoundFontError::RiffChunkNotFound)
    } else if data.len() < 12 {
        Err(SoundFontError::IoError)
    } else if four_cc_at(data, 8) != SFBK {
        Err(
            SoundFontError::InvalidRiffChunkType {
                expected: FourCC(SFBK),
                actual: FourCC(four_cc_at(data, 8) as u32),
            },
        )
    } else {
        match list_span(data, 12, INFO as int) {
            Err(error) => Err(error),
            Ok((_, info_end, sample_data)) => match info_outcome(data.subrange(12, info_end)) {
                Err(error) => Err(error),
                Ok(_) => match list_span(data, sample_data, SDTA as int) {
                    Err(error) => Err(error),
                    Ok((start, end, parameters)) => match chunk_table(
                        data,
                        start,
                        end,
                        ListKind::SampleData,
                        ChunkSpans::none(),
                    ) {
                        Err(error) => Err(error),
                        Ok(found) => match found.samples {
                            None => Err(SoundFontError::SampleDataNotFound),
                            Some(wave) => if wave.1 >= 4 && four_cc_at(data, wave.0 as int)
                                == OGGS {
                                Err(SoundFontError::UnsupportedSampleFormat)
                            } else {
                                match list_span(data, parameters, PDTA as int) {
                                Err(error) => Err(error),
                                Ok((start, end, _)) => match chunk_table(
                                    data,
                                    start,
                                    end,
                                    ListKind::Parameters,
                                    ChunkSpans::none(),
                                ) {
                                    Err(error) => Err(error),
                                    Ok(spans) => parameters_layout(spans, wave),
                                },
                            }
                            },
                        },
                    },
                },
            },
        }
    }
}

/// Finds where the parts of a SoundFont lie in its file.
fn read_layout(data: &[u8]) -> (result: Result<Layout, SoundFontError>)
    ensures
        result == layout_of(data@),
        result matches Ok(layout) ==> layout.wf(data@),
{
    if data.len() < 4 {
        return Err(SoundFontError::IoError);
    }
    if read_four_cc(data, 0) != RIFF {
        return Err(SoundFontError::RiffChunkNotFound);
    }
    if data.len() < 12 {
        return Err(SoundFontError::IoError);
    }
    let form: u32 = read_four_cc(data, 8);
    if form != SFBK {
        return Err(
            SoundFontError::InvalidRiffChunkType { expected: FourCC(SFBK), actual: FourCC(form) },
        );
    }
    let (_, info_end, sample_data) = match read_list(data, 12, INFO) {
        Ok(span) => span,
        Err(error) => {
            return Err(error);
        },
    };
    match SoundFontInfo::new(slice_subrange(data, 12, info_end)) {
        Ok(_) => {},
        Err(error) => {
            return Err(error);
        },
    }
    let (start, end, parameters) = match read_list(data, sample_data, SDTA) {
        Ok(span) => span,
        Err(error) => {
            return Err(error);
        },
    };
    let found = match read_chunk_table(data, start, end, ListKind::SampleData) {
        Ok(found) => found,
        Err(error) => {
            return Err(error);
        },
    };
    let wave = match found.samples {
        Some(wave) => wave,
        None => {
            return Err(SoundFontError::SampleDataNotFound);
        },
    };
    if wave.1 >= 4 && read_four_cc(data, wave.0) == OGGS {
        return Err(SoundFontError::UnsupportedSampleFormat);
    }
    let (start, end, _) = match read_list(data, parameters, PDTA) {
        Ok(span) => span,
        Err(error) => {
            return Err(error);
        },
    };
    let spans = match read_chunk_table(data, start, end, ListKind::Parameters) {
        Ok(spans) => spans,
        Err(error) => {
            return Err(error);
        },
    };
    plan_parameters(&spans, wave, Ghost(data@))
}

/// Checks that every region of every instrument has its sample within the
/// pool.
fn check_pool(data: &[u8], layout: &Layout, instruments: &Vec<Instrument>) -> (ok: bool)
    requires
        layout.wf(data@),
        instruments@.len() == layout.instruments.count(),
        forall|h: int|
            0 <= h < instruments@.len() ==> instrument_holds(
                #[trigger] instruments@[h],
                data@,
                layout.instruments,
                layout.sample_headers,
                h,
            ),
    ensures
        ok == layout.all_in_pool(data@),
{
    let length: usize = layout.wave.1 / 2;
    let mut h: usize = 0;
    while h < instruments.len()
        invariant
            h <= instruments@.len() == layout.instruments.count(),
            length == layout.wave.1 / 2,
            forall|k: int|
                0 <= k < instruments@.len() ==> instrument_holds(
                    #[trigger] instruments@[k],
                    data@,
                    layout.instruments,
                    layout.sample_headers,
                    k,
                ),
            forall|k: int, r: int|
                0 <= k < h && 0 <= r < layout.instruments.region_count(data@, k)
                    ==> #[trigger] layout.region_in_pool(data@, k, r),
        decreases instruments.len() - h,
    {
        let instrument = &instruments[h];
        assert(instrument_holds(
            instruments@[h as int],
            data@,
            layout.instruments,
            layout.sample_headers,
            h as int,
        ));
        let mut r: usize = 0;
        while r < instrument.regions.len()
            invariant
                h < instruments@.len() == layout.instruments.count(),
                *instrument == instruments@[h as int],
                r <= instrument.regions@.len() == layout.instruments.region_count(data@, h as int),
                length == layout.wave.1 / 2,
                instrument_regions_hold(
                    instrument.regions@,
                    data@,
                    layout.instruments,
                    layout.sample_headers,
                    h as int,
                ),
                forall|k: int, q: int|
                    0 <= k < h && 0 <= q < layout.instruments.region_count(data@, k)
                        ==> #[trigger] layout.region_in_pool(data@, k, q),
                forall|q: int| 0 <= q < r ==> #[trigger] layout.region_in_pool(data@, h as int, q),
            decreases instrument.regions.len() - r,
        {
            let region = &instrument.regions[r];
            assert(instrument_region_holds(
                instrument.regions@[r as int],
                data@,
                layout.sample_headers,
                layout.instruments.region_generators(
                    data@,
                    instrument_defaults(),
                    h as int,
                    r as int,
                ),
            ));
            if region.sample_start < 0 || region.sample_start_loop < 0 || region.sample_end as i64
                > length as i64 || region.sample_end_loop as i64 > length as i64 {
                assert(!layout.region_in_pool(data@, h as int, r as int));
                return false;
            }
            r += 1;
        }
        h += 1;
    }
    true
}

impl SoundFont {
    /// The font holds what the file holds: the samples, and each instrument
    /// and each preset with its name and its regions.
    pub open spec fn holds(&self, data: Seq<u8>, layout: Layout) -> bool {
        &&& self.wave_data@ == samples_at(data, layout.wave)
        &&& self.instruments@.len() == layout.instruments.count()
        &&& forall|h: int|
            0 <= h < self.instruments@.len() ==> instrument_holds(
                #[trigger] self.instruments@[h],
                data,
                layout.instruments,
                layout.sample_headers,
                h,
            )
        &&& self.presets@.len() == layout.presets.count()
        &&& forall|h: int|
            0 <= h < self.presets@.len() ==> preset_holds(
                #[trigger] self.presets@[h],
                data,
                layout.presets,
                h,
            )
    }

    /// Reads a SoundFont from the bytes of its file.
    ///
    /// What comes back can be played from: it has a preset, and every preset
    /// region names an instrument that there is.
    pub fn new(data: &[u8]) -> (result: Result<Self, SoundFontError>)
        ensures
            match layout_of(data@) {
                Err(error) => result matches Err(e) && e == error,
                Ok(layout) => match layout.fault(data@) {
                    Some(error) => result matches Err(e) && e == error,
                    None => result matches Ok(font) && font.holds(data@, layout) && font.valid(),
                },
            },
    {
        let layout = match read_layout(data) {
            Ok(layout) => layout,
            Err(error) => {
                return Err(error);
            },
        };
        if !check_zones(data, &layout.instruments) || !check_zones(data, &layout.presets) {
            return Err(SoundFontError::InvalidGeneratorList);
        }
        let instruments = match read_instruments(data, &layout.instruments, layout.sample_headers) {
            Ok(instruments) => instruments,
            Err(error) => {
                return Err(error);
            },
        };
        let presets = match read_presets(data, &layout.presets, instruments.len()) {
            Ok(presets) => presets,
            Err(error) => {
                return Err(error);
            },
        };
        if !check_pool(data, &layout, &instruments) {
            return Err(SoundFontError::SanityCheckFailed);
        }
        let wave_data = read_samples(data, layout.wave);
        Ok(SoundFont { presets, instruments, wave_data })
    }
}

} // verus!
