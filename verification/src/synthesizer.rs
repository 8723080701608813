//! The synthesizer: the dispatch of MIDI messages to channels and voices.

use crate::channel::Channel;
use crate::midifile::ChannelMessage;
use crate::region_pair::RegionPair;
use crate::soundfont::{SoundFont, SoundFontProc};
use crate::synthesizer_settings::{SynthesizerError, SynthesizerSettings};
use crate::voice::{NoteTiming, Voice};
use crate::voice_collection::VoiceCollection;
use vstd::prelude::*;

verus! {

/// A note that waits for its voice: the regions found for it and the
/// note-on that asked for it.
pub struct NoteRequest {
    pub region: RegionPair,
    pub channel: i32,
    pub key: i32,
    pub velocity: i32,
}

/// The synthesizer: sixteen channels, a pool of voices and the SoundFont
/// that they play.
pub struct Synthesizer {
    sound_font: SoundFontProc,
    channels: Vec<Channel>,
    voices: VoiceCollection,
    sample_rate: i32,
    block_size: usize,
    enable_reverb_and_chorus: bool,
}

impl Synthesizer {
    /// The states of the sixteen channels.
    pub closed spec fn channels(&self) -> Seq<Channel> {
        self.channels@
    }

    /// The pool of voices.
    pub closed spec fn pool(&self) -> VoiceCollection {
        self.voices
    }

    /// The SoundFont.
    pub closed spec fn font(&self) -> SoundFontProc {
        self.sound_font
    }

    /// The settings that the synthesizer was made with.
    pub closed spec fn settings(&self) -> SynthesizerSettings {
        SynthesizerSettings {
            sample_rate: self.sample_rate,
            block_size: self.block_size,
            maximum_polyphony: self.voices.voices().len() as usize,
            enable_reverb_and_chorus: self.enable_reverb_and_chorus,
        }
    }

    /// There are sixteen channels, the pool is in order and holds a voice,
    /// and so is the font.
    pub open spec fn wf(&self) -> bool {
        &&& self.channels().len() == 16
        &&& self.pool().wf()
        &&& self.pool().size() > 0
        &&& self.font().wf()
    }

    /// Nothing but the pool of voices has changed.
    pub open spec fn same_but_pool(&self, after: &Self) -> bool {
        &&& after.channels() == self.channels()
        &&& after.font() == self.font()
        &&& after.settings() == self.settings()
    }

    /// Nothing but the channels has changed.
    pub open spec fn same_but_channels(&self, after: &Self) -> bool {
        &&& after.pool() == self.pool()
        &&& after.font() == self.font()
        &&& after.settings() == self.settings()
    }

    /// Makes a synthesizer for a font, with every channel reset and no voice
    /// sounding.  Fails where a setting is out of its range.
    pub fn new(sound_font: SoundFont, settings: &SynthesizerSettings) -> (result: Result<
        Self,
        SynthesizerError,
    >)
        requires
            sound_font.valid(),
        ensures
            result is Ok <==> settings.valid(),
            result matches Err(error) ==> settings.first_error() == Some(error),
            result matches Ok(synthesizer) ==> {
                &&& synthesizer.wf()
                &&& synthesizer.settings() == *settings
                &&& synthesizer.pool().size() == settings.maximum_polyphony
                &&& synthesizer.pool().active() == 0
                &&& VoiceCollection::all_at_rest(synthesizer.pool().voices())
                &&& synthesizer.pool().minimum_length() == settings.sample_rate / 500
                &&& synthesizer.pool().note_ons() == 0
                &&& synthesizer.font().presets() == sound_font.presets@
                &&& synthesizer.font().instruments() == sound_font.instruments@
                &&& synthesizer.font().samples() == sound_font.wave_data@
                &&& forall|i: int|
                    0 <= i < 16 ==> #[trigger] synthesizer.channels()[i] == Channel::reset_state()
            },
    {
        match settings.validate() {
            Ok(()) => {},
            Err(error) => {
                return Err(error);
            },
        }
        let mut channels: Vec<Channel> = Vec::new();
        while channels.len() < 16
            invariant
                channels.len() <= 16,
                forall|i: int|
                    0 <= i < channels.len() ==> #[trigger] channels[i] == Channel::reset_state(),
            decreases 16 - channels.len(),
        {
            channels.push(Channel::new());
        }
        let minimum_voice_length: usize = (settings.sample_rate / 500) as usize;
        Ok(
            Synthesizer {
                sound_font: SoundFontProc::new(sound_font),
                channels,
                voices: VoiceCollection::new(settings.maximum_polyphony, minimum_voice_length),
                sample_rate: settings.sample_rate,
                block_size: settings.block_size,
                enable_reverb_and_chorus: settings.enable_reverb_and_chorus,
            },
        )
    }

    /// The font that is played.
    pub fn sound_font(&self) -> (font: &SoundFontProc)
        ensures
            *font == self.font(),
    {
        &self.sound_font
    }

    /// The pool of voices.
    pub fn voices(&self) -> (pool: &VoiceCollection)
        ensures
            *pool == self.pool(),
    {
        &self.voices
    }

    /// The state of a channel.
    pub fn channel(&self, index: usize) -> (channel: &Channel)
        requires
            index < self.channels().len(),
        ensures
            *channel == self.channels()[index as int],
    {
        &self.channels[index]
    }

    /// The sample rate of the output.
    pub fn sample_rate(&self) -> (rate: i32)
        ensures
            rate == self.settings().sample_rate,
    {
        self.sample_rate
    }

    /// The number of samples that are made at a time.
    pub fn block_size(&self) -> (size: usize)
        ensures
            size == self.settings().block_size,
    {
        self.block_size
    }

    /// Whether reverb and chorus are on.
    pub fn enable_reverb_and_chorus(&self) -> (enabled: bool)
        ensures
            enabled == self.settings().enable_reverb_and_chorus,
    {
        self.enable_reverb_and_chorus
    }

    /// Lets go the voices that play `key` on `channel`.
    pub fn note_off(&mut self, channel: i32, key: i32)
        requires
            old(self).wf(),
        ensures
            final(self).wf(),
            old(self).same_but_pool(final(self)),
            old(self).pool().marks(&final(self).pool(), Some(channel), Some(key), false),
    {
        self.voices.note_off(channel, key);
    }

    /// What a note-on asks for: nothing where the velocity is 0, where the
    /// channel is none of the sixteen, or where the font has no regions for
    /// the key at the velocity in the preset that the channel selects; else
    /// a voice for the regions found.
    pub open spec fn requests(
        &self,
        channel: i32,
        key: i32,
        velocity: i32,
        request: Option<NoteRequest>,
    ) -> bool {
        if velocity == 0 || !(0 <= channel < 16) {
            request is None
        } else {
            let state = self.channels()[channel as int];
            match request {
                Some(wanted) => wanted.channel == channel && wanted.key == key && wanted.velocity
                    == velocity && self.font().finds(
                    state.bank(),
                    state.patch(),
                    key,
                    velocity,
                    wanted.region,
                ),
                None => self.font().finds_none(state.bank(), state.patch(), key, velocity),
            }
        }
    }

    /// Takes a note-on.  With velocity 0 it is a note-off.  Else the regions
    /// for the note are looked up, and where there are any they come back as
    /// a request, for the caller to start a voice with.
    pub fn note_on(&mut self, channel: i32, key: i32, velocity: i32) -> (request: Option<
        NoteRequest,
    >)
        requires
            old(self).wf(),
        ensures
            final(self).wf(),
            old(self).same_but_pool(final(self)),
            velocity == 0 ==> old(self).pool().marks(
                &final(self).pool(),
                Some(channel),
                Some(key),
                false,
            ),
            velocity != 0 ==> final(self).pool() == old(self).pool(),
            old(self).requests(channel, key, velocity, request),
    {
        if velocity == 0 {
            self.note_off(channel, key);
            return None;
        }
        if channel < 0 || channel >= 16 {
            return None;
        }
        let channel_info = &self.channels[channel as usize];
        match self.sound_font.get_regions(
            channel_info.get_bank_number(),
            channel_info.get_patch_number(),
            key,
            velocity,
        ) {
            Some(region) => Some(NoteRequest { region, channel, key, velocity }),
            None => None,
        }
    }

    /// Starts the voice for a requested note, in a free voice while there is
    /// one, else in the voice that weighs least, of several the one that has
    /// played longest, and of those the one whose note was started first.
    /// Gives the position of the voice; nothing happens where the channel of
    /// the request is none of the sixteen.
    pub fn start_voice(&mut self, request: &NoteRequest, timing: &NoteTiming) -> (started: Option<
        usize,
    >)
        requires
            old(self).wf(),
        ensures
            final(self).wf(),
            old(self).same_but_pool(final(self)),
            final(self).pool().minimum_length() == old(self).pool().minimum_length(),
            !(0 <= request.channel < 16) ==> started is None && final(self).pool() == old(self).pool(),
            0 <= request.channel < 16 ==> (started matches Some(index) && {
                &&& if old(self).pool().active() < old(self).pool().size() {
                    index == old(self).pool().active() && final(self).pool().active() == old(self).pool().active() + 1
                } else {
                    old(self).pool().is_candidate(index as int) && final(self).pool().active()
                        == old(self).pool().active()
                }
                &&& final(self).pool().voices() == old(self).pool().voices().update(
                    index as int,
                    Voice {
                        started_at: old(self).pool().note_ons(),
                        ..old(self).pool().voices()[index as int].started(
                            request.region,
                            request.channel,
                            request.key,
                            request.velocity,
                            *timing,
                        )
                    },
                )
                &&& final(self).pool().note_ons() == if old(self).pool().note_ons() < u64::MAX {
                    (old(self).pool().note_ons() + 1) as u64
                } else {
                    old(self).pool().note_ons()
                }
            }),
    {
        if request.channel < 0 || request.channel >= 16 {
            return None;
        }
        let index: usize = self.voices.request_new();
        self.voices.start(
            index,
            &request.region,
            request.channel,
            request.key,
            request.velocity,
            timing,
        );
        Some(index)
    }

    /// Lets go every voice or, with `immediate`, silences every voice.
    pub fn note_off_all(&mut self, immediate: bool)
        requires
            old(self).wf(),
        ensures
            final(self).wf(),
            old(self).same_but_pool(final(self)),
            old(self).pool().marks(&final(self).pool(), None, None, immediate),
    {
        self.voices.note_off_all(immediate);
    }

    /// Lets go the voices of `channel` or, with `immediate`, silences them.
    pub fn note_off_all_channel(&mut self, channel: i32, immediate: bool)
        requires
            old(self).wf(),
        ensures
            final(self).wf(),
            old(self).same_but_pool(final(self)),
            old(self).pool().marks(&final(self).pool(), Some(channel), None, immediate),
    {
        self.voices.note_off_all_channel(channel, immediate);
    }

    /// Resets the controllers of every channel.
    pub fn reset_all_controllers(&mut self)
        requires
            old(self).wf(),
        ensures
            final(self).wf(),
            old(self).same_but_channels(final(self)),
            forall|i: int|
                0 <= i < 16 ==> #[trigger] final(self).channels()[i] == old(self).channels()[i].controllers_reset(),
    {
        let mut i: usize = 0;
        while i < 16
            invariant
                i <= 16,
                self.channels@.len() == 16,
                self.voices == old(self).voices,
                self.sound_font == old(self).sound_font,
                self.sample_rate == old(self).sample_rate,
                self.block_size == old(self).block_size,
                self.enable_reverb_and_chorus == old(self).enable_reverb_and_chorus,
                forall|k: int|
                    0 <= k < i ==> #[trigger] self.channels@[k] == old(self).channels@[k].controllers_reset(),
                forall|k: int| i <= k < 16 ==> #[trigger] self.channels@[k] == old(self).channels@[k],
            decreases 16 - i,
        {
            let mut channel = self.channels[i];
            channel.reset_all_controllers();
            self.channels.set(i, channel);
            i += 1;
        }
    }

    /// Resets the controllers of one channel; a channel that is none of the
    /// sixteen is passed over.
    pub fn reset_all_controllers_channel(&mut self, channel: i32)
        requires
            old(self).wf(),
        ensures
            final(self).wf(),
            old(self).same_but_channels(final(self)),
            final(self).channels() == if 0 <= channel < 16 {
                old(self).channels().update(
                    channel as int,
                    old(self).channels()[channel as int].controllers_reset(),
                )
            } else {
                old(self).channels()
            },
    {
        if 0 <= channel && channel < 16 {
            let mut state = self.channels[channel as usize];
            state.reset_all_controllers();
            self.channels.set(channel as usize, state);
        }
    }

    /// `after` is the synthesizer reset: no voice sounds, though every voice
    /// is what it was, every channel is back at its defaults, but for what
    /// its last parameter number was, and font and settings are the same.
    pub open spec fn resets_to(&self, after: &Self) -> bool {
        &&& after.font() == self.font()
        &&& after.settings() == self.settings()
        &&& after.pool().active() == 0
        &&& after.pool().voices() == self.pool().voices()
        &&& after.pool().minimum_length() == self.pool().minimum_length()
        &&& after.pool().note_ons() == self.pool().note_ons()
        &&& after.channels().len() == 16
        &&& forall|i: int|
            0 <= i < 16 ==> #[trigger] after.channels()[i] == (Channel {
                last_data_type: self.channels()[i].last_data_type,
                ..Channel::reset_state()
            })
    }

    /// Frees every voice and resets every channel.
    pub fn reset(&mut self)
        requires
            old(self).wf(),
        ensures
            final(self).wf(),
            old(self).resets_to(final(self)),
    {
        self.voices.clear();
        let mut i: usize = 0;
        while i < 16
            invariant
                i <= 16,
                self.channels@.len() == 16,
                self.voices.wf(),
                self.voices.size() > 0,
                self.voices.active() == 0,
                self.voices.voices() == old(self).voices.voices(),
                self.voices.minimum_length() == old(self).voices.minimum_length(),
                self.voices.note_ons() == old(self).voices.note_ons(),
                self.sound_font == old(self).sound_font,
                self.sample_rate == old(self).sample_rate,
                self.block_size == old(self).block_size,
                self.enable_reverb_and_chorus == old(self).enable_reverb_and_chorus,
                forall|k: int|
                    0 <= k < i ==> #[trigger] self.channels@[k] == (Channel {
                        last_data_type: old(self).channels@[k].last_data_type,
                        ..Channel::reset_state()
                    }),
                forall|k: int| i <= k < 16 ==> #[trigger] self.channels@[k] == old(self).channels@[k],
            decreases 16 - i,
        {
            let mut channel = self.channels[i];
            channel.reset();
            self.channels.set(i, channel);
            i += 1;
        }
    }

    /// What a message does, given what the synthesizer was before and is
    /// after and the request that came back.
    ///
    /// A note-off lets the voices of the key go.  A note-on asks for a voice,
    /// or is a note-off where its velocity is 0.  Controller 120 silences the
    /// voices of the channel and controller 123 lets them go; every other
    /// controller is for the channel alone.  A program change sets the patch
    /// and a pitch bend the wheel.  Aftertouch is passed over, and so is any
    /// message for a channel that is none of the sixteen.
    pub open spec fn dispatched(
        &self,
        after: &Self,
        channel: u8,
        message: ChannelMessage,
        request: Option<NoteRequest>,
    ) -> bool {
        let same_channels = after.channels() == self.channels();
        let same_pool = after.pool() == self.pool();
        let ch = channel as int;
        &&& after.font() == self.font()
        &&& after.settings() == self.settings()
        &&& if channel >= 16 {
            same_channels && same_pool && request is None
        } else {
            match message {
                ChannelMessage::NoteOff { key, .. } => same_channels && request is None
                    && self.pool().marks(
                    &after.pool(),
                    Some(channel as i32),
                    Some(key as i32),
                    false,
                ),
                ChannelMessage::NoteOn { key, vel } => same_channels && self.requests(
                    channel as i32,
                    key as i32,
                    vel as i32,
                    request,
                ) && if vel == 0 {
                    self.pool().marks(&after.pool(), Some(channel as i32), Some(key as i32), false)
                } else {
                    same_pool
                },
                ChannelMessage::Controller { controller, value } => request is None
                    && if controller == 0x78 {
                    same_channels && self.pool().marks(
                        &after.pool(),
                        Some(channel as i32),
                        None,
                        true,
                    )
                } else if controller == 0x7B {
                    same_channels && self.pool().marks(
                        &after.pool(),
                        Some(channel as i32),
                        None,
                        false,
                    )
                } else {
                    same_pool && after.channels() == self.channels().update(
                        ch,
                        self.channels()[ch].after_controller(controller, value),
                    )
                },
                ChannelMessage::ProgramChange { program } => request is None && same_pool
                    && after.channels() == self.channels().update(
                    ch,
                    Channel {
                        preset_id: crate::channel::with_fine(self.channels()[ch].preset_id, program),
                        ..self.channels()[ch]
                    },
                ),
                ChannelMessage::PitchBend { bend } => request is None && same_pool
                    && after.channels() == self.channels().update(
                    ch,
                    Channel { pitch_bend: (bend - 8192) as i32, ..self.channels()[ch] },
                ),
                _ => same_channels && same_pool && request is None,
            }
        }
    }

    /// Takes a channel message.  A note-on that finds regions to play comes
    /// back as a request, for the caller to start a voice with.
    pub fn process_midi_message(&mut self, channel: u8, message: ChannelMessage) -> (request:
        Option<NoteRequest>)
        requires
            old(self).wf(),
        ensures
            final(self).wf(),
            old(self).dispatched(final(self), channel, message, request),
    {
        if channel >= 16 {
            return None;
        }
        match message {
            ChannelMessage::NoteOff { key, .. } => {
                self.note_off(channel as i32, key as i32);
                None
            },
            ChannelMessage::NoteOn { key, vel } => self.note_on(
                channel as i32,
                key as i32,
                vel as i32,
            ),
            ChannelMessage::Controller { controller, value } => {
                if controller == 0x78 {
                    self.note_off_all_channel(channel as i32, true);
                } else if controller == 0x7B {
                    self.note_off_all_channel(channel as i32, false);
                } else {
                    let mut state = self.channels[channel as usize];
                    state.control_change(controller, value);
                    self.channels.set(channel as usize, state);
                }
                None
            },
            ChannelMessage::ProgramChange { program } => {
                let mut state = self.channels[channel as usize];
                state.set_patch(program);
                self.channels.set(channel as usize, state);
                None
            },
            ChannelMessage::PitchBend { bend } => {
                let mut state = self.channels[channel as usize];
                state.set_pitch_bend(bend);
                self.channels.set(channel as usize, state);
                None
            },
            _ => None,
        }
    }

    /// Begins the next sample in every sounding voice: a voice whose gain
    /// cannot be heard is marked as silent, every other voice is released
    /// where that is due and has its envelopes moved on.
    pub fn advance_voices(&mut self)
        requires
            old(self).wf(),
        ensures
            final(self).wf(),
            old(self).same_but_pool(final(self)),
            final(self).pool().active() == old(self).pool().active(),
            final(self).pool().size() == old(self).pool().size(),
            final(self).pool().minimum_length() == old(self).pool().minimum_length(),
            final(self).pool().note_ons() == old(self).pool().note_ons(),
            forall|i: int|
                0 <= i < old(self).pool().active() ==> #[trigger] final(self).pool().voices()[i]
                    == old(self).pool().voices()[i].advanced(
                    old(self).channels()[old(self).pool().voices()[i].channel as int].hold_pedal,
                    old(self).pool().minimum_length(),
                ),
            forall|i: int|
                old(self).pool().active() <= i < old(self).pool().size() ==> #[trigger] final(self).pool().voices()[i] == old(self).pool().voices()[i],
    {
        self.voices.advance(&self.channels);
    }

    /// Takes what the caller has worked out for this sample of the voice at
    /// `index`: whether the level of its volume envelope can be heard, which
    /// counts in the decay and in the release alone, and the step of its
    /// sample position.  A position at which no voice sounds is passed over.
    pub fn drive_voice(&mut self, index: usize, level_audible: bool, pitch_ratio_fp: i64)
        requires
            old(self).wf(),
        ensures
            final(self).wf(),
            old(self).same_but_pool(final(self)),
            final(self).pool().active() == old(self).pool().active(),
            final(self).pool().minimum_length() == old(self).pool().minimum_length(),
            final(self).pool().note_ons() == old(self).pool().note_ons(),
            final(self).pool().voices() == if index < old(self).pool().active() {
                old(self).pool().voices().update(
                    index as int,
                    old(self).pool().voices()[index as int].driven(level_audible, pitch_ratio_fp),
                )
            } else {
                old(self).pool().voices()
            },
    {
        if index < self.voices.active_count() {
            self.voices.drive(index, level_audible, pitch_ratio_fp);
        }
    }

    /// Makes the sample of every sounding voice and frees the voices that
    /// have come to their end.  What is left sounding are the voices that go
    /// on, each one sample on and each once: as many as sounded, less those
    /// that have ended.
    pub fn process_voices(&mut self)
        requires
            old(self).wf(),
        ensures
            final(self).wf(),
            old(self).same_but_pool(final(self)),
            final(self).pool().size() == old(self).pool().size(),
            final(self).pool().minimum_length() == old(self).pool().minimum_length(),
            final(self).pool().note_ons() == old(self).pool().note_ons(),
            final(self).pool().active() <= old(self).pool().active(),
            old(self).pool().going_on(old(self).font().samples()).finite(),
            final(self).pool().active() == old(self).pool().going_on(
                old(self).font().samples(),
            ).len(),
            forall|i: int|
                0 <= i < final(self).pool().active() ==> old(self).pool().gave(
                    #[trigger] final(self).pool().voices()[i],
                    old(self).font().samples(),
                ),
            forall|j: int|
                0 <= j < old(self).pool().active() && old(self).pool().voices()[j].survives(
                    old(self).font().samples(),
                ) ==> final(self).pool().holds_processed(
                    #[trigger] old(self).pool().voices()[j],
                    old(self).font().samples(),
                ),
    {
        let data = self.sound_font.wave_data();
        self.voices.process(data.as_slice());
    }
}

} // verus!
