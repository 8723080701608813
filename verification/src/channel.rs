//! The controller state of a MIDI channel.

use vstd::prelude::*;

verus! {

/// What the last parameter-number message on a channel selected.
#[derive(Clone, Copy, Debug, PartialEq, Eq, Structural)]
pub enum DataType {
    /// No parameter number was selected yet.
    Unselected,
    Rpn,
    Nrpn,
}

/// The controller state of one MIDI channel.
///
/// Every field holds the raw number that the MIDI messages wrote.  A 14-bit
/// controller keeps its coarse byte in bits 7..13 and its fine byte in bits
/// 0..6.
#[derive(Clone, Copy, Debug)]
pub struct Channel {
    /// Bank in the upper seven bits, patch in the lower seven.
    pub preset_id: i16,
    /// Modulation depth; one unit is 50/16383 of a semitone.
    pub modulation: i16,
    /// Channel volume; one unit is 1/16383.
    pub volume: i16,
    /// Pan; the position is `100/16383 * pan - 50`.
    pub pan: i16,
    /// Expression; one unit is 1/16383.
    pub expression: i16,
    pub hold_pedal: bool,
    /// Reverb send; one unit is 1/127.
    pub reverb_send: u8,
    /// Chorus send; one unit is 1/127.
    pub chorus_send: u8,
    /// The selected registered parameter, -1 when none is.
    pub rpn: i16,
    /// Semitones in the coarse byte, cents in the fine byte.
    pub pitch_bend_range: i16,
    /// Semitones.
    pub coarse_tune: i16,
    /// Centered at 8192; one unit is 1/8192 of a semitone.
    pub fine_tune: i16,
    /// Distance of the pitch wheel from its center, in 1/8192 of the range.
    pub pitch_bend: i32,
    pub last_data_type: DataType,
}

/// `raw` with bits 7 and above replaced by `value`, bits 0..6 kept.
pub open spec fn with_coarse(raw: i16, value: u8) -> i16 {
    (raw & 0x7F) | ((value as i16) << 7)
}

/// `raw` with the lower seven bits of `value` written over bits 0..6, bits 7
/// and above kept.
pub open spec fn with_fine(raw: i16, value: u8) -> i16 {
    (((raw as i32) & 0xFF80) | ((value as i32) & 0x7F)) as i16
}

/// A coarse byte followed by a fine byte leaves `(coarse << 7) | fine`,
/// whatever the controller held before, and the other way round as well.
pub proof fn lemma_coarse_fine_round_trip(raw: i16, coarse: u8, fine: u8)
    requires
        coarse <= 127,
        fine <= 127,
    ensures
        with_fine(with_coarse(raw, coarse), fine) == ((coarse as i16) << 7) | (fine as i16),
        with_coarse(with_fine(raw, fine), coarse) == ((coarse as i16) << 7) | (fine as i16),
        with_fine(with_coarse(raw, coarse), fine) == coarse * 128 + fine,
{
    assert(with_fine(with_coarse(raw, coarse), fine) == ((coarse as i16) << 7) | (fine as i16)
        && with_coarse(with_fine(raw, fine), coarse) == ((coarse as i16) << 7) | (fine as i16)
        && (((coarse as i16) << 7) | (fine as i16)) == coarse * 128 + fine) by (bit_vector)
        requires
            coarse <= 127,
            fine <= 127,
    ;
}

/// What the coarse and the fine byte do, in plain arithmetic: the coarse byte
/// counts 128-fold beside what the lower seven bits hold, and the lower seven
/// bits of the fine byte take the place of what they hold.
pub proof fn lemma_coarse_fine_arithmetic(raw: i16, value: u8)
    ensures
        with_coarse(raw, value) == value * 128 + raw as int % 128,
        with_fine(raw, value) == raw - raw as int % 128 + value as int % 128,
{
    assert(with_coarse(raw, value) == value * 128 + (raw & 0x7F) && 0 <= (raw & 0x7F) < 128
        && with_fine(raw, value) == raw - (raw & 0x7F) + value % 128) by (bit_vector);
    assert((raw & 0x7F) as int == raw as int % 128) by {
        let low = raw & 0x7F;
        assert(raw - low == ((raw >> 7) as int) * 128 && 0 <= low < 128) by (bit_vector)
            requires
                low == raw & 0x7F,
        ;
        vstd::arithmetic::div_mod::lemma_fundamental_div_mod_converse(
            raw as int,
            128,
            (raw >> 7) as int,
            low as int,
        );
    }
}

/// The defaults of a channel, by their bytes.
pub proof fn lemma_reset_state_bytes()
    ensures
        Channel::reset_state().volume == (100i16 << 7),
        Channel::reset_state().pan == (64i16 << 7),
        Channel::reset_state().expression == (127i16 << 7),
        Channel::reset_state().pitch_bend_range == (2i16 << 7),
{
    assert(100i16 << 7 == 12800 && 64i16 << 7 == 8192 && 127i16 << 7 == 16256 && 2i16 << 7
        == 256) by (bit_vector);
}

/// The coarse byte does not touch bits 0..6 and the fine byte does not touch
/// the bits above them, whatever the byte is.
pub proof fn lemma_coarse_fine_independent(raw: i16, value: u8)
    ensures
        with_coarse(raw, value) & 0x7F == raw & 0x7F,
        with_coarse(raw, value) >> 7 == value,
        with_fine(raw, value) & 0x7F == value & 0x7F,
        with_fine(raw, value) >> 7 == raw >> 7,
{
    assert(with_coarse(raw, value) & 0x7F == raw & 0x7F && with_coarse(raw, value) >> 7 == value
        && with_fine(raw, value) & 0x7F == value & 0x7F && with_fine(raw, value) >> 7 == raw
        >> 7) by (bit_vector);
}

fn set_coarse(raw: i16, value: u8) -> (updated: i16)
    ensures
        updated == with_coarse(raw, value),
{
    let shifted: i16 = (value as i16) << 7;
    (raw & 0x7F) | shifted
}

fn set_fine(raw: i16, value: u8) -> (updated: i16)
    ensures
        updated == with_fine(raw, value),
{
    let merged: i32 = ((raw as i32) & 0xFF80) | ((value as i32) & 0x7F);
    #[verifier::truncate]
    (merged as i16)
}

impl Channel {
    /// The state after a full reset: the volume at 100, the pan at 64 and
    /// the expression at 127 in the coarse byte, the pitch-bend range at two
    /// semitones, the reverb send at 40, and everything else at rest.
    pub open spec fn reset_state() -> Channel {
        Channel {
            preset_id: 0,
            modulation: 0,
            volume: 12800,
            pan: 8192,
            expression: 16256,
            hold_pedal: false,
            reverb_send: 40,
            chorus_send: 0,
            rpn: -1i16,
            pitch_bend_range: 256,
            coarse_tune: 0,
            fine_tune: 8192,
            pitch_bend: 0,
            last_data_type: DataType::Unselected,
        }
    }

    /// `self` with the controllers that a controller reset touches put back:
    /// the expression to 127 in the coarse byte, the others to rest.
    pub open spec fn controllers_reset(self) -> Channel {
        Channel {
            modulation: 0,
            expression: 16256,
            hold_pedal: false,
            rpn: -1i16,
            pitch_bend: 0,
            ..self
        }
    }

    /// A channel in the state that `reset` leaves.
    pub fn new() -> (channel: Self)
        ensures
            channel == Self::reset_state(),
    {
        Channel {
            preset_id: 0,
            modulation: 0,
            volume: 12800,
            pan: 8192,
            expression: 16256,
            hold_pedal: false,
            reverb_send: 40,
            chorus_send: 0,
            rpn: -1,
            pitch_bend_range: 256,
            coarse_tune: 0,
            fine_tune: 8192,
            pitch_bend: 0,
            last_data_type: DataType::Unselected,
        }
    }

    /// Puts every field but `last_data_type` back to its default.
    pub fn reset(&mut self)
        ensures
            *final(self) == (Channel {
                last_data_type: old(self).last_data_type,
                ..Self::reset_state()
            }),
    {
        self.preset_id = 0;
        self.volume = 12800;
        self.pan = 8192;
        self.reverb_send = 40;
        self.chorus_send = 0;
        self.pitch_bend_range = 256;
        self.coarse_tune = 0;
        self.fine_tune = 8192;
        self.reset_all_controllers();
    }

    /// Puts modulation, expression, hold pedal, RPN selector and pitch bend
    /// back to their defaults and leaves everything else as it is.
    pub fn reset_all_controllers(&mut self)
        ensures
            *final(self) == old(self).controllers_reset(),
    {
        self.modulation = 0;
        self.expression = 16256;
        self.hold_pedal = false;
        self.rpn = -1;
        self.pitch_bend = 0;
    }

    pub fn set_bank(&mut self, value: u8)
        ensures
            *final(self) == (Channel {
                preset_id: with_coarse(old(self).preset_id, value),
                ..*old(self)
            }),
    {
        self.preset_id = set_coarse(self.preset_id, value);
    }

    pub fn set_patch(&mut self, value: u8)
        ensures
            *final(self) == (Channel {
                preset_id: with_fine(old(self).preset_id, value),
                ..*old(self)
            }),
    {
        self.preset_id = set_fine(self.preset_id, value);
    }

    pub fn set_modulation_coarse(&mut self, value: u8)
        ensures
            *final(self) == (Channel {
                modulation: with_coarse(old(self).modulation, value),
                ..*old(self)
            }),
    {
        self.modulation = set_coarse(self.modulation, value);
    }

    pub fn set_modulation_fine(&mut self, value: u8)
        ensures
            *final(self) == (Channel {
                modulation: with_fine(old(self).modulation, value),
                ..*old(self)
            }),
    {
        self.modulation = set_fine(self.modulation, value);
    }

    pub fn set_volume_coarse(&mut self, value: u8)
        ensures
            *final(self) == (Channel {
                volume: with_coarse(old(self).volume, value),
                ..*old(self)
            }),
    {
        self.volume = set_coarse(self.volume, value);
    }

    pub fn set_volume_fine(&mut self, value: u8)
        ensures
            *final(self) == (Channel { volume: with_fine(old(self).volume, value), ..*old(self) }),
    {
        self.volume = set_fine(self.volume, value);
    }

    pub fn set_pan_coarse(&mut self, value: u8)
        ensures
            *final(self) == (Channel { pan: with_coarse(old(self).pan, value), ..*old(self) }),
    {
        self.pan = set_coarse(self.pan, value);
    }

    pub fn set_pan_fine(&mut self, value: u8)
        ensures
            *final(self) == (Channel { pan: with_fine(old(self).pan, value), ..*old(self) }),
    {
        self.pan = set_fine(self.pan, value);
    }

    pub fn set_expression_coarse(&mut self, value: u8)
        ensures
            *final(self) == (Channel {
                expression: with_coarse(old(self).expression, value),
                ..*old(self)
            }),
    {
        self.expression = set_coarse(self.expression, value);
    }

    pub fn set_expression_fine(&mut self, value: u8)
        ensures
            *final(self) == (Channel {
                expression: with_fine(old(self).expression, value),
                ..*old(self)
            }),
    {
        self.expression = set_fine(self.expression, value);
    }

    /// The pedal is down from 64 upwards.
    pub fn set_hold_pedal(&mut self, value: u8)
        ensures
            *final(self) == (Channel { hold_pedal: value >= 64, ..*old(self) }),
    {
        self.hold_pedal = value >= 64;
    }

    pub fn set_reverb_send(&mut self, value: u8)
        ensures
            *final(self) == (Channel { reverb_send: value, ..*old(self) }),
    {
        self.reverb_send = value;
    }

    pub fn set_chorus_send(&mut self, value: u8)
        ensures
            *final(self) == (Channel { chorus_send: value, ..*old(self) }),
    {
        self.chorus_send = value;
    }

    /// Writes the coarse byte of the RPN selector; data entry then goes to it.
    pub fn set_rpn_coarse(&mut self, value: u8)
        ensures
            *final(self) == (Channel {
                rpn: with_coarse(old(self).rpn, value),
                last_data_type: DataType::Rpn,
                ..*old(self)
            }),
    {
        self.rpn = set_coarse(self.rpn, value);
        self.last_data_type = DataType::Rpn;
    }

    /// Writes the fine byte of the RPN selector; data entry then goes to it.
    pub fn set_rpn_fine(&mut self, value: u8)
        ensures
            *final(self) == (Channel {
                rpn: with_fine(old(self).rpn, value),
                last_data_type: DataType::Rpn,
                ..*old(self)
            }),
    {
        self.rpn = set_fine(self.rpn, value);
        self.last_data_type = DataType::Rpn;
    }

    /// A non-registered parameter is selected: its number is not kept, and
    /// data entry is ignored until an RPN is selected again.
    pub fn set_nrpn_coarse(&mut self, _value: u8)
        ensures
            *final(self) == (Channel { last_data_type: DataType::Nrpn, ..*old(self) }),
    {
        self.last_data_type = DataType::Nrpn;
    }

    /// See `set_nrpn_coarse`.
    pub fn set_nrpn_fine(&mut self, _value: u8)
        ensures
            *final(self) == (Channel { last_data_type: DataType::Nrpn, ..*old(self) }),
    {
        self.last_data_type = DataType::Nrpn;
    }

    /// What a coarse data-entry byte does to a channel.
    pub open spec fn after_data_entry_coarse(self, value: u8) -> Channel {
        if self.last_data_type != DataType::Rpn {
            self
        } else if self.rpn == 0 {
            Channel { pitch_bend_range: with_coarse(self.pitch_bend_range, value), ..self }
        } else if self.rpn == 1 {
            Channel { fine_tune: with_coarse(self.fine_tune, value), ..self }
        } else if self.rpn == 2 {
            Channel { coarse_tune: (value - 64) as i16, ..self }
        } else {
            self
        }
    }

    /// What a fine data-entry byte does to a channel.
    pub open spec fn after_data_entry_fine(self, value: u8) -> Channel {
        if self.last_data_type != DataType::Rpn {
            self
        } else if self.rpn == 0 {
            Channel { pitch_bend_range: with_fine(self.pitch_bend_range, value), ..self }
        } else if self.rpn == 1 {
            Channel { fine_tune: with_fine(self.fine_tune, value), ..self }
        } else {
            self
        }
    }

    /// Coarse data entry: with an RPN selected, RPN 0 takes it as the coarse
    /// byte of the pitch-bend range, RPN 1 as that of the fine tuning, RPN 2
    /// as the coarse tuning in semitones around 64.
    pub fn data_entry_coarse(&mut self, value: u8)
        ensures
            *final(self) == old(self).after_data_entry_coarse(value),
    {
        if self.last_data_type != DataType::Rpn {
            return ;
        }
        if self.rpn == 0 {
            self.pitch_bend_range = set_coarse(self.pitch_bend_range, value);
        } else if self.rpn == 1 {
            self.fine_tune = set_coarse(self.fine_tune, value);
        } else if self.rpn == 2 {
            self.coarse_tune = value as i16 - 64;
        }
    }

    /// Fine data entry: with an RPN selected, RPN 0 takes it as the fine byte
    /// of the pitch-bend range, RPN 1 as that of the fine tuning.
    pub fn data_entry_fine(&mut self, value: u8)
        ensures
            *final(self) == old(self).after_data_entry_fine(value),
    {
        if self.last_data_type != DataType::Rpn {
            return ;
        }
        if self.rpn == 0 {
            self.pitch_bend_range = set_fine(self.pitch_bend_range, value);
        } else if self.rpn == 1 {
            self.fine_tune = set_fine(self.fine_tune, value);
        }
    }

    /// Takes the position of the pitch wheel, 8192 being its center.
    pub fn set_pitch_bend(&mut self, value: u16)
        ensures
            *final(self) == (Channel { pitch_bend: (value - 8192) as i32, ..*old(self) }),
    {
        self.pitch_bend = value as i32 - 8192;
    }

    pub fn get_preset_id(&self) -> (id: u16)
        ensures
            id == self.preset_id as u16,
    {
        #[verifier::truncate]
        (self.preset_id as u16)
    }

    /// The bank: the coarse byte of the preset id.
    pub open spec fn bank(&self) -> i32 {
        (self.preset_id >> 7) as i32
    }

    /// The patch: the fine byte of the preset id.
    pub open spec fn patch(&self) -> i32 {
        (self.preset_id & 0x7F) as i32
    }

    /// The bank: the coarse byte of the preset id.
    pub fn get_bank_number(&self) -> (bank: i32)
        ensures
            bank == self.bank(),
    {
        (self.preset_id >> 7) as i32
    }

    /// The patch: the fine byte of the preset id.
    pub fn get_patch_number(&self) -> (patch: i32)
        ensures
            patch == self.patch(),
    {
        (self.preset_id & 0x7F) as i32
    }

    /// What a controller message does to a channel.  Controllers that the
    /// channel does not know leave it as it is.
    pub open spec fn after_controller(self, controller: u8, value: u8) -> Channel {
        if controller == 0x00 {
            Channel { preset_id: with_coarse(self.preset_id, value), ..self }
        } else if controller == 0x01 {
            Channel { modulation: with_coarse(self.modulation, value), ..self }
        } else if controller == 0x21 {
            Channel { modulation: with_fine(self.modulation, value), ..self }
        } else if controller == 0x06 {
            self.after_data_entry_coarse(value)
        } else if controller == 0x26 {
            self.after_data_entry_fine(value)
        } else if controller == 0x07 {
            Channel { volume: with_coarse(self.volume, value), ..self }
        } else if controller == 0x27 {
            Channel { volume: with_fine(self.volume, value), ..self }
        } else if controller == 0x0A {
            Channel { pan: with_coarse(self.pan, value), ..self }
        } else if controller == 0x2A {
            Channel { pan: with_fine(self.pan, value), ..self }
        } else if controller == 0x0B {
            Channel { expression: with_coarse(self.expression, value), ..self }
        } else if controller == 0x2B {
            Channel { expression: with_fine(self.expression, value), ..self }
        } else if controller == 0x40 {
            Channel { hold_pedal: value >= 64, ..self }
        } else if controller == 0x5B {
            Channel { reverb_send: value, ..self }
        } else if controller == 0x5D {
            Channel { chorus_send: value, ..self }
        } else if controller == 0x63 || controller == 0x62 {
            Channel { last_data_type: DataType::Nrpn, ..self }
        } else if controller == 0x65 {
            Channel { rpn: with_coarse(self.rpn, value), last_data_type: DataType::Rpn, ..self }
        } else if controller == 0x64 {
            Channel { rpn: with_fine(self.rpn, value), last_data_type: DataType::Rpn, ..self }
        } else if controller == 0x79 {
            self.controllers_reset()
        } else {
            self
        }
    }

    /// Takes a controller message, as far as it concerns the channel alone.
    pub fn control_change(&mut self, controller: u8, value: u8)
        ensures
            *final(self) == old(self).after_controller(controller, value),
    {
        match controller {
            0x00 => self.set_bank(value),
            0x01 => self.set_modulation_coarse(value),
            0x21 => self.set_modulation_fine(value),
            0x06 => self.data_entry_coarse(value),
            0x26 => self.data_entry_fine(value),
            0x07 => self.set_volume_coarse(value),
            0x27 => self.set_volume_fine(value),
            0x0A => self.set_pan_coarse(value),
            0x2A => self.set_pan_fine(value),
            0x0B => self.set_expression_coarse(value),
            0x2B => self.set_expression_fine(value),
            0x40 => self.set_hold_pedal(value),
            0x5B => self.set_reverb_send(value),
            0x5D => self.set_chorus_send(value),
            0x63 => self.set_nrpn_coarse(value),
            0x62 => self.set_nrpn_fine(value),
            0x65 => self.set_rpn_coarse(value),
            0x64 => self.set_rpn_fine(value),
            0x79 => self.reset_all_controllers(),
            _ => {},
        }
    }

    pub fn get_modulation(&self) -> (raw: i16)
        ensures
            raw == self.modulation,
    {
        self.modulation
    }

    pub fn get_volume(&self) -> (raw: i16)
        ensures
            raw == self.volume,
    {
        self.volume
    }

    pub fn get_pan(&self) -> (raw: i16)
        ensures
            raw == self.pan,
    {
        self.pan
    }

    pub fn get_expression(&self) -> (raw: i16)
        ensures
            raw == self.expression,
    {
        self.expression
    }

    pub fn get_hold_pedal(&self) -> (down: bool)
        ensures
            down == self.hold_pedal,
    {
        self.hold_pedal
    }

    pub fn get_reverb_send(&self) -> (raw: u8)
        ensures
            raw == self.reverb_send,
    {
        self.reverb_send
    }

    pub fn get_chorus_send(&self) -> (raw: u8)
        ensures
            raw == self.chorus_send,
    {
        self.chorus_send
    }

    /// The pitch-bend range in cents: a hundred for each semitone of the
    /// coarse byte plus the fine byte.
    pub open spec fn pitch_bend_range_cents(&self) -> int {
        100 * (self.pitch_bend_range >> 7) + (self.pitch_bend_range & 0x7F)
    }

    /// The tuning in 1/8192 of a semitone.
    pub open spec fn tune_units(&self) -> int {
        8192 * self.coarse_tune + (self.fine_tune - 8192)
    }

    pub fn get_pitch_bend_range(&self) -> (cents: i32)
        ensures
            cents == self.pitch_bend_range_cents(),
    {
        let raw: i16 = self.pitch_bend_range;
        assert(-256 <= (raw >> 7) <= 255 && 0 <= (raw & 0x7F) <= 127) by (bit_vector);
        100 * ((raw >> 7) as i32) + ((raw & 0x7F) as i32)
    }

    pub fn get_tune(&self) -> (units: i32)
        ensures
            units == self.tune_units(),
    {
        8192 * (self.coarse_tune as i32) + (self.fine_tune as i32 - 8192)
    }

    /// The pitch bend in 1/819200 of a semitone: the range in cents times the
    /// distance of the wheel from its center.
    pub fn get_pitch_bend(&self) -> (units: i64)
        ensures
            units == self.pitch_bend_range_cents() * self.pitch_bend,
    {
        let range: i32 = self.get_pitch_bend_range();
        assert(-25600 <= range <= 25627) by {
            let raw: i16 = self.pitch_bend_range;
            assert(-256 <= (raw >> 7) <= 255 && 0 <= (raw & 0x7F) <= 127) by (bit_vector);
        }
        assert(-0x8000_0000 * 25627 <= range * self.pitch_bend <= 0x8000_0000 * 25627)
            by (nonlinear_arith)
            requires
                -25600 <= range <= 25627,
                -0x8000_0000 <= self.pitch_bend < 0x8000_0000,
        ;
        (range as i64) * (self.pitch_bend as i64)
    }
}

/// Data entry after an NRPN selector changes nothing: not the pitch-bend
/// range, not the tuning, nor anything else.  This holds of the selector
/// messages themselves, controllers 98 and 99, followed by the data entry
/// controllers 6 and 38.
pub proof fn lemma_data_entry_ignored_after_nrpn(channel: Channel, selector: u8, value: u8)
    ensures
        ({
            let selected = Channel { last_data_type: DataType::Nrpn, ..channel };
            &&& selected.after_data_entry_coarse(value) == selected
            &&& selected.after_data_entry_fine(value) == selected
            &&& channel.after_controller(0x62, selector) == selected
            &&& channel.after_controller(0x63, selector) == selected
            &&& selected.after_controller(0x06, value) == selected
            &&& selected.after_controller(0x26, value) == selected
        }),
{
}

/// A controller reset puts modulation, expression, hold pedal, RPN selector
/// and pitch bend back and leaves every other field as it was.
pub proof fn lemma_controller_reset(channel: Channel)
    ensures
        ({
            let reset = channel.controllers_reset();
            &&& reset.modulation == 0
            &&& reset.expression == (127i16 << 7)
            &&& !reset.hold_pedal
            &&& reset.rpn == -1
            &&& reset.pitch_bend == 0
            &&& reset.preset_id == channel.preset_id
            &&& reset.volume == channel.volume
            &&& reset.pan == channel.pan
            &&& reset.reverb_send == channel.reverb_send
            &&& reset.chorus_send == channel.chorus_send
            &&& reset.pitch_bend_range == channel.pitch_bend_range
            &&& reset.coarse_tune == channel.coarse_tune
            &&& reset.fine_tune == channel.fine_tune
            &&& reset.last_data_type == channel.last_data_type
        }),
{
    assert(127i16 << 7 == 16256) by (bit_vector);
}

} // verus!
