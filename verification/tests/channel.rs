use rustysynth::channel::{Channel, DataType};

#[test]
fn new_channel_has_the_defaults() {
    let channel = Channel::new();
    assert_eq!(channel.preset_id, 0);
    assert_eq!(channel.modulation, 0);
    assert_eq!(channel.volume, 100 << 7);
    assert_eq!(channel.pan, 64 << 7);
    assert_eq!(channel.expression, 127 << 7);
    assert!(!channel.hold_pedal);
    assert_eq!(channel.reverb_send, 40);
    assert_eq!(channel.chorus_send, 0);
    assert_eq!(channel.rpn, -1);
    assert_eq!(channel.pitch_bend_range, 2 << 7);
    assert_eq!(channel.coarse_tune, 0);
    assert_eq!(channel.fine_tune, 8192);
    assert_eq!(channel.pitch_bend, 0);
    assert_eq!(channel.last_data_type, DataType::Unselected);
}

#[test]
fn coarse_then_fine_leaves_both_bytes() {
    for c in [0u8, 1, 64, 100, 127] {
        for f in [0u8, 1, 27, 127] {
            let expected = ((c as i16) << 7) | f as i16;
            let mut channel = Channel::new();
            channel.set_volume_coarse(c);
            channel.set_volume_fine(f);
            assert_eq!(channel.get_volume(), expected);
            channel.set_pan_coarse(c);
            channel.set_pan_fine(f);
            assert_eq!(channel.get_pan(), expected);
            channel.set_modulation_coarse(c);
            channel.set_modulation_fine(f);
            assert_eq!(channel.get_modulation(), expected);
            channel.set_expression_coarse(c);
            channel.set_expression_fine(f);
            assert_eq!(channel.get_expression(), expected);
            channel.set_rpn_coarse(c);
            channel.set_rpn_fine(f);
            assert_eq!(channel.rpn, expected);
            channel.set_bank(c);
            channel.set_patch(f);
            assert_eq!(channel.get_preset_id(), expected as u16);
            assert_eq!(channel.get_bank_number(), c as i32);
            assert_eq!(channel.get_patch_number(), f as i32);
        }
    }
}

#[test]
fn fine_then_coarse_leaves_both_bytes() {
    let mut channel = Channel::new();
    channel.set_pan_fine(5);
    channel.set_pan_coarse(3);
    assert_eq!(channel.get_pan(), (3 << 7) | 5);
}

#[test]
fn coarse_keeps_the_fine_byte_and_fine_keeps_the_coarse_byte() {
    let mut channel = Channel::new();
    channel.set_volume_coarse(90);
    channel.set_volume_fine(33);
    channel.set_volume_coarse(7);
    assert_eq!(channel.volume, (7 << 7) | 33);
    channel.set_volume_fine(1);
    assert_eq!(channel.volume, (7 << 7) | 1);
}

#[test]
fn rpn_selector_starts_from_all_bits_set() {
    let mut channel = Channel::new();
    channel.set_rpn_coarse(0);
    assert_eq!(channel.rpn, 0x7F);
    channel.set_rpn_fine(0);
    assert_eq!(channel.rpn, 0);
}

#[test]
fn a_bank_of_128_can_be_selected() {
    let mut channel = Channel::new();
    channel.set_bank(128);
    channel.set_patch(25);
    assert_eq!(channel.get_bank_number(), 128);
    assert_eq!(channel.get_patch_number(), 25);
}

#[test]
fn reset_all_controllers_keeps_the_rest() {
    let mut channel = Channel::new();
    channel.set_bank(3);
    channel.set_patch(9);
    channel.set_volume_coarse(11);
    channel.set_pan_coarse(12);
    channel.set_reverb_send(13);
    channel.set_chorus_send(14);
    channel.set_modulation_coarse(50);
    channel.set_expression_coarse(1);
    channel.set_hold_pedal(127);
    channel.set_rpn_coarse(0);
    channel.set_rpn_fine(0);
    channel.data_entry_coarse(12);
    channel.set_rpn_fine(1);
    channel.data_entry_coarse(70);
    channel.set_rpn_fine(2);
    channel.data_entry_coarse(60);
    channel.set_pitch_bend(100);
    let before = channel;
    channel.reset_all_controllers();
    assert_eq!(channel.modulation, 0);
    assert_eq!(channel.expression, 127 << 7);
    assert!(!channel.hold_pedal);
    assert_eq!(channel.rpn, -1);
    assert_eq!(channel.pitch_bend, 0);
    assert_eq!(channel.preset_id, before.preset_id);
    assert_eq!(channel.volume, before.volume);
    assert_eq!(channel.pan, before.pan);
    assert_eq!(channel.reverb_send, 13);
    assert_eq!(channel.chorus_send, 14);
    assert_eq!(channel.pitch_bend_range, before.pitch_bend_range);
    assert_eq!(channel.coarse_tune, -4);
    assert_eq!(channel.fine_tune, before.fine_tune);
    assert_eq!(channel.last_data_type, DataType::Rpn);
}

#[test]
fn reset_puts_everything_back() {
    let mut channel = Channel::new();
    channel.control_change(0x00, 5);
    channel.control_change(0x07, 1);
    channel.control_change(0x0A, 1);
    channel.control_change(0x5B, 1);
    channel.control_change(0x5D, 1);
    channel.control_change(0x65, 0);
    channel.control_change(0x64, 2);
    channel.control_change(0x06, 70);
    channel.control_change(0x64, 1);
    channel.control_change(0x06, 1);
    channel.control_change(0x64, 0);
    channel.control_change(0x06, 9);
    channel.reset();
    let fresh = Channel::new();
    assert_eq!(channel.preset_id, fresh.preset_id);
    assert_eq!(channel.volume, fresh.volume);
    assert_eq!(channel.pan, fresh.pan);
    assert_eq!(channel.reverb_send, fresh.reverb_send);
    assert_eq!(channel.chorus_send, fresh.chorus_send);
    assert_eq!(channel.pitch_bend_range, fresh.pitch_bend_range);
    assert_eq!(channel.coarse_tune, fresh.coarse_tune);
    assert_eq!(channel.fine_tune, fresh.fine_tune);
    assert_eq!(channel.rpn, -1);
    assert_eq!(channel.last_data_type, DataType::Rpn);
}

#[test]
fn data_entry_goes_to_the_selected_rpn() {
    let mut channel = Channel::new();
    channel.set_rpn_coarse(0);
    channel.set_rpn_fine(0);
    channel.data_entry_coarse(12);
    channel.data_entry_fine(34);
    assert_eq!(channel.pitch_bend_range, (12 << 7) | 34);
    assert_eq!(channel.get_pitch_bend_range(), 1234);

    channel.set_rpn_fine(1);
    channel.data_entry_coarse(65);
    channel.data_entry_fine(3);
    assert_eq!(channel.fine_tune, (65 << 7) | 3);

    channel.set_rpn_fine(2);
    channel.data_entry_coarse(76);
    assert_eq!(channel.coarse_tune, 12);
    let fine_before = channel.fine_tune;
    channel.data_entry_fine(99);
    assert_eq!(channel.coarse_tune, 12);
    assert_eq!(channel.fine_tune, fine_before);

    channel.set_rpn_fine(3);
    let before = channel;
    channel.data_entry_coarse(1);
    channel.data_entry_fine(1);
    assert_eq!(channel.pitch_bend_range, before.pitch_bend_range);
    assert_eq!(channel.fine_tune, before.fine_tune);
    assert_eq!(channel.coarse_tune, before.coarse_tune);
}

#[test]
fn data_entry_is_ignored_after_an_nrpn_selector() {
    let mut channel = Channel::new();
    channel.set_rpn_coarse(0);
    channel.set_rpn_fine(0);
    channel.set_nrpn_coarse(1);
    channel.data_entry_coarse(12);
    channel.data_entry_fine(34);
    assert_eq!(channel.pitch_bend_range, 2 << 7);
    channel.set_rpn_fine(1);
    channel.set_nrpn_fine(8);
    channel.data_entry_coarse(12);
    channel.data_entry_fine(34);
    assert_eq!(channel.fine_tune, 8192);
    channel.set_rpn_fine(2);
    channel.set_nrpn_fine(8);
    channel.data_entry_coarse(12);
    assert_eq!(channel.coarse_tune, 0);
    assert_eq!(channel.last_data_type, DataType::Nrpn);
}

#[test]
fn data_entry_is_ignored_before_any_selector() {
    let mut channel = Channel::new();
    channel.rpn = 0;
    channel.data_entry_coarse(12);
    assert_eq!(channel.pitch_bend_range, 2 << 7);
}

#[test]
fn hold_pedal_is_down_from_64() {
    let mut channel = Channel::new();
    channel.set_hold_pedal(63);
    assert!(!channel.get_hold_pedal());
    channel.set_hold_pedal(64);
    assert!(channel.get_hold_pedal());
    channel.set_hold_pedal(0);
    assert!(!channel.get_hold_pedal());
}

#[test]
fn sends_take_the_value() {
    let mut channel = Channel::new();
    channel.set_reverb_send(127);
    channel.set_chorus_send(3);
    assert_eq!(channel.get_reverb_send(), 127);
    assert_eq!(channel.get_chorus_send(), 3);
}

#[test]
fn pitch_bend_counts_from_the_center() {
    let mut channel = Channel::new();
    channel.set_pitch_bend(8192);
    assert_eq!(channel.pitch_bend, 0);
    assert_eq!(channel.get_pitch_bend(), 0);
    channel.set_pitch_bend(0);
    assert_eq!(channel.pitch_bend, -8192);
    assert_eq!(channel.get_pitch_bend(), -8192 * 200);
    channel.set_pitch_bend(16383);
    assert_eq!(channel.pitch_bend, 8191);
    assert_eq!(channel.get_pitch_bend(), 8191 * 200);
}

#[test]
fn tune_adds_coarse_and_fine() {
    let mut channel = Channel::new();
    assert_eq!(channel.get_tune(), 0);
    channel.coarse_tune = 2;
    channel.fine_tune = 8192 + 4096;
    assert_eq!(channel.get_tune(), 2 * 8192 + 4096);
    channel.coarse_tune = -1;
    channel.fine_tune = 0;
    assert_eq!(channel.get_tune(), -8192 - 8192);
}

#[test]
fn control_change_follows_the_table() {
    let mut channel = Channel::new();
    channel.control_change(0x00, 1);
    assert_eq!(channel.get_bank_number(), 1);
    channel.control_change(0x01, 2);
    channel.control_change(0x21, 3);
    assert_eq!(channel.modulation, (2 << 7) | 3);
    channel.control_change(0x07, 4);
    channel.control_change(0x27, 5);
    assert_eq!(channel.volume, (4 << 7) | 5);
    channel.control_change(0x0A, 6);
    channel.control_change(0x2A, 7);
    assert_eq!(channel.pan, (6 << 7) | 7);
    channel.control_change(0x0B, 8);
    channel.control_change(0x2B, 9);
    assert_eq!(channel.expression, (8 << 7) | 9);
    channel.control_change(0x40, 64);
    assert!(channel.hold_pedal);
    channel.control_change(0x5B, 10);
    assert_eq!(channel.reverb_send, 10);
    channel.control_change(0x5D, 11);
    assert_eq!(channel.chorus_send, 11);
    channel.control_change(0x65, 0);
    channel.control_change(0x64, 0);
    assert_eq!(channel.rpn, 0);
    assert_eq!(channel.last_data_type, DataType::Rpn);
    channel.control_change(0x06, 7);
    channel.control_change(0x26, 50);
    assert_eq!(channel.get_pitch_bend_range(), 750);
    channel.control_change(0x63, 0);
    assert_eq!(channel.last_data_type, DataType::Nrpn);
    channel.control_change(0x65, 0);
    channel.control_change(0x62, 0);
    assert_eq!(channel.last_data_type, DataType::Nrpn);
    channel.control_change(0x79, 0);
    assert_eq!(channel.modulation, 0);
    assert_eq!(channel.expression, 127 << 7);
    assert!(!channel.hold_pedal);
    assert_eq!(channel.rpn, -1);
    assert_eq!(channel.volume, (4 << 7) | 5);
}

#[test]
fn unknown_controllers_change_nothing() {
    let mut channel = Channel::new();
    channel.set_volume_coarse(3);
    let before = channel;
    for controller in [0x02u8, 0x20, 0x41, 0x50, 0x78, 0x7B, 0x7F] {
        channel.control_change(controller, 99);
    }
    assert_eq!(channel.volume, before.volume);
    assert_eq!(channel.preset_id, before.preset_id);
    assert_eq!(channel.modulation, before.modulation);
    assert_eq!(channel.pan, before.pan);
    assert_eq!(channel.expression, before.expression);
    assert_eq!(channel.hold_pedal, before.hold_pedal);
    assert_eq!(channel.rpn, before.rpn);
    assert_eq!(channel.last_data_type, before.last_data_type);
}

#[test]
fn a_fine_byte_beyond_seven_bits_keeps_the_coarse_byte() {
    let mut channel = Channel::new();
    channel.set_volume_coarse(0);
    channel.set_volume_fine(128);
    assert_eq!(channel.volume, 0);
    channel.set_volume_coarse(5);
    channel.set_volume_fine(255);
    assert_eq!(channel.volume, (5 << 7) | 127);
    channel.set_bank(2);
    channel.set_patch(200);
    assert_eq!(channel.get_bank_number(), 2);
    assert_eq!(channel.get_patch_number(), 72);
    channel.set_bank(128);
    assert_eq!(channel.get_bank_number(), 128);
    assert_eq!(channel.get_patch_number(), 72);
    channel.control_change(42, 129);
    channel.control_change(10, 3);
    assert_eq!(channel.pan, (3 << 7) | 1);
}
