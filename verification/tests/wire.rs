//! Tests for the 108-byte wire record: exact layout, the header count, and
//! the decode round trip.

use hidplus_client::client::Client;
use hidplus_client::codec::{switch_pad_to_value, PackedData, WIRE_LEN, WIRE_MAGIC};
use hidplus_client::config::Config;
use hidplus_client::input::{InputButton, InputEvent};
use hidplus_client::pad::{EmulatedPad, SwitchPad};

fn all_primary() -> Config {
    Config {
        rawinput_fallback: false,
        switch_pad_1: Some(SwitchPad::ProController),
        switch_pad_2: Some(SwitchPad::ProController),
        switch_pad_3: Some(SwitchPad::ProController),
        switch_pad_4: Some(SwitchPad::ProController),
    }
}

fn neutral_pads() -> Vec<EmulatedPad> {
    vec![
        EmulatedPad::new(),
        EmulatedPad::new(),
        EmulatedPad::new(),
        EmulatedPad::new(),
    ]
}

#[test]
fn kind_codes() {
    assert_eq!(switch_pad_to_value(&None), 0);
    assert_eq!(switch_pad_to_value(&Some(SwitchPad::ProController)), 1);
    assert_eq!(switch_pad_to_value(&Some(SwitchPad::JoyConLSide)), 2);
    assert_eq!(switch_pad_to_value(&Some(SwitchPad::JoyConRSide)), 3);
    assert_eq!(SwitchPad::ProController.value(), 1);
    assert_eq!(SwitchPad::JoyConLSide.value(), 2);
    assert_eq!(SwitchPad::JoyConRSide.value(), 3);
}

#[test]
fn record_is_108_bytes_and_starts_with_magic() {
    let pads = neutral_pads();
    let bytes = PackedData::new(&pads, 0).to_bytes();
    assert_eq!(bytes.len(), WIRE_LEN);
    assert_eq!(WIRE_MAGIC, 0x3276);
    // Little-endian magic 0x3276.
    assert_eq!(bytes[0], 0x76);
    assert_eq!(bytes[1], 0x32);
}

#[test]
fn neutral_record_bytes_are_zero_after_header() {
    let pads = neutral_pads();
    let bytes = PackedData::new(&pads, 0).to_bytes();
    for i in 2..WIRE_LEN {
        assert_eq!(bytes[i], 0, "byte {} of a neutral record", i);
    }
}

#[test]
fn slot_fields_land_at_fixed_offsets() {
    let mut pads = neutral_pads();
    // Bind slot 2 (index 1) with distinctive values.
    pads[1].connect(&7, SwitchPad::JoyConRSide);
    pads[1].set_del_bit(&0x4000, &1);
    pads[1].update_axis(&hidplus_client::input::InputAxis::LeftX, &-2);
    pads[1].update_axis(&hidplus_client::input::InputAxis::RightY, &300);
    let bytes = PackedData::new(&pads, 1).to_bytes();
    // Header: connected == 1.
    assert_eq!(&bytes[2..4], &[1, 0]);
    // Slot 1 (bytes 4..30) stays all zero.
    assert!(bytes[4..30].iter().all(|b| *b == 0));
    // Slot 2 starts at byte 30: kind code 3.
    assert_eq!(&bytes[30..32], &[3, 0]);
    // 64-bit mask with bit 14 set.
    assert_eq!(&bytes[32..40], &[0, 0x40, 0, 0, 0, 0, 0, 0]);
    // leftX = -2, leftY = 0, rightX = 0, rightY = 300.
    assert_eq!(&bytes[40..44], &(-2i32).to_le_bytes());
    assert_eq!(&bytes[44..48], &[0, 0, 0, 0]);
    assert_eq!(&bytes[48..52], &[0, 0, 0, 0]);
    assert_eq!(&bytes[52..56], &300i32.to_le_bytes());
    // Slots 3 and 4 stay all zero.
    assert!(bytes[56..108].iter().all(|b| *b == 0));
}

#[test]
fn decode_inverts_encode() {
    let mut pads = neutral_pads();
    pads[0].connect(&3, SwitchPad::ProController);
    pads[0].set_del_bit(&1, &1);
    pads[0].update_axis(&hidplus_client::input::InputAxis::LeftY, &-32767);
    pads[3].connect(&9, SwitchPad::JoyConLSide);
    pads[3].update_axis(&hidplus_client::input::InputAxis::RightX, &12345);
    let record = PackedData::new(&pads, 2);
    let bytes = record.to_bytes();
    let back = PackedData::from_bytes(&bytes).expect("108 bytes must decode");
    assert_eq!(back.magic, 0x3276);
    assert_eq!(back.connected, 2);
    assert_eq!(back.con_type, 1);
    assert_eq!(back.keys, 1);
    assert_eq!(back.joy_l_x, 0);
    assert_eq!(back.joy_l_y, -32767);
    assert_eq!(back.con_type2, 0);
    assert_eq!(back.keys2, 0);
    assert_eq!(back.con_type4, 2);
    assert_eq!(back.keys4, 0);
    assert_eq!(back.joy_r_x4, 12345);
    // Re-encoding the decoded record reproduces the bytes exactly.
    assert_eq!(back.to_bytes(), bytes);
}

#[test]
fn decode_rejects_wrong_length() {
    assert!(PackedData::from_bytes(&vec![]).is_none());
    assert!(PackedData::from_bytes(&vec![0; 107]).is_none());
    assert!(PackedData::from_bytes(&vec![0; 109]).is_none());
}

#[test]
fn header_counts_bound_slots() {
    let mut client = Client::new(all_primary());
    let gesture =
        |src: usize| InputEvent::GamepadButton(src, InputButton::RightBumper, 1);
    client.dispatch(&gesture(10));
    client.dispatch(&gesture(11));
    assert_eq!(client.get_connected(), 2);
    let bytes = client.encode_snapshot();
    assert_eq!(&bytes[2..4], &[2, 0]);
}
