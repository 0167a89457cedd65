//! Tests for the slot manager: assignment order, stable dispatch, the
//! liveness sweep, and the local reset.

use hidplus_client::client::{AssignmentError, Client};
use hidplus_client::codec::WIRE_LEN;
use hidplus_client::config::Config;
use hidplus_client::input::{InputAxis, InputButton, InputEvent};
use hidplus_client::pad::SwitchPad;

fn all_primary() -> Config {
    Config {
        rawinput_fallback: false,
        switch_pad_1: Some(SwitchPad::ProController),
        switch_pad_2: Some(SwitchPad::ProController),
        switch_pad_3: Some(SwitchPad::ProController),
        switch_pad_4: Some(SwitchPad::ProController),
    }
}

fn gesture(src: usize) -> InputEvent {
    InputEvent::GamepadButton(src, InputButton::RightBumper, 1)
}

#[test]
fn four_gestures_bind_in_order_and_a_fifth_fails() {
    let mut client = Client::new(all_primary());
    for (n, src) in [10usize, 11, 12, 13].iter().enumerate() {
        let outcome = client.dispatch(&gesture(*src));
        assert_eq!(outcome, Some(Ok(n)));
    }
    let pads = client.get_pads();
    for (n, src) in [10usize, 11, 12, 13].iter().enumerate() {
        assert_eq!(*pads[n].get_gamepad_id(), Some(*src));
        assert_eq!(*pads[n].get_switch_pad(), Some(SwitchPad::ProController));
    }
    let fifth = client.dispatch(&gesture(14));
    assert_eq!(fifth, Some(Err(AssignmentError::NoSlotsAvailable)));
    assert_eq!(client.get_connected(), 4);
    let bytes = client.encode_snapshot();
    // Header: connected == 4; each slot's kind code == 1.
    assert_eq!(&bytes[2..4], &[4, 0]);
    for offset in [4usize, 30, 56, 82] {
        assert_eq!(&bytes[offset..offset + 2], &[1, 0]);
    }
}

#[test]
fn axis_extremes_store_exactly() {
    let mut client = Client::new(all_primary());
    client.dispatch(&gesture(10));
    // A backend scales a normalized value v to trunc(v * 32767).
    for (normalized, stored) in [(1.0f32, 32767i32), (-1.0, -32767), (0.0, 0)] {
        let scaled = (normalized * 32767.0) as i32;
        client.dispatch(&InputEvent::GamepadAxis(10, InputAxis::LeftX, scaled));
        assert_eq!(client.get_pads()[0].get_left().0, stored);
    }
}

#[test]
fn bound_source_always_updates_its_own_slot() {
    let mut client = Client::new(all_primary());
    client.dispatch(&gesture(10));
    client.dispatch(&gesture(11));
    // Events from source 11 touch slot 1 only, over and over.
    for _ in 0..3 {
        client.dispatch(&InputEvent::GamepadButton(11, InputButton::East, 1));
        client.dispatch(&InputEvent::GamepadAxis(11, InputAxis::RightX, 5));
        let pads = client.get_pads();
        assert_eq!(*pads[0].get_keyout(), 0);
        assert_eq!(*pads[0].get_right(), (0, 0));
        assert_eq!(*pads[1].get_keyout(), 1);
        assert_eq!(*pads[1].get_right(), (5, 0));
        assert_eq!(*pads[1].get_gamepad_id(), Some(11));
    }
    // A bind gesture from an already-bound source routes as an ordinary
    // button event instead of rebinding.
    let outcome = client.dispatch(&gesture(10));
    assert_eq!(outcome, None);
    assert_eq!(*client.get_pads()[0].get_keyout(), 1 << 7);
}

#[test]
fn non_gesture_from_unknown_source_is_ignored() {
    let mut client = Client::new(all_primary());
    let outcome = client.dispatch(&InputEvent::GamepadButton(50, InputButton::Start, 1));
    assert_eq!(outcome, None);
    assert_eq!(client.get_connected(), 0);
    // A half-pressed bumper is not the gesture either.
    let outcome = client.dispatch(&InputEvent::GamepadButton(50, InputButton::RightBumper, 0));
    assert_eq!(outcome, None);
    assert_eq!(client.get_connected(), 0);
}

#[test]
fn unconfigured_slots_are_never_assigned() {
    let config = Config {
        rawinput_fallback: true,
        switch_pad_1: None,
        switch_pad_2: Some(SwitchPad::JoyConLSide),
        switch_pad_3: None,
        switch_pad_4: Some(SwitchPad::JoyConRSide),
    };
    let mut client = Client::new(config);
    assert_eq!(client.dispatch(&gesture(20)), Some(Ok(1)));
    assert_eq!(client.dispatch(&gesture(21)), Some(Ok(3)));
    assert_eq!(client.dispatch(&gesture(22)), Some(Err(AssignmentError::NoSlotsAvailable)));
    let pads = client.get_pads();
    assert_eq!(*pads[1].get_switch_pad(), Some(SwitchPad::JoyConLSide));
    assert_eq!(*pads[3].get_switch_pad(), Some(SwitchPad::JoyConRSide));
    assert_eq!(*pads[0].get_gamepad_id(), None);
    assert_eq!(*pads[2].get_gamepad_id(), None);
}

#[test]
fn sweep_unbinds_dead_slots_and_frees_them() {
    let mut client = Client::new(all_primary());
    client.dispatch(&gesture(10));
    client.dispatch(&gesture(11));
    client.dispatch(&InputEvent::GamepadButton(10, InputButton::East, 1));
    // Source 10's backend reports it gone.
    client.disconnect_inactive(&vec![false, true, true, true]);
    let pads = client.get_pads();
    assert_eq!(*pads[0].get_gamepad_id(), None);
    assert_eq!(*pads[0].get_keyout(), 0);
    assert_eq!(*pads[1].get_gamepad_id(), Some(11));
    assert_eq!(client.get_connected(), 1);
    // The freed slot is eligible again: a new source takes slot 0.
    assert_eq!(client.dispatch(&gesture(12)), Some(Ok(0)));
    // The returning source binds the next eligible slot, not its former one.
    assert_eq!(client.dispatch(&gesture(10)), Some(Ok(2)));
}

#[test]
fn stale_events_after_sweep_are_ignored() {
    let mut client = Client::new(all_primary());
    client.dispatch(&gesture(10));
    client.disconnect_inactive(&vec![false, true, true, true]);
    // A plain event from the swept source no longer reaches any slot.
    assert_eq!(client.dispatch(&InputEvent::GamepadButton(10, InputButton::East, 1)), None);
    assert_eq!(client.get_connected(), 0);
    assert_eq!(*client.get_pads()[0].get_keyout(), 0);
}

#[test]
fn update_pads_sweeps_then_dispatches() {
    let mut client = Client::new(all_primary());
    client.dispatch(&gesture(10));
    client.dispatch(&gesture(11));
    let alive = vec![true, false, true, true];
    let events = vec![
        InputEvent::GamepadButton(10, InputButton::West, 1),
        gesture(12),
        InputEvent::GamepadAxis(12, InputAxis::LeftY, -4),
    ];
    client.update_pads(&alive, &events);
    let pads = client.get_pads();
    // Slot 0 kept its binding and took the button.
    assert_eq!(*pads[0].get_gamepad_id(), Some(10));
    assert_eq!(*pads[0].get_keyout(), 1 << 3);
    // Slot 1 was swept, then rebound to the new source within the batch.
    assert_eq!(*pads[1].get_gamepad_id(), Some(12));
    assert_eq!(*pads[1].get_left(), (0, -4));
}

#[test]
fn reset_unbinds_everything_and_encodes_neutral() {
    let mut client = Client::new(all_primary());
    client.dispatch(&gesture(10));
    client.dispatch(&gesture(11));
    client.dispatch(&InputEvent::GamepadButton(11, InputButton::Select, 1));
    assert_eq!(client.get_connected(), 2);
    client.reset_pads();
    assert_eq!(client.get_connected(), 0);
    let pads = client.get_pads();
    for i in 0..4 {
        assert_eq!(*pads[i].get_gamepad_id(), None);
        assert_eq!(*pads[i].get_keyout(), 0);
    }
    // The datagram the reset loop repeats: a neutral record.
    let bytes = client.encode_snapshot();
    assert_eq!(bytes.len(), WIRE_LEN);
    assert!(bytes[2..].iter().all(|b| *b == 0));
    // Repeating the encode gives the identical payload every time.
    assert_eq!(client.encode_snapshot(), bytes);
    // The old sources may bind again, to whichever slot is eligible first.
    assert_eq!(client.dispatch(&gesture(11)), Some(Ok(0)));
}

#[test]
fn an_empty_tick_changes_nothing() {
    let mut client = Client::new(all_primary());
    client.dispatch(&gesture(10));
    let before = client.encode_snapshot();
    client.update_pads(&vec![true, true, true, true], &vec![]);
    assert_eq!(client.encode_snapshot(), before);
    assert_eq!(client.get_connected(), 1);
}

#[test]
fn all_fourteen_buttons_give_the_exact_mask() {
    let mut client = Client::new(all_primary());
    client.dispatch(&gesture(10));
    // The gesture only binds; pressing is reported once the source is bound.
    let buttons = [
        InputButton::North,
        InputButton::South,
        InputButton::East,
        InputButton::West,
        InputButton::LeftBumper,
        InputButton::LeftTrigger,
        InputButton::RightBumper,
        InputButton::RightTrigger,
        InputButton::Start,
        InputButton::Select,
        InputButton::DPadUp,
        InputButton::DPadDown,
        InputButton::DPadLeft,
        InputButton::DPadRight,
    ];
    for button in buttons {
        client.dispatch(&InputEvent::GamepadButton(10, button, 1));
    }
    // On the pro kind: face bits 0-3, bumpers 6-7, triggers 8-9,
    // Plus/Minus 10-11, d-pad 12-15.
    assert_eq!(*client.get_pads()[0].get_keyout(), 0xFFCF);
}

#[test]
fn default_config_is_four_primary_slots_with_fallback() {
    let config = Config::default();
    assert!(config.get_rawinput_fallback());
    let kinds = config.pads_to_vec();
    assert_eq!(kinds.len(), 4);
    for kind in kinds {
        assert_eq!(kind, Some(SwitchPad::ProController));
    }
}
