//! Front-panel tests: key scanning, seven-segment digits, the LED bar
//! model and the blink scheduler.

use juice_box::display::{
    count_bits_high, display_pair, find_first_high, key_event_from_scan, keys_from_scan,
    place_pair, KeyEvent,
};
use juice_box::ev_charger::EVCharger;
use juice_box::lights::{LightPorts, LightsError};
use juice_box::pallet::{Colors, Rgb};

#[test]
fn bit_counting_and_first_bit() {
    assert_eq!(count_bits_high(0x00), 0);
    assert_eq!(count_bits_high(0xff), 8);
    assert_eq!(count_bits_high(0xa5), 4);
    assert_eq!(find_first_high(0x00), 0);
    assert_eq!(find_first_high(0x01), 1);
    assert_eq!(find_first_high(0x28), 4);
    assert_eq!(find_first_high(0x80), 8);
}

#[test]
fn keys_are_read_from_scan_bits() {
    assert_eq!(keys_from_scan(&[0x04, 0x00, 0x40, 0x00]), 0x21);
    assert_eq!(keys_from_scan(&[0x44, 0x44, 0x44, 0x44]), 0xff);
    assert_eq!(keys_from_scan(&[0x00, 0x44, 0x00, 0x00]), 0x0c);
    assert_eq!(keys_from_scan(&[0x3b, 0xbb, 0x00, 0x00]), 0x00);
}

#[test]
fn key_edges_become_events() {
    // Key 3 (bit 2) goes down, then up.
    let (status, ev) = key_event_from_scan(0x00, 0x04);
    assert_eq!(status, 0x04);
    assert!(matches!(ev, Some(KeyEvent::KeyDown { key: 3 })));
    let (status, ev) = key_event_from_scan(status, 0x00);
    assert_eq!(status, 0x00);
    assert!(matches!(ev, Some(KeyEvent::KeyUp { key: 3 })));
}

#[test]
fn unchanged_scan_is_silent_and_glitches_are_errors() {
    let (status, ev) = key_event_from_scan(0x11, 0x11);
    assert_eq!(status, 0x11);
    assert!(ev.is_none());
    // Two keys changing at once is a scan error; the stored bitmap stays.
    let (status, ev) = key_event_from_scan(0x00, 0x05);
    assert_eq!(status, 0x00);
    assert!(matches!(ev, Some(KeyEvent::KeyErr)));
}

#[test]
fn digits_render_with_blanked_leading_zero() {
    // 7 shows as blank then seven; 42 as four then two; 255 is out of the
    // two-digit range and shows two dashes.
    assert_eq!(display_pair(7), (0x00, 0x07));
    assert_eq!(display_pair(42), (0x66, 0x5b));
    assert_eq!(display_pair(10), (0x30, 0x3f));
    assert_eq!(display_pair(255), (0x40, 0x40));
}

#[test]
fn display_banks_own_byte_pairs() {
    let mut buffer = [0u8; 8];
    place_pair(&mut buffer, 1, 0xaa, 0xbb);
    assert_eq!(buffer, [0, 0, 0xaa, 0xbb, 0, 0, 0, 0]);
    place_pair(&mut buffer, 9, 0x11, 0x22);
    assert_eq!(buffer, [0, 0, 0xaa, 0xbb, 0, 0, 0, 0]);
}

#[test]
fn bars_and_buttons_paint_their_slots() {
    let mut lights = LightPorts::new(0);
    let orange = Colors::Orange.as_rgb();
    lights.set_bar(2, orange, true).unwrap();
    lights.set_button(2, 0, orange, false).unwrap();
    for i in 0..20 {
        let painted = (6..9).contains(&i) || i == 16;
        assert_eq!(lights.led_data[i] == orange, painted, "led {i}");
        assert_eq!(lights.blink_mask[i], (6..9).contains(&i), "mask {i}");
    }
    assert_eq!(lights.set_bar(4, orange, false), Err(LightsError::IndexOutOfRange));
    assert_eq!(lights.set_button(4, 1, orange, false), Err(LightsError::IndexOutOfRange));
}

#[test]
fn blink_phase_blanks_marked_leds() {
    let mut lights = LightPorts::new(0);
    let yellow = Colors::Yellow.as_rgb();
    lights.set_bar(0, yellow, true).unwrap();
    lights.set_button(0, 0, yellow, false).unwrap();

    // Past the deadline the phase toggles on: everything shows.
    let frame = lights.refresh(false, 1).unwrap();
    assert!(lights.blink_on);
    assert_eq!(frame[0], yellow);
    assert_eq!(frame[12], yellow);

    // At the next toggle the phase goes off: blinking LEDs go dark, the
    // steady button stays.
    let frame = lights.refresh(false, 502).unwrap();
    assert!(!lights.blink_on);
    assert_eq!(frame[0], Rgb::default());
    assert_eq!(frame[12], yellow);

    // Between toggles, with nothing marked dirty, no repaint is due.
    assert!(lights.refresh(false, 503).is_none());
}

#[test]
fn refresh_ui_paints_once_per_update() {
    let mut lights = LightPorts::new(0);
    let mut unit = EVCharger::new(1, 0);
    // A fresh unit has a repaint pending; phase Wait paints a green bar
    // and a blinking dark service key.
    assert!(unit.refresh_ui(&mut lights));
    assert_eq!(lights.led_data[0], Colors::Green.as_rgb());
    assert!(!lights.blink_mask[0]);
    assert_eq!(lights.led_data[12], Rgb::default());
    assert!(lights.blink_mask[12]);
    // The pending flag is consumed.
    assert!(!unit.refresh_ui(&mut lights));
}
