//! Key and digit logic of the front-panel display unit.
//!
//! The display driver itself bit-bangs a serial line outside this crate; it
//! hands in the raw key bitmap it read and takes back segment patterns to
//! write.  This module holds what can be computed from plain values: the
//! key bitmap assembled from the four scan bytes, the edge detection that
//! turns two successive bitmaps into at most one key event, and the
//! seven-segment patterns of a two-digit number.

use vstd::prelude::*;

verus! {

/// One key transition: a press, a release, or a scan that changed more
/// than one key at once and must be ignored.
#[derive(Clone, Copy, PartialEq, Eq, Structural, Debug)]
pub enum KeyEvent {
    KeyDown { key: u8 },
    KeyUp { key: u8 },
    KeyErr,
}

/// How many of the low `n` bits of `value` are set.
pub open spec fn spec_bits_high(value: u8, n: nat) -> nat
    recommends
        n <= 8,
    decreases n,
{
    if n == 0 {
        0
    } else {
        spec_bits_high(value, (n - 1) as nat) + (if value & (1u8 << ((n - 1) as u8)) != 0 {
            1nat
        } else {
            0nat
        })
    }
}

/// Counts the set bits of a key bitmap.
pub fn count_bits_high(value: u8) -> (count: u8)
    ensures
        count as nat == spec_bits_high(value, 8),
{
    let mut count: u8 = 0;
    let mut i: u8 = 0;
    while i < 8
        invariant
            i <= 8,
            count <= i,
            count as nat == spec_bits_high(value, i as nat),
        decreases 8 - i,
    {
        if value & (1u8 << i) != 0 {
            count += 1;
        }
        i += 1;
    }
    count
}

/// The one-based position of the lowest set bit, or zero when no bit is
/// set.
pub open spec fn spec_first_high(value: u8) -> u8 {
    if value & (1u8 << 0) != 0 {
        1
    } else if value & (1u8 << 1) != 0 {
        2
    } else if value & (1u8 << 2) != 0 {
        3
    } else if value & (1u8 << 3) != 0 {
        4
    } else if value & (1u8 << 4) != 0 {
        5
    } else if value & (1u8 << 5) != 0 {
        6
    } else if value & (1u8 << 6) != 0 {
        7
    } else if value & (1u8 << 7) != 0 {
        8
    } else {
        0
    }
}

/// Finds the one-based position of the lowest set bit of a key bitmap;
/// zero when the bitmap is empty.
pub fn find_first_high(key_data: u8) -> (r: u8)
    ensures
        r == spec_first_high(key_data),
{
    let mut i: u8 = 0;
    while i < 8
        invariant
            i <= 8,
            forall|k: u8| k < i ==> key_data & (1u8 << k) == 0,
        decreases 8 - i,
    {
        if key_data & (1u8 << i) != 0 {
            return i + 1;
        }
        i += 1;
    }
    0
}

/// The key bitmap encoded by the four scan bytes the display unit returns:
/// scan byte `i` contributes key `2*i` on its bit 2 and key `2*i + 1` on
/// its bit 6.
pub open spec fn spec_keys_from_scan(b0: u8, b1: u8, b2: u8, b3: u8) -> u8 {
    (if b0 & 0x04 != 0 { 0x01u8 } else { 0u8 })
        | (if b0 & 0x40 != 0 { 0x02u8 } else { 0u8 })
        | (if b1 & 0x04 != 0 { 0x04u8 } else { 0u8 })
        | (if b1 & 0x40 != 0 { 0x08u8 } else { 0u8 })
        | (if b2 & 0x04 != 0 { 0x10u8 } else { 0u8 })
        | (if b2 & 0x40 != 0 { 0x20u8 } else { 0u8 })
        | (if b3 & 0x04 != 0 { 0x40u8 } else { 0u8 })
        | (if b3 & 0x40 != 0 { 0x80u8 } else { 0u8 })
}

/// Assembles the key bitmap out of the four raw scan bytes.
pub fn keys_from_scan(data: &[u8; 4]) -> (keys: u8)
    ensures
        keys == spec_keys_from_scan(data[0], data[1], data[2], data[3]),
{
    let b0 = data[0];
    let b1 = data[1];
    let b2 = data[2];
    let b3 = data[3];
    let keys: u8 = (if b0 & 0x04 != 0 {
        0x01u8
    } else {
        0u8
    }) | (if b0 & 0x40 != 0 {
        0x02u8
    } else {
        0u8
    }) | (if b1 & 0x04 != 0 {
        0x04u8
    } else {
        0u8
    }) | (if b1 & 0x40 != 0 {
        0x08u8
    } else {
        0u8
    }) | (if b2 & 0x04 != 0 {
        0x10u8
    } else {
        0u8
    }) | (if b2 & 0x40 != 0 {
        0x20u8
    } else {
        0u8
    }) | (if b3 & 0x04 != 0 {
        0x40u8
    } else {
        0u8
    }) | (if b3 & 0x40 != 0 {
        0x80u8
    } else {
        0u8
    });
    keys
}

/// The event, if any, that a fresh key bitmap signals against the stored
/// one, and the bitmap to store afterwards.  An unchanged bitmap signals
/// nothing; more than one changed key at once is a scan error and leaves
/// the stored bitmap alone; otherwise the single changed key is reported
/// as pressed or released.
pub open spec fn spec_key_event(status: u8, data: u8) -> (u8, Option<KeyEvent>) {
    if status == data {
        (status, None)
    } else {
        let diff = status ^ data;
        if spec_bits_high(diff, 8) > 1 {
            (status, Some(KeyEvent::KeyErr))
        } else if diff & data != 0 {
            (data, Some(KeyEvent::KeyDown { key: spec_first_high(diff) }))
        } else {
            (data, Some(KeyEvent::KeyUp { key: spec_first_high(diff) }))
        }
    }
}

/// Compares a fresh key bitmap with the stored one, returning the bitmap
/// to store and at most one key event.
pub fn key_event_from_scan(status: u8, data: u8) -> (r: (u8, Option<KeyEvent>))
    ensures
        r == spec_key_event(status, data),
{
    if status == data {
        return (status, None);
    }

    let diff = status ^ data;
    if count_bits_high(diff) > 1 {
        return (status, Some(KeyEvent::KeyErr));
    }

    if diff & data != 0 {
        return (data, Some(KeyEvent::KeyDown { key: find_first_high(diff) }));
    }

    (data, Some(KeyEvent::KeyUp { key: find_first_high(diff) }))
}

/// The segment pattern of one display glyph: the digits zero to nine,
/// then blank, then a dash.
pub open spec fn spec_segment(glyph: u8) -> u8
    recommends
        glyph <= 11,
{
    if glyph == 0 {
        0x3f
    } else if glyph == 1 {
        0x30
    } else if glyph == 2 {
        0x5b
    } else if glyph == 3 {
        0x4f
    } else if glyph == 4 {
        0x66
    } else if glyph == 5 {
        0x6d
    } else if glyph == 6 {
        0x7d
    } else if glyph == 7 {
        0x07
    } else if glyph == 8 {
        0x7f
    } else if glyph == 9 {
        0x67
    } else if glyph == 10 {
        0x00
    } else {
        0x40
    }
}

/// Looks up the segment pattern of one glyph.
pub fn segment_for(glyph: u8) -> (r: u8)
    ensures
        r == spec_segment(glyph),
{
    match glyph {
        0 => 0x3f,
        1 => 0x30,
        2 => 0x5b,
        3 => 0x4f,
        4 => 0x66,
        5 => 0x6d,
        6 => 0x7d,
        7 => 0x07,
        8 => 0x7f,
        9 => 0x67,
        10 => 0x00,
        _ => 0x40,
    }
}

/// The two segment patterns that show `number` on one bank: tens digit
/// (blanked when zero) and ones digit, or two dashes when the number does
/// not fit in two digits.
pub open spec fn spec_display_pair(number: u8) -> (u8, u8) {
    if number < 100 {
        let tens = if number / 10 == 0 {
            10u8
        } else {
            number / 10
        };
        (spec_segment(tens), spec_segment(number % 10))
    } else {
        (spec_segment(11), spec_segment(11))
    }
}

/// Computes the two segment patterns that show a number on one bank.
pub fn display_pair(number: u8) -> (r: (u8, u8))
    ensures
        r == spec_display_pair(number),
{
    if number < 100 {
        let mut tens = number / 10;
        let ones = number % 10;
        if tens == 0 {
            tens = 10;
        }
        (segment_for(tens), segment_for(ones))
    } else {
        (segment_for(11), segment_for(11))
    }
}

/// The display buffer after placing a bank's two glyphs: bank `b` owns
/// bytes `2*b` and `2*b + 1`; a bank beyond the four leaves the buffer
/// alone.
pub open spec fn spec_place_pair(buffer: Seq<u8>, bank: u8, d0: u8, d1: u8) -> Seq<u8> {
    if bank < 4 {
        buffer.update(2 * bank as int, d0).update(2 * bank as int + 1, d1)
    } else {
        buffer
    }
}

/// Places a bank's two segment patterns into the eight-byte display
/// buffer.
pub fn place_pair(buffer: &mut [u8; 8], bank: u8, d0: u8, d1: u8)
    ensures
        final(buffer)@ == spec_place_pair(old(buffer)@, bank, d0, d1),
{
    if bank < 4 {
        let index = (bank as usize) * 2;
        buffer[index] = d0;
        buffer[index + 1] = d1;
        proof {
            assert(buffer@ =~= spec_place_pair(old(buffer)@, bank, d0, d1));
        }
    }
}

} // verus!
