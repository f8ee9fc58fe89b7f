//! The LED bar model: one colour and one blink flag per LED, and the blink
//! scheduler that turns them into the frame the strip driver writes out.
//!
//! Each of the four bays owns a bar of three LEDs (indices `3*bank` up to
//! `3*bank + 2`) and two button LEDs (indices `12 + 2*bank` and
//! `12 + 2*bank + 1`).  Blinking LEDs show their colour only while the
//! shared blink phase is on; the phase toggles every [`BLINK_MSEC`]
//! milliseconds.  Writing the produced frame to the strip is the driver's
//! business, outside this crate.

use vstd::prelude::*;

use crate::pallet::{spec_black, Rgb};

verus! {

/// How many LEDs the strip holds.
pub const LED_NUM: usize = 20;

/// The blink half-period in milliseconds.
pub const BLINK_MSEC: u32 = 500;

/// Why a bar or button assignment was rejected.
#[derive(Clone, Copy, PartialEq, Eq, Structural, Debug)]
pub enum LightsError {
    IndexOutOfRange,
}

/// The colours and blink flags of the strip, plus the blink phase and the
/// time at which it next toggles.
pub struct LightPorts {
    pub led_data: Vec<Rgb>,
    pub blink_mask: Vec<bool>,
    pub blink_on: bool,
    pub blink_next: u32,
}

/// Both per-LED tables cover the whole strip.
pub open spec fn spec_lights_wf(l: LightPorts) -> bool {
    l.led_data@.len() == LED_NUM && l.blink_mask@.len() == LED_NUM
}

/// The colour table after painting the three LEDs of one bay's bar.
pub open spec fn spec_bar_leds(leds: Seq<Rgb>, bank: u8, color: Rgb) -> Seq<Rgb> {
    leds.update(3 * bank as int, color).update(3 * bank as int + 1, color).update(
        3 * bank as int + 2,
        color,
    )
}

/// The blink table after painting the three LEDs of one bay's bar.
pub open spec fn spec_bar_mask(mask: Seq<bool>, bank: u8, blink: bool) -> Seq<bool> {
    mask.update(3 * bank as int, blink).update(3 * bank as int + 1, blink).update(
        3 * bank as int + 2,
        blink,
    )
}

/// The strip index of one bay's button LED.
pub open spec fn spec_button_index(bank: u8, button: usize) -> int {
    12 + 2 * bank as int + button as int
}

/// The frame the strip shows: blinking LEDs are blanked while the blink
/// phase is off, all others show their colour.
pub open spec fn spec_blanked(leds: Seq<Rgb>, mask: Seq<bool>, blink_on: bool) -> Seq<Rgb> {
    Seq::new(leds.len(), |i: int| if !blink_on && mask[i] { spec_black() } else { leds[i] })
}

impl LightPorts {
    /// A strip that is all dark, not blinking, with the phase due to toggle
    /// at `now`.
    pub fn new(now: u32) -> (l: Self)
        ensures
            spec_lights_wf(l),
            l.led_data@ == Seq::new(LED_NUM as nat, |i: int| spec_black()),
            l.blink_mask@ == Seq::new(LED_NUM as nat, |i: int| false),
            l.blink_on == false,
            l.blink_next == now,
    {
        let mut led_data: Vec<Rgb> = Vec::new();
        let mut blink_mask: Vec<bool> = Vec::new();
        let mut i: usize = 0;
        while i < LED_NUM
            invariant
                i <= LED_NUM,
                led_data@ =~= Seq::new(i as nat, |k: int| spec_black()),
                blink_mask@ =~= Seq::new(i as nat, |k: int| false),
            decreases LED_NUM - i,
        {
            led_data.push(Rgb::new(0, 0, 0));
            blink_mask.push(false);
            i += 1;
            proof {
                assert(led_data@ =~= Seq::new(i as nat, |k: int| spec_black()));
                assert(blink_mask@ =~= Seq::new(i as nat, |k: int| false));
            }
        }
        LightPorts { led_data, blink_mask, blink_on: false, blink_next: now }
    }

    /// Paints one bay's three-LED bar with a colour and a blink flag.
    /// Rejects a bank beyond the four bays and changes nothing then.
    pub fn set_bar(&mut self, bank: u8, color: Rgb, blink: bool) -> (r: Result<(), LightsError>)
        requires
            spec_lights_wf(*old(self)),
        ensures
            spec_lights_wf(*final(self)),
            bank < 4 ==> r == Ok::<(), LightsError>(()) && final(self).led_data@ == spec_bar_leds(
                old(self).led_data@,
                bank,
                color,
            ) && final(self).blink_mask@ == spec_bar_mask(old(self).blink_mask@, bank, blink),
            bank >= 4 ==> r == Err::<(), LightsError>(LightsError::IndexOutOfRange) && *final(self)
                == *old(self),
            final(self).blink_on == old(self).blink_on,
            final(self).blink_next == old(self).blink_next,
    {
        let bank = bank as usize;
        if bank >= 4 {
            return Err(LightsError::IndexOutOfRange);
        }
        let index = bank * 3;
        self.led_data.set(index, color);
        self.led_data.set(index + 1, color);
        self.led_data.set(index + 2, color);
        self.blink_mask.set(index, blink);
        self.blink_mask.set(index + 1, blink);
        self.blink_mask.set(index + 2, blink);
        Ok(())
    }

    /// Paints one of a bay's two button LEDs.  Rejects a bank beyond the
    /// four bays and changes nothing then.
    pub fn set_button(&mut self, bank: u8, button: usize, color: Rgb, blink: bool) -> (r: Result<
        (),
        LightsError,
    >)
        requires
            spec_lights_wf(*old(self)),
            button <= 1,
        ensures
            spec_lights_wf(*final(self)),
            bank < 4 ==> r == Ok::<(), LightsError>(())
                && final(self).led_data@ == old(self).led_data@.update(
                    spec_button_index(bank, button), color)
                && final(self).blink_mask@ == old(self).blink_mask@.update(
                    spec_button_index(bank, button), blink),
            bank >= 4 ==> r == Err::<(), LightsError>(LightsError::IndexOutOfRange) && *final(self)
                == *old(self),
            final(self).blink_on == old(self).blink_on,
            final(self).blink_next == old(self).blink_next,
    {
        let bank = bank as usize;
        if bank >= 4 {
            return Err(LightsError::IndexOutOfRange);
        }
        let index = (bank * 2) + button + 12;
        self.led_data.set(index, color);
        self.blink_mask.set(index, blink);
        Ok(())
    }

    /// Advances the blink phase once its deadline has passed and, when
    /// anything is due to be repainted, hands back the frame to write to
    /// the strip: the colour table with blinking LEDs blanked during the
    /// off phase.  Returns nothing when no repaint is due.
    pub fn refresh(&mut self, updated: bool, now: u32) -> (r: Option<Vec<Rgb>>)
        requires
            spec_lights_wf(*old(self)),
            now <= u32::MAX - BLINK_MSEC,
        ensures
            spec_lights_wf(*final(self)),
            final(self).led_data@ == old(self).led_data@,
            final(self).blink_mask@ == old(self).blink_mask@,
            now > old(self).blink_next ==> final(self).blink_next == now + BLINK_MSEC
                && final(self).blink_on == !old(self).blink_on,
            now <= old(self).blink_next ==> final(self).blink_next == old(self).blink_next
                && final(self).blink_on == old(self).blink_on,
            (r is Some) <==> (updated || now > old(self).blink_next),
            r is Some ==> r.unwrap()@ == spec_blanked(
                old(self).led_data@,
                old(self).blink_mask@,
                final(self).blink_on,
            ),
    {
        let mut updated = updated;
        if now > self.blink_next {
            self.blink_next = now + BLINK_MSEC;
            self.blink_on = !self.blink_on;
            updated = true;
        }

        if !updated {
            return None;
        }

        let ghost target = spec_blanked(self.led_data@, self.blink_mask@, self.blink_on);
        let mut frame: Vec<Rgb> = Vec::new();
        let n = self.led_data.len();
        let mut i: usize = 0;
        while i < n
            invariant
                i <= n,
                n == self.led_data@.len(),
                n == self.blink_mask@.len(),
                target == spec_blanked(self.led_data@, self.blink_mask@, self.blink_on),
                frame@ =~= target.take(i as int),
            decreases n - i,
        {
            let c = if !self.blink_on && self.blink_mask[i] {
                Rgb::new(0, 0, 0)
            } else {
                self.led_data[i]
            };
            frame.push(c);
            i += 1;
            proof {
                assert(frame@ =~= target.take(i as int));
            }
        }
        proof {
            assert(frame@ =~= target);
        }
        Some(frame)
    }
}

} // verus!
