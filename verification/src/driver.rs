//! The pulse protocol encoder and the transmit timing of the LED driver.
//!
//! The target device reads one color frame as 24 timed high/low pulse
//! pairs on a single data line and needs a minimum quiet (latch) interval
//! between frames.  This module turns a color into that frame and decides
//! how long a transmission must still wait; the surrounding application
//! owns the pulse-generation peripheral, performs the waits and the
//! transmission, and reports the completion time back.

use vstd::prelude::*;
use crate::color::RGB;

verus! {

/// The minimum idle (latch) interval the device needs on the data line
/// between two frames, in microseconds.  Violating it risks the device
/// reading the next frame as a continuation of the last one, so it is
/// enforced unconditionally, even before the very first frame.
pub const MIN_IDLE_MICROS: u64 = 200;

/// One encoded bit: a pair of (logic level, duration) pulses.  Durations
/// count peripheral clock ticks.
#[derive(Clone, Copy, PartialEq, Eq, Structural, Debug)]
pub struct PulseCode {
    /// Logic level of the first pulse.
    pub level1: bool,
    /// Duration of the first pulse, in clock ticks.
    pub length1: u16,
    /// Logic level of the second pulse.
    pub level2: bool,
    /// Duration of the second pulse, in clock ticks.
    pub length2: u16,
}

/// The fixed code for a zero bit: a short high pulse, then a long low
/// pulse, within the target protocol's timing tolerance.
pub open spec fn spec_zero_code() -> PulseCode {
    PulseCode { level1: true, length1: 12, level2: false, length2: 36 }
}

/// The fixed code for a one bit: high and low pulses of equal length.
pub open spec fn spec_one_code() -> PulseCode {
    PulseCode { level1: true, length1: 24, level2: false, length2: 24 }
}

/// The code a single bit maps to.
pub open spec fn spec_code_for(bit: bool) -> PulseCode {
    if bit {
        spec_one_code()
    } else {
        spec_zero_code()
    }
}

/// The byte that position `k` of the frame's channel order carries: the
/// target device expects green first, then red, then blue.
pub open spec fn spec_channel_byte(rgb: RGB, k: int) -> u8 {
    if k == 0 {
        rgb.g
    } else if k == 1 {
        rgb.r
    } else {
        rgb.b
    }
}

/// Bit `j` of a byte, counted most-significant-first.
pub open spec fn spec_bit(byte: u8, j: int) -> bool {
    (byte >> ((7 - j) as u8)) & 1 == 1
}

/// The full frame for one color: 24 pulse codes, one per bit, green then
/// red then blue, each byte most-significant-bit first.
pub open spec fn spec_frame(rgb: RGB) -> Seq<PulseCode> {
    Seq::new(24, |i: int| spec_code_for(spec_bit(spec_channel_byte(rgb, i / 8), i % 8)))
}

/// The zero-bit code as a value.
pub fn pulse_zero() -> (code: PulseCode)
    ensures
        code == spec_zero_code(),
{
    PulseCode { level1: true, length1: 12, level2: false, length2: 36 }
}

/// The one-bit code as a value.
pub fn pulse_one() -> (code: PulseCode)
    ensures
        code == spec_one_code(),
{
    PulseCode { level1: true, length1: 24, level2: false, length2: 24 }
}

impl RGB {
    /// Encode this color as its 24-code frame: green, red, then blue,
    /// each byte most-significant-bit first, each bit as its fixed zero
    /// or one pulse code.
    pub fn to_pulsecodes(&self) -> (codes: Vec<PulseCode>)
        ensures
            codes@ == spec_frame(*self),
            codes@.len() == 24,
    {
        let mut codes: Vec<PulseCode> = Vec::new();
        for i in 0..24usize
            invariant
                codes@.len() == i,
                forall|t: int| 0 <= t < i ==> codes@[t] == spec_frame(*self)[t],
        {
            let byte: u8 = if i < 8 {
                self.g
            } else if i < 16 {
                self.r
            } else {
                self.b
            };
            let j: usize = i % 8;
            let shift: u8 = (7 - j) as u8;
            let code: PulseCode = if (byte >> shift) & 1 == 1 {
                pulse_one()
            } else {
                pulse_zero()
            };
            proof {
                assert(i as int / 8 == if i < 8 { 0int } else if i < 16 { 1int } else { 2int });
                assert(byte == spec_channel_byte(*self, i as int / 8));
                assert(shift == (7 - (i as int % 8)) as u8);
                assert(code == spec_frame(*self)[i as int]);
            }
            codes.push(code);
        }
        assert(codes@ =~= spec_frame(*self));
        codes
    }
}

/// The idle time still owed before a frame may start at `now_micros`,
/// given the completion time of the previous transmission: the part of
/// [`MIN_IDLE_MICROS`] that has not elapsed yet.
pub open spec fn spec_idle_delay(last_sent_micros: u64, now_micros: u64) -> int {
    if now_micros - last_sent_micros >= MIN_IDLE_MICROS {
        0
    } else {
        MIN_IDLE_MICROS - (now_micros - last_sent_micros)
    }
}

/// The driver of the LED's data line.  It owns the physical output
/// exclusively — no other task may drive the same line — and tracks what
/// the protocol timing needs: the moment the last frame finished and the
/// color most recently handed over for transmission.
///
/// All instants are microseconds on one monotonic clock supplied by the
/// caller.
pub struct NeoPixelDriver {
    /// The color most recently handed over for transmission.
    pub led: RGB,
    /// When the last completed frame transmission finished.  Initially
    /// the construction time, so that the latch interval is honored even
    /// before the very first frame.
    pub last_data_sent: u64,
}

impl NeoPixelDriver {
    /// Set up a driver at construction time `now_micros`, holding black.
    pub fn new(now_micros: u64) -> (driver: Self)
        ensures
            driver.led == (RGB { r: 0, g: 0, b: 0 }),
            driver.last_data_sent == now_micros,
    {
        NeoPixelDriver { led: RGB { r: 0, g: 0, b: 0 }, last_data_sent: now_micros }
    }

    /// How long a transmission starting now must still wait so that the
    /// latch interval since the last frame is respected.  The caller
    /// suspends for exactly the returned time — transmission never starts
    /// early, and nothing waits once the interval has passed.
    pub fn required_idle_delay(&self, now_micros: u64) -> (delay: u64)
        requires
            self.last_data_sent <= now_micros,
        ensures
            delay == spec_idle_delay(self.last_data_sent, now_micros),
            delay <= MIN_IDLE_MICROS,
            now_micros + delay >= self.last_data_sent + MIN_IDLE_MICROS,
    {
        let elapsed = now_micros - self.last_data_sent;
        if elapsed >= MIN_IDLE_MICROS {
            0
        } else {
            MIN_IDLE_MICROS - elapsed
        }
    }

    /// Record `color` as the target and produce the frame to drive out.
    /// The transmission timestamp is untouched: it only moves when the
    /// peripheral reports the frame complete, via [`Self::mark_transmitted`].
    pub fn set_led(&mut self, color: RGB) -> (frame: Vec<PulseCode>)
        ensures
            final(self).led == color,
            final(self).last_data_sent == old(self).last_data_sent,
            frame@ == spec_frame(color),
    {
        self.led = color;
        self.led.to_pulsecodes()
    }

    /// Record that a frame transmission completed at `now_micros`.  The
    /// caller invokes this only on success; after a peripheral fault the
    /// timestamp stays put and the device is treated as still holding its
    /// last successfully transmitted color.
    pub fn mark_transmitted(&mut self, now_micros: u64)
        ensures
            final(self).last_data_sent == now_micros,
            final(self).led == old(self).led,
    {
        self.last_data_sent = now_micros;
    }
}

} // verus!
