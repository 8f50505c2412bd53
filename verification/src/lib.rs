//! Core logic for a single-wire addressable RGB LED lamp.
//!
//! The crate covers the parts of the device that carry real contracts:
//! the color model (hue/saturation/value to 8-bit red/green/blue, and hex
//! color parsing), the bit-level pulse encoding of a color frame together
//! with the inter-frame idle timing, the single-slot coalescing mailbox
//! that hands the latest requested color to the LED task, and the retrying
//! connectivity state machine.  Hardware access, network serving and task
//! scheduling are left to the surrounding application, which feeds plain
//! values (timestamps, link status, parsed requests) into these types.

pub mod channel;
pub mod color;
pub mod driver;
pub mod supervisor;
