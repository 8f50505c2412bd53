//! Color value types and conversions.
//!
//! Colors arrive either as hue/saturation/value triples ([`HSV`]) or as hex
//! strings from the network boundary; both are turned into the 8-bit
//! red/green/blue channels ([`RGB`]) that the pulse encoder consumes.
//!
//! [`HSV`] is held in fixed-point thousandths so that the hexagon
//! conversion is exact integer arithmetic: hue in thousandths of a degree
//! (`0 ..= 359_999`), saturation and value in thousandths of full scale
//! (`0 ..= 1000`).

use vstd::prelude::*;
use vstd::string::StringSliceAdditionalSpecFns;

verus! {

/// A color as three 8-bit channels.
#[derive(Clone, Copy, PartialEq, Eq, Structural, Debug)]
pub struct RGB {
    pub r: u8,
    pub g: u8,
    pub b: u8,
}

impl Default for RGB {
    /// The default color is black: all channels off.
    fn default() -> (c: Self)
        ensures
            c == (RGB { r: 0, g: 0, b: 0 }),
    {
        RGB { r: 0, g: 0, b: 0 }
    }
}

/// A color as hue, saturation and value, in fixed-point thousandths.
///
/// `h` counts thousandths of a degree and must lie below one full turn
/// (`360_000`); a hue of exactly 360 degrees is out of the domain and must
/// be wrapped by the caller.  `s` and `v` count thousandths of full scale,
/// at most `1000`.
#[derive(Clone, Copy, PartialEq, Eq, Structural, Debug)]
pub struct HSV {
    pub h: u32,
    pub s: u32,
    pub v: u32,
}

impl Default for HSV {
    /// The default is black: zero hue, zero saturation, zero value.
    fn default() -> (c: Self)
        ensures
            c == (HSV { h: 0, s: 0, v: 0 }),
    {
        HSV { h: 0, s: 0, v: 0 }
    }
}

impl HSV {
    /// The whole triple lies in the documented domain.
    pub open spec fn wf(self) -> bool {
        self.h < 360_000 && self.s <= 1000 && self.v <= 1000
    }

    /// Chroma `c = v * s`, in millionths of full scale.
    pub open spec fn spec_chroma(self) -> int {
        self.v * self.s
    }

    /// Distance of the hue from the centre of its 120-degree double
    /// sector, in thousandths of a degree: the fixed-point form of
    /// `|h / 60 mod 2 - 1|` scaled by 60 degrees.
    pub open spec fn spec_tri_dist(self) -> int {
        let off = self.h % 120_000;
        if off >= 60_000 {
            off - 60_000
        } else {
            60_000 - off
        }
    }

    /// The intermediate channel `x = c * (1 - |h / 60 mod 2 - 1|)`,
    /// in millionths of full scale, truncated.
    pub open spec fn spec_x(self) -> int {
        self.spec_chroma() * (60_000 - self.spec_tri_dist()) / 60_000
    }

    /// The channel triple before the match value is added, selected by the
    /// 60-degree sector the hue falls in.  The comparison chain is fixed:
    /// a hue exactly on a sector boundary falls into the later arm.
    pub open spec fn spec_base(self) -> (int, int, int) {
        let c = self.spec_chroma();
        let x = self.spec_x();
        if self.h < 60_000 {
            (c, x, 0)
        } else if self.h < 120_000 {
            (x, c, 0)
        } else if self.h < 180_000 {
            (0, c, x)
        } else if self.h < 240_000 {
            (0, x, c)
        } else if self.h < 300_000 {
            (x, 0, c)
        } else {
            (c, 0, x)
        }
    }

    /// The match value `m = v - c`, in millionths of full scale.
    pub open spec fn spec_match_value(self) -> int {
        self.v * 1000 - self.spec_chroma()
    }

    /// One fixed-point channel (in millionths) scaled to an 8-bit channel,
    /// truncating rather than rounding.
    pub open spec fn spec_scale_to_byte(q: int) -> int {
        q * 255 / 1_000_000
    }

    /// The full conversion: the red, green and blue channels that
    /// [`HSV::to_rgb`] returns, as mathematical integers.
    pub open spec fn spec_rgb(self) -> (int, int, int) {
        let base = self.spec_base();
        let m = self.spec_match_value();
        (
            Self::spec_scale_to_byte(base.0 + m),
            Self::spec_scale_to_byte(base.1 + m),
            Self::spec_scale_to_byte(base.2 + m),
        )
    }

    /// Every channel of the conversion lies in `[0, 255]` for every
    /// well-formed input.
    pub proof fn lemma_rgb_channels_in_range(self)
        requires
            self.wf(),
        ensures
            0 <= self.spec_rgb().0 <= 255,
            0 <= self.spec_rgb().1 <= 255,
            0 <= self.spec_rgb().2 <= 255,
    {
        let c = self.spec_chroma();
        let d = self.spec_tri_dist();
        let x = self.spec_x();
        let m = self.spec_match_value();
        assert(0 <= c <= 1_000_000 && c <= self.v * 1000) by (nonlinear_arith)
            requires
                c == self.v * self.s,
                self.s <= 1000,
                self.v <= 1000;
        assert(0 <= d <= 60_000);
        assert(0 <= x <= c) by (nonlinear_arith)
            requires
                x == c * (60_000 - d) / 60_000,
                0 <= d <= 60_000,
                0 <= c;
        assert(0 <= m && c + m <= 1_000_000);
        let base = self.spec_base();
        assert(0 <= base.0 + m <= 1_000_000);
        assert(0 <= base.1 + m <= 1_000_000);
        assert(0 <= base.2 + m <= 1_000_000);
        Self::lemma_scale_to_byte_in_range(base.0 + m);
        Self::lemma_scale_to_byte_in_range(base.1 + m);
        Self::lemma_scale_to_byte_in_range(base.2 + m);
    }

    /// Scaling a fixed-point channel in `[0, 1_000_000]` to a byte lands
    /// in `[0, 255]`.
    proof fn lemma_scale_to_byte_in_range(q: int)
        requires
            0 <= q <= 1_000_000,
        ensures
            0 <= Self::spec_scale_to_byte(q) <= 255,
    {
        assert(0 <= q * 255 / 1_000_000 <= 255) by (nonlinear_arith)
            requires
                0 <= q <= 1_000_000;
    }

    /// Convert to 8-bit red/green/blue by the standard hexagon logic:
    /// chroma `c = v * s`, intermediate `x` from the position of the hue
    /// within its double sector, base triple selected by 60-degree sector,
    /// match value `m = v - c` added to each, scaled by 255 and truncated.
    pub fn to_rgb(&self) -> (rgb: RGB)
        requires
            self.wf(),
        ensures
            rgb.r == self.spec_rgb().0,
            rgb.g == self.spec_rgb().1,
            rgb.b == self.spec_rgb().2,
    {
        proof {
            self.lemma_rgb_channels_in_range();
        }
        let s = self.s as u64;
        let v = self.v as u64;
        assert(v * s <= 1_000_000 && v * s <= v * 1000) by (nonlinear_arith)
            requires
                s <= 1000,
                v <= 1000;
        let c: u64 = v * s;
        let off: u64 = (self.h as u64) % 120_000;
        let d: u64 = if off >= 60_000 {
            off - 60_000
        } else {
            60_000 - off
        };
        assert(c * (60_000 - d) <= 60_000_000_000) by (nonlinear_arith)
            requires
                c <= 1_000_000,
                d <= 60_000;
        let x: u64 = c * (60_000 - d) / 60_000;
        assert(x <= c) by (nonlinear_arith)
            requires
                x == c * (60_000 - d) / 60_000,
                0 <= d <= 60_000,
                0 <= c;
        let (r1, g1, b1): (u64, u64, u64) = if self.h < 60_000 {
            (c, x, 0)
        } else if self.h < 120_000 {
            (x, c, 0)
        } else if self.h < 180_000 {
            (0, c, x)
        } else if self.h < 240_000 {
            (0, x, c)
        } else if self.h < 300_000 {
            (x, 0, c)
        } else {
            (c, 0, x)
        };
        let m: u64 = v * 1000 - c;
        let r: u64 = (r1 + m) * 255 / 1_000_000;
        let g: u64 = (g1 + m) * 255 / 1_000_000;
        let b: u64 = (b1 + m) * 255 / 1_000_000;
        RGB { r: r as u8, g: g as u8, b: b as u8 }
    }
}

/// Why a hex color string was rejected.
#[derive(Clone, Copy, PartialEq, Eq, Structural, Debug)]
pub enum ColorParseError {
    /// The text is not an optional `#` followed by exactly six
    /// hexadecimal digits.
    InvalidFormat,
}

/// The ASCII byte `#`.
pub const BYTE_HASH: u8 = 35;

/// The ASCII byte `0`.
pub const BYTE_0: u8 = 48;

/// The ASCII byte `9`.
pub const BYTE_9: u8 = 57;

/// The ASCII byte `A`.
pub const BYTE_UPPER_A: u8 = 65;

/// The ASCII byte `F`.
pub const BYTE_UPPER_F: u8 = 70;

/// The ASCII byte `a`.
pub const BYTE_LOWER_A: u8 = 97;

/// The ASCII byte `f`.
pub const BYTE_LOWER_F: u8 = 102;

/// Whether a byte is an ASCII hexadecimal digit.
pub open spec fn spec_is_hex_digit(byte: u8) -> bool {
    (BYTE_0 <= byte && byte <= BYTE_9) || (BYTE_LOWER_A <= byte && byte <= BYTE_LOWER_F) || (
    BYTE_UPPER_A <= byte && byte <= BYTE_UPPER_F)
}

/// The value of an ASCII hexadecimal digit.
pub open spec fn spec_hex_digit_value(byte: u8) -> int {
    if BYTE_0 <= byte && byte <= BYTE_9 {
        byte - BYTE_0
    } else if BYTE_LOWER_A <= byte && byte <= BYTE_LOWER_F {
        byte - BYTE_LOWER_A + 10
    } else {
        byte - BYTE_UPPER_A + 10
    }
}

/// The input with a single optional leading `#` removed.
pub open spec fn spec_strip_hash(s: Seq<u8>) -> Seq<u8> {
    if s.len() > 0 && s[0] == BYTE_HASH {
        s.skip(1)
    } else {
        s
    }
}

/// The byte encoded by the digit pair starting at position `i`.
pub open spec fn spec_hex_pair_value(s: Seq<u8>, i: int) -> int {
    16 * spec_hex_digit_value(s[i]) + spec_hex_digit_value(s[i + 1])
}

/// What a hex color string denotes: after a single optional leading `#`
/// there must be exactly six hexadecimal digits, read as the red, green
/// and blue channels in that order; anything else denotes no color.
pub open spec fn spec_parse_hex_color(s: Seq<u8>) -> Option<RGB> {
    let t = spec_strip_hash(s);
    if t.len() == 6 && (forall|i: int| 0 <= i < 6 ==> spec_is_hex_digit(#[trigger] t[i])) {
        Some(
            RGB {
                r: spec_hex_pair_value(t, 0) as u8,
                g: spec_hex_pair_value(t, 2) as u8,
                b: spec_hex_pair_value(t, 4) as u8,
            },
        )
    } else {
        None
    }
}

/// The value of one hexadecimal digit byte, or `None` for any other byte.
fn hex_digit_value(byte: u8) -> (value: Option<u8>)
    ensures
        value is Some <==> spec_is_hex_digit(byte),
        spec_is_hex_digit(byte) ==> value == Some((spec_hex_digit_value(byte)) as u8),
{
    if BYTE_0 <= byte && byte <= BYTE_9 {
        Some(byte - BYTE_0)
    } else if BYTE_LOWER_A <= byte && byte <= BYTE_LOWER_F {
        Some(byte - BYTE_LOWER_A + 10)
    } else if BYTE_UPPER_A <= byte && byte <= BYTE_UPPER_F {
        Some(byte - BYTE_UPPER_A + 10)
    } else {
        None
    }
}

/// Parse a hex color string: an optional leading `#`, then exactly six
/// hexadecimal digits, two per channel, red then green then blue.  Any
/// other shape — wrong length, a sign, a non-hex or non-ASCII character —
/// is rejected as [`ColorParseError::InvalidFormat`].  Pure: no side
/// effects.
pub fn parse_hex_color(text: &str) -> (parsed: Result<RGB, ColorParseError>)
    ensures
        match parsed {
            Ok(rgb) => spec_parse_hex_color(text.spec_bytes()) == Some(rgb),
            Err(e) => spec_parse_hex_color(text.spec_bytes()) is None && e
                == ColorParseError::InvalidFormat,
        },
{
    let bytes: &[u8] = text.as_bytes();
    let len = bytes.len();
    let start: usize = if len > 0 && bytes[0] == BYTE_HASH {
        1
    } else {
        0
    };
    let ghost t: Seq<u8> = spec_strip_hash(text.spec_bytes());
    proof {
        assert(t =~= bytes@.skip(start as int));
    }
    if len - start != 6 {
        return Err(ColorParseError::InvalidFormat);
    }
    let mut digits: [u8; 6] = [0, 0, 0, 0, 0, 0];
    for k in 0..6usize
        invariant
            bytes@ == text.spec_bytes(),
            bytes@.len() == len,
            start + 6 == len,
            t == spec_strip_hash(text.spec_bytes()),
            t == bytes@.skip(start as int),
            forall|i: int| 0 <= i < k ==> spec_is_hex_digit(#[trigger] t[i]) && digits@[i]
                == spec_hex_digit_value(t[i]),
    {
        match hex_digit_value(bytes[start + k]) {
            Some(value) => {
                digits[k] = value;
            },
            None => {
                proof {
                    assert(!spec_is_hex_digit(t[k as int]));
                }
                return Err(ColorParseError::InvalidFormat);
            },
        }
    }
    let rgb = RGB {
        r: 16 * digits[0] + digits[1],
        g: 16 * digits[2] + digits[3],
        b: 16 * digits[4] + digits[5],
    };
    assert(spec_parse_hex_color(text.spec_bytes()) == Some(rgb));
    Ok(rgb)
}

} // verus!
