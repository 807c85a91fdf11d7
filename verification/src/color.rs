//! An RGBA color in the sRGB color space, held with byte-exact channels,
//! together with its packed 32-bit integer encodings.
//!
//! A channel byte `k` stands for the encoded intensity `k / 255`; `0` is
//! darkest, `255` brightest. The floating-point channel view, and the
//! transfer to linear light, live outside the verified core.

use vstd::prelude::*;

verus! {

/// An RGBA color in the sRGB color space, one byte per channel.
#[derive(Copy, Clone, Debug, PartialEq, Eq, Structural)]
pub struct Color {
    /// Red component
    pub r: u8,
    /// Green component
    pub g: u8,
    /// Blue component
    pub b: u8,
    /// Alpha component
    pub a: u8,
}

/// The packed `0xRRGGBBAA` encoding of four channel bytes:
/// red in bits 24..=31, green in 16..=23, blue in 8..=15, alpha in 0..=7.
pub open spec fn rgba_packed(r: u8, g: u8, b: u8, a: u8) -> u32 {
    ((r as u32) << 24) | ((g as u32) << 16) | ((b as u32) << 8) | (a as u32)
}

/// The packed `0x00RRGGBB` encoding of three channel bytes:
/// red in bits 16..=23, green in 8..=15, blue in 0..=7, no alpha.
pub open spec fn rgb_packed(r: u8, g: u8, b: u8) -> u32 {
    ((r as u32) << 16) | ((g as u32) << 8) | (b as u32)
}

/// The red byte of a packed `0xRRGGBBAA` value.
pub open spec fn rgba_red(c: u32) -> u8 {
    (((c >> 24) & 0xFF) as u8)
}

/// The green byte of a packed `0xRRGGBBAA` value.
pub open spec fn rgba_green(c: u32) -> u8 {
    (((c >> 16) & 0xFF) as u8)
}

/// The blue byte of a packed `0xRRGGBBAA` value.
pub open spec fn rgba_blue(c: u32) -> u8 {
    (((c >> 8) & 0xFF) as u8)
}

/// The alpha byte of a packed `0xRRGGBBAA` value.
pub open spec fn rgba_alpha(c: u32) -> u8 {
    ((c & 0xFF) as u8)
}

/// The red byte of a packed `0x00RRGGBB` value.
pub open spec fn rgb_red(c: u32) -> u8 {
    (((c >> 16) & 0xFF) as u8)
}

/// The green byte of a packed `0x00RRGGBB` value.
pub open spec fn rgb_green(c: u32) -> u8 {
    (((c >> 8) & 0xFF) as u8)
}

/// The blue byte of a packed `0x00RRGGBB` value.
pub open spec fn rgb_blue(c: u32) -> u8 {
    ((c & 0xFF) as u8)
}

impl Color {
    /// Fully opaque white.
    pub fn white() -> (c: Color)
        ensures
            c == (Color { r: 255u8, g: 255u8, b: 255u8, a: 255u8 }),
    {
        Color { r: 255, g: 255, b: 255, a: 255 }
    }

    /// Fully opaque black.
    pub fn black() -> (c: Color)
        ensures
            c == (Color { r: 0u8, g: 0u8, b: 0u8, a: 255u8 }),
    {
        Color { r: 0, g: 0, b: 0, a: 255 }
    }

    /// Create a new `Color` from four channel bytes in the range `[0-255]`.
    pub fn from_rgba(r: u8, g: u8, b: u8, a: u8) -> (c: Color)
        ensures
            c == (Color { r, g, b, a }),
    {
        Color { r, g, b, a }
    }

    /// Create a new `Color` from three channel bytes in the range `[0-255]`,
    /// with the alpha component fixed to 255 (opaque).
    pub fn from_rgb(r: u8, g: u8, b: u8) -> (c: Color)
        ensures
            c == (Color { r, g, b, a: 255u8 }),
    {
        Color { r, g, b, a: 255 }
    }

    /// Return a tuple of four bytes in the range `[0-255]` with the
    /// `Color`'s components.
    pub fn to_rgba(self) -> (t: (u8, u8, u8, u8))
        ensures
            t == (self.r, self.g, self.b, self.a),
    {
        (self.r, self.g, self.b, self.a)
    }

    /// Return a tuple of three bytes in the range `[0-255]` with the
    /// `Color`'s components, ignoring the alpha term.
    pub fn to_rgb(self) -> (t: (u8, u8, u8))
        ensures
            t == (self.r, self.g, self.b),
    {
        (self.r, self.g, self.b)
    }

    /// Convert a packed `u32` containing `0xRRGGBBAA` into a `Color`.
    pub fn from_rgba_u32(c: u32) -> (res: Color)
        ensures
            res == (Color {
                r: rgba_red(c),
                g: rgba_green(c),
                b: rgba_blue(c),
                a: rgba_alpha(c),
            }),
    {
        let rp = ((c & 0xFF00_0000u32) >> 24) as u8;
        let gp = ((c & 0x00FF_0000u32) >> 16) as u8;
        let bp = ((c & 0x0000_FF00u32) >> 8) as u8;
        let ap = (c & 0x0000_00FFu32) as u8;
        proof {
            assert(((c & 0xFF00_0000u32) >> 24) as u8 == (((c >> 24) & 0xFF) as u8))
                by (bit_vector);
            assert(((c & 0x00FF_0000u32) >> 16) as u8 == (((c >> 16) & 0xFF) as u8))
                by (bit_vector);
            assert(((c & 0x0000_FF00u32) >> 8) as u8 == (((c >> 8) & 0xFF) as u8))
                by (bit_vector);
        }
        Color { r: rp, g: gp, b: bp, a: ap }
    }

    /// Convert a packed `u32` containing `0x00RRGGBB` into a `Color`, with
    /// the alpha component fixed to 255 (opaque). This lets you write a
    /// color as `Color::from_rgb_u32(0xCD09AA)` if you want.
    pub fn from_rgb_u32(c: u32) -> (res: Color)
        ensures
            res == (Color { r: rgb_red(c), g: rgb_green(c), b: rgb_blue(c), a: 255u8 }),
    {
        let rp = ((c & 0x00FF_0000u32) >> 16) as u8;
        let gp = ((c & 0x0000_FF00u32) >> 8) as u8;
        let bp = (c & 0x0000_00FFu32) as u8;
        proof {
            assert(((c & 0x00FF_0000u32) >> 16) as u8 == (((c >> 16) & 0xFF) as u8))
                by (bit_vector);
            assert(((c & 0x0000_FF00u32) >> 8) as u8 == (((c >> 8) & 0xFF) as u8))
                by (bit_vector);
        }
        Color { r: rp, g: gp, b: bp, a: 255 }
    }

    /// Convert a `Color` into a packed `u32` containing `0xRRGGBBAA` as bytes.
    pub fn to_rgba_u32(self) -> (res: u32)
        ensures
            res == rgba_packed(self.r, self.g, self.b, self.a),
    {
        let rp = (self.r as u32) << 24;
        let gp = (self.g as u32) << 16;
        let bp = (self.b as u32) << 8;
        let ap = self.a as u32;
        rp | gp | bp | ap
    }

    /// Convert a `Color` into a packed `u32` containing `0x00RRGGBB` as bytes;
    /// the alpha term is discarded.
    pub fn to_rgb_u32(self) -> (res: u32)
        ensures
            res == rgb_packed(self.r, self.g, self.b),
    {
        let rp = (self.r as u32) << 16;
        let gp = (self.g as u32) << 8;
        let bp = self.b as u32;
        rp | gp | bp
    }
}

/// For every byte tuple, building a color from it and reading the bytes
/// back is the identity: no channel is altered, clamped or reordered on the
/// way through the byte-exact representation.
pub proof fn lemma_byte_round_trip(r: u8, g: u8, b: u8, a: u8)
    ensures
        ({
            let c = Color { r, g, b, a };
            (c.r, c.g, c.b, c.a) == (r, g, b, a)
        }),
{
}

/// Unpacking a packed `0xRRGGBBAA` value recovers exactly the four channel
/// bytes that were packed: for every byte tuple, the conversion to the packed
/// form and back is the identity.
pub proof fn lemma_rgba_unpack_of_pack(r: u8, g: u8, b: u8, a: u8)
    by (bit_vector)
    ensures
        rgba_red(rgba_packed(r, g, b, a)) == r,
        rgba_green(rgba_packed(r, g, b, a)) == g,
        rgba_blue(rgba_packed(r, g, b, a)) == b,
        rgba_alpha(rgba_packed(r, g, b, a)) == a,
{
}

/// Packing the four channel bytes extracted from a packed `0xRRGGBBAA` value
/// gives back that value: no bit of the packed form is lost in unpacking.
pub proof fn lemma_rgba_pack_of_unpack(c: u32)
    by (bit_vector)
    ensures
        rgba_packed(rgba_red(c), rgba_green(c), rgba_blue(c), rgba_alpha(c)) == c,
{
}

/// For every byte-exact color, converting to the packed `0xRRGGBBAA` form
/// and back reproduces the color unchanged.
pub proof fn lemma_packed_round_trip(c: Color)
    ensures
        (Color {
            r: rgba_red(rgba_packed(c.r, c.g, c.b, c.a)),
            g: rgba_green(rgba_packed(c.r, c.g, c.b, c.a)),
            b: rgba_blue(rgba_packed(c.r, c.g, c.b, c.a)),
            a: rgba_alpha(rgba_packed(c.r, c.g, c.b, c.a)),
        }) == c,
{
    lemma_rgba_unpack_of_pack(c.r, c.g, c.b, c.a);
}

/// Unpacking a packed `0x00RRGGBB` value recovers exactly the three channel
/// bytes that were packed.
pub proof fn lemma_rgb_unpack_of_pack(r: u8, g: u8, b: u8)
    by (bit_vector)
    ensures
        rgb_red(rgb_packed(r, g, b)) == r,
        rgb_green(rgb_packed(r, g, b)) == g,
        rgb_blue(rgb_packed(r, g, b)) == b,
{
}

/// A packed `0x00RRGGBB` value reads the same channel bytes as the packed
/// `0xRRGGBBAA` value made by shifting it up one byte and setting the alpha
/// byte to 255: `from_rgb_u32(c)` equals `from_rgba_u32((c << 8) | 0xFF)`
/// for every `c` with a clear top byte.
pub proof fn lemma_rgb_u32_as_rgba_u32(c: u32)
    by (bit_vector)
    requires
        c < 0x0100_0000u32,
    ensures
        rgb_red(c) == rgba_red((c << 8) | 0xFF),
        rgb_green(c) == rgba_green((c << 8) | 0xFF),
        rgb_blue(c) == rgba_blue((c << 8) | 0xFF),
        255u8 == rgba_alpha((c << 8) | 0xFF),
{
}

} // verus!
