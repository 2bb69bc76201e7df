//! Core value types: colors, the system appearance, and geometry.
//!
//! Lengths and coordinates are 32-bit IEEE floats in logical pixels; the
//! library carries them as their bit patterns ([`F32Bits`]) and never does
//! arithmetic on them.

use vstd::prelude::*;

verus! {

/// The IEEE-754 bit pattern of a 32-bit float (`f32::to_bits`).
pub type F32Bits = u32;

/// The IEEE-754 bit pattern of a 64-bit float (`f64::to_bits`).
pub type F64Bits = u64;

/// An 8-bit-per-channel RGBA color.
#[derive(Debug, Clone, Copy, PartialEq, Eq, Hash, Structural)]
pub struct Color {
    /// Red channel.
    pub r: u8,
    /// Green channel.
    pub g: u8,
    /// Blue channel.
    pub b: u8,
    /// Alpha channel.
    pub a: u8,
}

/// The packed ARGB value of a color: alpha, red, green, blue from the high
/// byte down.
pub open spec fn spec_argb(c: Color) -> nat {
    c.a as nat * 0x1000000 + c.r as nat * 0x10000 + c.g as nat * 0x100 + c.b as nat
}

/// The packed ARGB value of a color as a 32-bit word.
pub open spec fn argb_u32(c: Color) -> u32 {
    spec_argb(c) as u32
}

impl Color {
    /// An opaque color.
    pub fn rgb(r: u8, g: u8, b: u8) -> (c: Color)
        ensures
            c == (Color { r, g, b, a: 255 }),
    {
        Color { r, g, b, a: 255 }
    }

    /// A color with the given alpha.
    pub fn rgba(r: u8, g: u8, b: u8, a: u8) -> (c: Color)
        ensures
            c == (Color { r, g, b, a }),
    {
        Color { r, g, b, a }
    }

    /// The color packed as `0xAARRGGBB`.
    pub fn to_argb_u32(self) -> (v: u32)
        ensures
            v as nat == spec_argb(self),
            v == argb_u32(self),
    {
        let a: u32 = self.a as u32;
        let r: u32 = self.r as u32;
        let g: u32 = self.g as u32;
        let b: u32 = self.b as u32;
        assert((a << 24u32) | (r << 16u32) | (g << 8u32) | b == a * 0x1000000 + r * 0x10000 + g
            * 0x100 + b) by (bit_vector)
            requires
                a < 256,
                r < 256,
                g < 256,
                b < 256,
        ;
        (a << 24u32) | (r << 16u32) | (g << 8u32) | b
    }
}

/// Different colors pack to different words: the packed form loses nothing.
pub proof fn lemma_argb_injective(c1: Color, c2: Color)
    requires
        argb_u32(c1) == argb_u32(c2),
    ensures
        c1 == c2,
{
    let (a1, r1, g1, b1) = (c1.a as int, c1.r as int, c1.g as int, c1.b as int);
    let (a2, r2, g2, b2) = (c2.a as int, c2.r as int, c2.g as int, c2.b as int);
    assert(spec_argb(c1) < 0x1_0000_0000 && spec_argb(c2) < 0x1_0000_0000);
    assert(spec_argb(c1) == spec_argb(c2));
    assert(a1 == a2 && r1 == r2 && g1 == g2 && b1 == b2) by (nonlinear_arith)
        requires
            a1 * 0x1000000 + r1 * 0x10000 + g1 * 0x100 + b1 == a2 * 0x1000000 + r2 * 0x10000 + g2 * 0x100 + b2,
            0 <= a1 < 256, 0 <= r1 < 256, 0 <= g1 < 256, 0 <= b1 < 256,
            0 <= a2 < 256, 0 <= r2 < 256, 0 <= g2 < 256, 0 <= b2 < 256,
    ;
}

/// The system appearance.
#[derive(Debug, Clone, Copy, PartialEq, Eq, Hash, Structural)]
pub enum ColorScheme {
    /// Light appearance.
    Light,
    /// Dark appearance.
    Dark,
}

impl ColorScheme {
    /// Whether this is the dark appearance.
    pub fn is_dark(self) -> (r: bool)
        ensures
            r == (self == ColorScheme::Dark),
    {
        match self {
            ColorScheme::Light => false,
            ColorScheme::Dark => true,
        }
    }
}

/// A point in logical pixels.
#[derive(Debug, Clone, Copy, PartialEq, Eq, Hash, Structural)]
pub struct Point {
    /// Horizontal coordinate.
    pub x: F32Bits,
    /// Vertical coordinate.
    pub y: F32Bits,
}

/// A size in logical pixels.
#[derive(Debug, Clone, Copy, PartialEq, Eq, Hash, Structural)]
pub struct Size {
    /// Width.
    pub width: F32Bits,
    /// Height.
    pub height: F32Bits,
}

impl Size {
    /// A size from its width and height.
    pub fn new(width: F32Bits, height: F32Bits) -> (s: Size)
        ensures
            s == (Size { width, height }),
    {
        Size { width, height }
    }
}

/// A rectangle: origin and size.
#[derive(Debug, Clone, Copy, PartialEq, Eq, Hash, Structural)]
pub struct Rect {
    /// Top-left corner.
    pub origin: Point,
    /// Extent.
    pub size: Size,
}

/// Insets from each edge in logical pixels.
#[derive(Debug, Clone, Copy, PartialEq, Eq, Hash, Structural)]
pub struct EdgeInsets {
    /// Top inset.
    pub top: F32Bits,
    /// Left inset.
    pub left: F32Bits,
    /// Bottom inset.
    pub bottom: F32Bits,
    /// Right inset.
    pub right: F32Bits,
}

impl EdgeInsets {
    /// No inset on any edge.
    pub open spec fn spec_zero() -> EdgeInsets {
        EdgeInsets { top: 0, left: 0, bottom: 0, right: 0 }
    }

    /// No inset on any edge.
    pub fn zero() -> (r: EdgeInsets)
        ensures
            r == Self::spec_zero(),
    {
        EdgeInsets { top: 0, left: 0, bottom: 0, right: 0 }
    }
}

} // verus!
