//! Colors and the shared render state.
//!
//! A color channel is stored as the IEEE-754 binary32 bit pattern of its
//! value (what `f32::to_bits` returns). The library only stores, copies and
//! classifies channels; it never does floating-point arithmetic.
use vstd::prelude::*;

verus! {

/// Bit pattern of `1.0f32`.
pub const ONE_BITS: u32 = 0x3F80_0000;

/// Bit pattern of `0.0f32`.
pub const ZERO_BITS: u32 = 0;

/// Mask of the exponent field of a binary32 value.
pub const EXPONENT_MASK: u32 = 0x7F80_0000;

/// A channel is finite when its exponent field is not all ones
/// (all ones encodes an infinity or a NaN).
pub open spec fn finite_bits(b: u32) -> bool {
    b & EXPONENT_MASK != EXPONENT_MASK
}

/// A channel lies in `[0.0, 1.0]` (positive zero through one, subnormals
/// included): for non-negative binary32 values the bit pattern orders as the
/// value does.
pub open spec fn unit_bits(b: u32) -> bool {
    b <= ONE_BITS
}

/// An RGBA color, each channel the bit pattern of an `f32`.
#[derive(Clone, Copy, Debug, PartialEq, Eq, Structural)]
pub struct Color {
    pub r: u32,
    pub g: u32,
    pub b: u32,
    pub a: u32,
}

impl Color {
    /// All four channels are finite.
    pub open spec fn finite(self) -> bool {
        &&& finite_bits(self.r)
        &&& finite_bits(self.g)
        &&& finite_bits(self.b)
        &&& finite_bits(self.a)
    }

    /// All four channels lie in `[0.0, 1.0]`.
    pub open spec fn in_unit_range(self) -> bool {
        &&& unit_bits(self.r)
        &&& unit_bits(self.g)
        &&& unit_bits(self.b)
        &&& unit_bits(self.a)
    }

    /// Opaque red, the color a fresh state starts with.
    pub open spec fn spec_red() -> Color {
        Color { r: ONE_BITS, g: ZERO_BITS, b: ZERO_BITS, a: ONE_BITS }
    }

    /// Opaque green, the color the update rule switches to.
    pub open spec fn spec_green() -> Color {
        Color { r: ZERO_BITS, g: ONE_BITS, b: ZERO_BITS, a: ONE_BITS }
    }

    pub fn new(r: u32, g: u32, b: u32, a: u32) -> (c: Color)
        ensures
            c == (Color { r, g, b, a }),
    {
        Color { r, g, b, a }
    }

    pub fn red() -> (c: Color)
        ensures
            c == Color::spec_red(),
    {
        Color { r: ONE_BITS, g: ZERO_BITS, b: ZERO_BITS, a: ONE_BITS }
    }

    pub fn green() -> (c: Color)
        ensures
            c == Color::spec_green(),
    {
        Color { r: ZERO_BITS, g: ONE_BITS, b: ZERO_BITS, a: ONE_BITS }
    }

    /// Tests whether all four channels are finite.
    pub fn is_finite(&self) -> (r: bool)
        ensures
            r == self.finite(),
    {
        self.r & EXPONENT_MASK != EXPONENT_MASK && self.g & EXPONENT_MASK != EXPONENT_MASK
            && self.b & EXPONENT_MASK != EXPONENT_MASK && self.a & EXPONENT_MASK != EXPONENT_MASK
    }

    /// Tests whether all four channels lie in `[0.0, 1.0]`.
    pub fn is_in_unit_range(&self) -> (r: bool)
        ensures
            r == self.in_unit_range(),
    {
        self.r <= ONE_BITS && self.g <= ONE_BITS && self.b <= ONE_BITS && self.a <= ONE_BITS
    }
}

/// The mutable render state: the color the next frame is cleared to.
pub struct State {
    pub color: Color,
}

impl State {
    /// The state holds a valid color.
    pub open spec fn wf(self) -> bool {
        self.color.finite()
    }

    /// The state after the color is replaced by `c`.
    pub open spec fn spec_update_color(self, c: Color) -> State {
        State { color: c }
    }

    /// A fresh state, opaque red.
    pub fn new() -> (s: State)
        ensures
            s.color == Color::spec_red(),
            s.wf(),
    {
        proof {
            assert(ONE_BITS & EXPONENT_MASK != EXPONENT_MASK) by (bit_vector);
            assert(ZERO_BITS & EXPONENT_MASK != EXPONENT_MASK) by (bit_vector);
        }
        State { color: Color::red() }
    }

    /// Replaces the color as a whole.
    pub fn update_color(&mut self, new_color: Color)
        requires
            new_color.finite(),
        ensures
            *final(self) == old(self).spec_update_color(new_color),
            final(self).wf(),
    {
        self.color = new_color;
    }

    /// The current color, all four channels from this one state.
    pub fn get_color(&self) -> (c: Color)
        ensures
            c == self.color,
    {
        self.color
    }
}

/// Setting a color and reading it back gives that color.
pub proof fn lemma_color_round_trip(s: State, c: Color)
    requires
        c.finite(),
    ensures
        s.spec_update_color(c).color == c,
        s.spec_update_color(c).wf(),
{
}

/// A color with every channel in `[0.0, 1.0]` is finite, so it may always be
/// set, and reads back as itself.
pub proof fn lemma_unit_color_round_trip(s: State, c: Color)
    requires
        c.in_unit_range(),
    ensures
        c.finite(),
        s.spec_update_color(c).color == c,
{
    assert(forall|b: u32| b <= 0x3F80_0000u32 ==> b & 0x7F80_0000u32 != 0x7F80_0000u32)
        by (bit_vector);
}

} // verus!
