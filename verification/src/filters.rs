//! Drop-shadow, blur and glow filter records of the SWF format, and the
//! flag bytes that they carry.
use vstd::prelude::*;

verus! {

/// An RGBA color.
#[derive(Clone, Copy, Debug, PartialEq, Eq, Structural)]
pub struct Color {
    pub r: u8,
    pub g: u8,
    pub b: u8,
    pub a: u8,
}

/// A 16.16 fixed-point number, held as its raw 32-bit representation.
#[derive(Clone, Copy, Debug, PartialEq, Eq, Structural)]
pub struct Fixed16(pub i32);

/// An 8.8 fixed-point number, held as its raw 16-bit representation.
#[derive(Clone, Copy, Debug, PartialEq, Eq, Structural)]
pub struct Fixed8(pub i16);

/// An axis-aligned rectangle given by its extremes.
#[derive(Clone, Copy, Debug, PartialEq, Eq, Structural)]
pub struct Rectangle<T> {
    pub x_min: T,
    pub x_max: T,
    pub y_min: T,
    pub y_max: T,
}

/// `true` when every bit of `mask` is set in `bits`.
pub open spec fn has_bits(bits: u8, mask: u8) -> bool {
    bits & mask == mask
}

/// Bit of a drop-shadow flag byte: the shadow is drawn inside the object.
pub const INNER_SHADOW: u8 = 0x80;
/// Bit of a drop-shadow or glow flag byte: knock the object out.
pub const KNOCKOUT: u8 = 0x40;
/// Bit of a drop-shadow or glow flag byte: draw the source object too.
pub const COMPOSITE_SOURCE: u8 = 0x20;
/// Bits of a drop-shadow or glow flag byte that hold the number of passes.
pub const PASSES: u8 = 0x1f;
/// Bit of a glow flag byte: the glow is drawn inside the object.
pub const INNER_GLOW: u8 = 0x80;
/// Bits of a blur flag byte that hold the number of passes.
pub const BLUR_PASSES: u8 = 0xf8;

/// The flag byte of a drop-shadow filter.
#[derive(Clone, Copy, Debug, PartialEq, Eq, Structural)]
pub struct DropShadowFilterFlags {
    pub bits: u8,
}

/// The flag byte of a glow filter.
#[derive(Clone, Copy, Debug, PartialEq, Eq, Structural)]
pub struct GlowFilterFlags {
    pub bits: u8,
}

/// The flag byte of a blur filter.
#[derive(Clone, Copy, Debug, PartialEq, Eq, Structural)]
pub struct BlurFilterFlags {
    pub bits: u8,
}

impl DropShadowFilterFlags {
    /// The flags that hold `num_passes` passes and nothing else.
    pub fn from_passes(num_passes: u8) -> (flags: Self)
        requires
            num_passes <= 31,
        ensures
            flags.bits == num_passes,
            flags.bits & PASSES == num_passes,
    {
        assert(num_passes <= 31 ==> num_passes & 0x1f == num_passes) by (bit_vector);
        DropShadowFilterFlags { bits: num_passes }
    }
}

impl GlowFilterFlags {
    /// The flags that hold `num_passes` passes and nothing else.
    pub fn from_passes(num_passes: u8) -> (flags: Self)
        requires
            num_passes <= 31,
        ensures
            flags.bits == num_passes,
    {
        GlowFilterFlags { bits: num_passes }
    }

    /// Sets or clears the bits of `mask`, leaving the others as they were.
    pub fn set(&mut self, mask: u8, value: bool)
        ensures
            final(self).bits == (if value {
                old(self).bits | mask
            } else {
                old(self).bits & !mask
            }),
    {
        if value {
            self.bits = self.bits | mask;
        } else {
            self.bits = self.bits & !mask;
        }
    }
}

impl BlurFilterFlags {
    /// The flags that hold `num_passes` passes, stored in the top five bits.
    pub fn from_passes(num_passes: u8) -> (flags: Self)
        requires
            num_passes <= 31,
        ensures
            flags.bits == num_passes * 8,
            flags.bits >> 3u8 == num_passes,
    {
        assert(num_passes <= 31 ==> (num_passes << 3u8) == num_passes * 8 && ((num_passes
            << 3u8) >> 3u8) == num_passes) by (bit_vector);
        BlurFilterFlags { bits: num_passes << 3 }
    }
}

/// A blur filter record.
#[derive(Clone, Copy, Debug, PartialEq, Eq, Structural)]
pub struct BlurFilter {
    pub blur_x: Fixed16,
    pub blur_y: Fixed16,
    pub flags: BlurFilterFlags,
}

/// A glow filter record.
#[derive(Clone, Copy, Debug, PartialEq, Eq, Structural)]
pub struct GlowFilter {
    pub color: Color,
    pub blur_x: Fixed16,
    pub blur_y: Fixed16,
    pub strength: Fixed8,
    pub flags: GlowFilterFlags,
}

/// A drop-shadow filter record.
#[derive(Clone, Copy, Debug, PartialEq, Eq, Structural)]
pub struct DropShadowFilter {
    pub color: Color,
    pub blur_x: Fixed16,
    pub blur_y: Fixed16,
    pub angle: Fixed16,
    pub distance: Fixed16,
    pub strength: Fixed8,
    pub flags: DropShadowFilterFlags,
}

impl DropShadowFilter {
    pub fn is_inner(&self) -> (r: bool)
        ensures
            r == has_bits(self.flags.bits, INNER_SHADOW),
    {
        self.flags.bits & INNER_SHADOW == INNER_SHADOW
    }

    pub fn is_knockout(&self) -> (r: bool)
        ensures
            r == has_bits(self.flags.bits, KNOCKOUT),
    {
        self.flags.bits & KNOCKOUT == KNOCKOUT
    }

    pub fn num_passes(&self) -> (r: u8)
        ensures
            r == self.flags.bits & PASSES,
            r <= 31,
    {
        let bits = self.flags.bits;
        assert(bits & 0x1f <= 31) by (bit_vector);
        bits & PASSES
    }

    pub fn hide_object(&self) -> (r: bool)
        ensures
            r == !has_bits(self.flags.bits, COMPOSITE_SOURCE),
    {
        !(self.flags.bits & COMPOSITE_SOURCE == COMPOSITE_SOURCE)
    }

    /// The blur that the shadow is drawn with.
    pub fn inner_blur_filter(&self) -> (f: BlurFilter)
        ensures
            f.blur_x == self.blur_x,
            f.blur_y == self.blur_y,
            f.flags.bits == (self.flags.bits & PASSES) * 8,
    {
        BlurFilter {
            blur_x: self.blur_x,
            blur_y: self.blur_y,
            flags: BlurFilterFlags::from_passes(self.num_passes()),
        }
    }

    /// The glow that draws the shadow before it is offset.
    pub fn inner_glow_filter(&self) -> (f: GlowFilter)
        ensures
            f.color == self.color,
            f.blur_x == self.blur_x,
            f.blur_y == self.blur_y,
            f.strength == self.strength,
            f.flags.bits == self.flags.bits,
    {
        let mut flags = GlowFilterFlags::from_passes(self.num_passes());
        flags.set(INNER_GLOW, self.is_inner());
        flags.set(KNOCKOUT, self.is_knockout());
        flags.set(COMPOSITE_SOURCE, !self.hide_object());
        let ghost b = self.flags.bits;
        let ghost f0 = b & 0x1f;
        let ghost f1 = if b & 0x80 == 0x80 { f0 | 0x80 } else { f0 & !0x80u8 };
        let ghost f2 = if b & 0x40 == 0x40 { f1 | 0x40 } else { f1 & !0x40u8 };
        assert((if b & 0x20 == 0x20 { f2 | 0x20 } else { f2 & !0x20u8 }) == b) by (bit_vector)
            requires
                f0 == b & 0x1f,
                f1 == (if b & 0x80 == 0x80 { f0 | 0x80 } else { f0 & !0x80u8 }),
                f2 == (if b & 0x40 == 0x40 { f1 | 0x40 } else { f1 & !0x40u8 }),
        ;
        GlowFilter {
            color: self.color,
            blur_x: self.blur_x,
            blur_y: self.blur_y,
            strength: self.strength,
            flags,
        }
    }
}

impl DropShadowFilter {
    /// The rectangle that the shadow covers, given `glow_rect`, the
    /// rectangle that [`Self::inner_glow_filter`] covers, and the shadow's
    /// offset `(x, y)` rounded up to whole pixels: a negative offset moves
    /// the low edge out, a non-negative one the high edge.
    pub fn calculate_dest_rect(&self, glow_rect: Rectangle<i32>, x: i32, y: i32) -> (r: Rectangle<
        i32,
    >)
        requires
            x < 0 ==> glow_rect.x_min + x >= i32::MIN,
            x >= 0 ==> glow_rect.x_max + x <= i32::MAX,
            y < 0 ==> glow_rect.y_min + y >= i32::MIN,
            y >= 0 ==> glow_rect.y_max + y <= i32::MAX,
        ensures
            r.x_min == (if x < 0 { glow_rect.x_min + x } else { glow_rect.x_min as int }),
            r.x_max == (if x < 0 { glow_rect.x_max as int } else { glow_rect.x_max + x }),
            r.y_min == (if y < 0 { glow_rect.y_min + y } else { glow_rect.y_min as int }),
            r.y_max == (if y < 0 { glow_rect.y_max as int } else { glow_rect.y_max + y }),
    {
        let mut result = glow_rect;
        if x < 0 {
            result.x_min = result.x_min + x;
        } else {
            result.x_max = result.x_max + x;
        }
        if y < 0 {
            result.y_min = result.y_min + y;
        } else {
            result.y_max = result.y_max + y;
        }
        result
    }
}

/// The number of passes survives being stored in a flag byte.
pub proof fn law_passes_round_trip(n: u8)
    requires
        n <= 31,
    ensures
        n & PASSES == n,
        ((n * 8) as u8) >> 3u8 == n,
{
    assert(n <= 31 ==> n & 0x1f == n && ((n * 8) as u8) >> 3u8 == n) by (bit_vector);
}

} // verus!
