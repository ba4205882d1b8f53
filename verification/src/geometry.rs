//! Sizes and positions in physical pixels, and the narrowing conversions that
//! the X11 protocol's field widths ask for.

use vstd::prelude::*;

verus! {

/// A size in physical pixels.
#[derive(Clone, Copy, Debug, PartialEq, Eq, Structural)]
pub struct PhySize {
    pub width: u32,
    pub height: u32,
}

/// A position in physical pixels.
#[derive(Clone, Copy, Debug, PartialEq, Eq, Structural)]
pub struct PhyPoint {
    pub x: i32,
    pub y: i32,
}

/// The unsigned 16-bit number congruent to `x` modulo 2^16.
pub open spec fn wrap_u16(x: int) -> int {
    x % 0x1_0000
}

/// The unsigned 32-bit number congruent to `x` modulo 2^32.
pub open spec fn wrap_u32(x: int) -> int {
    x % 0x1_0000_0000
}

/// The signed 16-bit number congruent to `x` modulo 2^16.
pub open spec fn wrap_i16(x: int) -> int {
    (x + 0x8000) % 0x1_0000 - 0x8000
}

/// The signed 32-bit number congruent to `x` modulo 2^32.
pub open spec fn wrap_i32(x: int) -> int {
    (x + 0x8000_0000) % 0x1_0000_0000 - 0x8000_0000
}

/// Half of `x`, rounded towards zero.
pub open spec fn half(x: int) -> int {
    if x >= 0 {
        x / 2
    } else {
        -((-x) / 2)
    }
}

/// Keeps the low 16 bits of `x`.
pub(crate) fn to_u16(x: u32) -> (r: u16)
    ensures
        r == wrap_u16(x as int),
        r == x % 0x1_0000,
{
    assert((x as u16) as u32 == x % 0x1_0000) by (bit_vector);
    x as u16
}

/// Keeps the low 32 bits of `x`.
pub(crate) fn to_u32(x: u64) -> (r: u32)
    ensures
        r == wrap_u32(x as int),
        r == x % 0x1_0000_0000,
{
    assert((x as u32) as u64 == x % 0x1_0000_0000) by (bit_vector);
    x as u32
}

/// Keeps the low 16 bits of `x`, read as a signed number.
pub(crate) fn to_i16(x: i32) -> (r: i16)
    ensures
        r == wrap_i16(x as int),
        (r - x) % 0x1_0000 == 0,
{
    assert((x as i16) + 0x8000 == (x + 0x8000) % 0x1_0000) by (bit_vector);
    x as i16
}

/// Reads the 32 bits of `x` as a signed number.
pub(crate) fn to_i32(x: u32) -> (r: i32)
    ensures
        r == wrap_i32(x as int),
        (r - x) % 0x1_0000_0000 == 0,
{
    assert((x as i32) + 0x8000_0000 == (x + 0x8000_0000) % 0x1_0000_0000) by (bit_vector);
    x as i32
}

impl PhyPoint {
    /// The position with the given coordinates.
    pub fn new(x: i32, y: i32) -> (r: PhyPoint)
        ensures
            r.x == x,
            r.y == y,
    {
        PhyPoint { x, y }
    }
}

impl PhySize {
    /// The point half way along each side.
    pub open spec fn spec_center(self) -> PhyPoint {
        PhyPoint {
            x: half(wrap_i32(self.width as int)) as i32,
            y: half(wrap_i32(self.height as int)) as i32,
        }
    }

    /// The point half way along each side, from the upper left corner. A side
    /// of 2^31 pixels or more is taken as the negative number that its 32 bits
    /// stand for.
    pub fn center(&self) -> (r: PhyPoint)
        ensures
            r == self.spec_center(),
            r.x == half(wrap_i32(self.width as int)),
            r.y == half(wrap_i32(self.height as int)),
    {
        PhyPoint::new(to_i32(self.width) / 2, to_i32(self.height) / 2)
    }
}

} // verus!
