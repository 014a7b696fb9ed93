//! Plain carriers for everything that crosses the host boundary: protocol
//! integers, opaque pointers by address, and times and regions by bit
//! pattern.

use vstd::prelude::*;

verus! {

/// Integer type of the host protocol (C `int`). Status codes, marshaled
/// booleans and property integers all cross the boundary as one of these.
pub type Int = i32;

/// Unsigned integer of the host protocol (C `unsigned int`).
pub type UnsignedInt = u32;

/// Boolean as effect code sees it.
pub type Bool = bool;

/// An opaque host pointer, carried by its address value. The library never
/// dereferences one; the shell that talks to the C side owns every
/// dereference. Address 0 stands for the null pointer.
pub type PtrVal = usize;

/// The address that stands for a null pointer.
pub const NULL_PTR: PtrVal = 0;

/// A time value of the protocol. Hosts pass times as C doubles; the library
/// routes them through unchanged and never computes with them, so a time is
/// carried opaquely as the bit pattern of that double.
#[derive(Clone, Copy, PartialEq, Eq, Structural, Debug)]
pub struct Time {
    pub bits: u64,
}

/// A double-precision value of the protocol, carried opaquely by bit
/// pattern, exactly as `Time` is: the library moves doubles between host and
/// effect code but never computes with them.
#[derive(Clone, Copy, PartialEq, Eq, Structural, Debug)]
pub struct Double {
    pub bits: u64,
}

/// A rectangle with double-precision corners, each carried by bit pattern
/// exactly as `Time` is: regions travel to the host and back, but the library
/// never computes with the corner values.
#[derive(Clone, Copy, PartialEq, Eq, Structural, Debug)]
pub struct RectD {
    pub x1: u64,
    pub y1: u64,
    pub x2: u64,
    pub y2: u64,
}

/// A rectangle with integer corners: image bounds, in pixels. `y1` is the
/// first row, `y2` one past the last.
#[derive(Clone, Copy, PartialEq, Eq, Structural, Debug)]
pub struct RectI {
    pub x1: Int,
    pub y1: Int,
    pub x2: Int,
    pub y2: Int,
}

impl RectI {
    /// Number of pixel rows covered by the bounds, zero when degenerate.
    pub open spec fn spec_height(self) -> int {
        if self.y2 >= self.y1 {
            self.y2 - self.y1
        } else {
            0
        }
    }

    pub fn height(&self) -> (r: u32)
        ensures
            r == self.spec_height(),
    {
        if self.y2 >= self.y1 {
            let d: i64 = (self.y2 as i64) - (self.y1 as i64);
            d as u32
        } else {
            0
        }
    }
}

} // verus!
