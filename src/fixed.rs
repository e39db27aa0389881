use vstd::prelude::*;

verus! {

/// Number of fixed-point units in one pixel (and the fixed-point value of 1.0).
pub const FIXED_ONE: i64 = 65536;

/// Largest tile size, gap, window extent or grid extent, in fixed-point units.
pub const MAX_LENGTH: i64 = 68719476736;

/// Largest magnitude of a grid offset, in fixed-point units.
pub const MAX_OFFSET: i64 = 1125899906842624;

/// Largest number of rows or columns a grid may have.
pub const MAX_SIDE: usize = 4096;

/// A pair of fixed-point quantities: a point, a size or a gap.
#[derive(Clone, Copy, Debug, PartialEq, Eq, Structural)]
pub struct Vec2 {
    pub x: i64,
    pub y: i64,
}

impl Vec2 {
    pub fn new(x: i64, y: i64) -> (r: Vec2)
        ensures
            r.x == x,
            r.y == y,
    {
        Vec2 { x, y }
    }
}

/// Division that rounds toward zero, as machine division does.
pub open spec fn trunc_div(n: int, d: int) -> int {
    if n >= 0 {
        n / d
    } else {
        -((-n) / d)
    }
}

/// `n / d` rounded toward zero, for a positive `d`.
pub fn div_toward_zero(n: i64, d: i64) -> (r: i64)
    requires
        d > 0,
        n > i64::MIN,
    ensures
        r == trunc_div(n as int, d as int),
{
    if n >= 0 {
        ((n as u64) / (d as u64)) as i64
    } else {
        let m: u64 = (-n) as u64;
        let q: u64 = m / (d as u64);
        -(q as i64)
    }
}

} // verus!
