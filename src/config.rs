use vstd::prelude::*;
use crate::fixed::{Vec2, FIXED_ONE, MAX_LENGTH, MAX_OFFSET, MAX_SIDE};

verus! {

/// An opaque colour, one byte per channel.
#[derive(Clone, Copy, Debug, PartialEq, Eq, Structural)]
pub struct Rgb {
    pub r: u8,
    pub g: u8,
    pub b: u8,
}

impl Rgb {
    pub fn new(r: u8, g: u8, b: u8) -> (c: Rgb)
        ensures
            c.r == r,
            c.g == g,
            c.b == b,
    {
        Rgb { r, g, b }
    }
}

/// Why a grid cannot be generated or laid out.
#[derive(Clone, Copy, Debug, PartialEq, Eq, Structural)]
pub enum GridError {
    /// The grid has no rows or no columns.
    ConfigurationError,
}

/// Dimensions, sizing and colours of the tile grid.
///
/// `width_fraction` and `height_fraction` are fixed-point fractions of the
/// window (`FIXED_ONE` is the whole window); the resize reactor derives
/// `tile_size` and `tile_offset` from them.
#[derive(Clone, Copy, Debug, PartialEq, Eq, Structural)]
pub struct GridConfig {
    pub rows: usize,
    pub cols: usize,
    pub tile_size: Vec2,
    pub tile_gap: Vec2,
    pub tile_offset: Vec2,
    pub ground_color: Rgb,
    pub wall_color: Rgb,
    pub width_fraction: i64,
    pub height_fraction: i64,
}

impl GridConfig {
    /// Every quantity lies in the range the fixed-point layout can represent.
    pub open spec fn in_range(&self) -> bool {
        &&& self.rows <= MAX_SIDE
        &&& self.cols <= MAX_SIDE
        &&& 0 <= self.tile_size.x <= MAX_LENGTH
        &&& 0 <= self.tile_size.y <= MAX_LENGTH
        &&& 0 <= self.tile_gap.x <= MAX_LENGTH
        &&& 0 <= self.tile_gap.y <= MAX_LENGTH
        &&& -MAX_OFFSET <= self.tile_offset.x <= MAX_OFFSET
        &&& -MAX_OFFSET <= self.tile_offset.y <= MAX_OFFSET
        &&& 0 <= self.width_fraction <= FIXED_ONE
        &&& 0 <= self.height_fraction <= FIXED_ONE
    }

    /// A configuration a grid can be generated from.
    pub open spec fn valid(&self) -> bool {
        &&& self.in_range()
        &&& self.rows >= 1
        &&& self.cols >= 1
    }

    /// Refuses a grid without rows or columns.
    pub fn check(&self) -> (r: Result<(), GridError>)
        ensures
            r is Err <==> (self.rows == 0 || self.cols == 0),
            r is Err ==> r == Err::<(), GridError>(GridError::ConfigurationError),
    {
        if self.rows == 0 || self.cols == 0 {
            Err(GridError::ConfigurationError)
        } else {
            Ok(())
        }
    }
}

impl Default for GridConfig {
    /// A 20 by 20 grid filling half of the window in each direction, with
    /// one-pixel gaps, white ground and black walls.
    fn default() -> (c: GridConfig)
        ensures
            c.rows == 20,
            c.cols == 20,
            c.tile_size == (Vec2 { x: 0, y: 0 }),
            c.tile_gap == (Vec2 { x: FIXED_ONE, y: FIXED_ONE }),
            c.tile_offset == (Vec2 { x: 0, y: 0 }),
            c.ground_color == (Rgb { r: 255, g: 255, b: 255 }),
            c.wall_color == (Rgb { r: 0, g: 0, b: 0 }),
            c.width_fraction == FIXED_ONE / 2,
            c.height_fraction == FIXED_ONE / 2,
            c.valid(),
    {
        GridConfig {
            rows: 20,
            cols: 20,
            tile_size: Vec2 { x: 0, y: 0 },
            tile_gap: Vec2 { x: FIXED_ONE, y: FIXED_ONE },
            tile_offset: Vec2 { x: 0, y: 0 },
            ground_color: Rgb { r: 255, g: 255, b: 255 },
            wall_color: Rgb { r: 0, g: 0, b: 0 },
            width_fraction: FIXED_ONE / 2,
            height_fraction: FIXED_ONE / 2,
        }
    }
}

} // verus!
