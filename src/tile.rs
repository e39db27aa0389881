use vstd::prelude::*;
use crate::config::{GridConfig, Rgb};
use crate::fixed::{div_toward_zero, trunc_div, MAX_LENGTH, MAX_OFFSET, MAX_SIDE};

verus! {

/// Depth layer at which every tile is drawn, in fixed-point units.
pub const TILE_DEPTH: i64 = 6553600;

/// A tile's logical place in the grid.
#[derive(Clone, Copy, Debug, PartialEq, Eq, Structural)]
pub struct TilePosition {
    pub row: usize,
    pub col: usize,
}

impl TilePosition {
    pub fn new(row: usize, col: usize) -> (p: TilePosition)
        ensures
            p.row == row,
            p.col == col,
    {
        TilePosition { row, col }
    }
}

/// The category of a tile: the outer ring is wall, the rest floor.
#[derive(Clone, Copy, Debug, PartialEq, Eq, Structural)]
pub enum TileType {
    Wall,
    Floor,
}

/// A position lies on the outermost ring of a `rows` by `cols` grid.
pub open spec fn on_border(rows: int, cols: int, row: int, col: int) -> bool {
    row == 0 || col == 0 || row == rows - 1 || col == cols - 1
}

pub open spec fn classify(rows: int, cols: int, p: TilePosition) -> TileType {
    if on_border(rows, cols, p.row as int, p.col as int) {
        TileType::Wall
    } else {
        TileType::Floor
    }
}

/// The category of the tile at `tile_position`.
pub fn determine_tile_type(grid: &GridConfig, tile_position: &TilePosition) -> (t: TileType)
    ensures
        t == classify(grid.rows as int, grid.cols as int, *tile_position),
        t == TileType::Wall <==> on_border(
            grid.rows as int,
            grid.cols as int,
            tile_position.row as int,
            tile_position.col as int,
        ),
{
    let row = tile_position.row;
    let col = tile_position.col;
    if row == 0 || col == 0 || row as u128 + 1 == grid.rows as u128 || col as u128 + 1
        == grid.cols as u128 {
        TileType::Wall
    } else {
        TileType::Floor
    }
}

/// Screen-space placement of a tile, in fixed-point units.
#[derive(Clone, Copy, Debug, PartialEq, Eq, Structural)]
pub struct Transform {
    pub x: i64,
    pub y: i64,
    pub z: i64,
    pub width: i64,
    pub height: i64,
}

impl Transform {
    /// The placement a tile has before it is first laid out.
    pub fn zero() -> (t: Transform)
        ensures
            t == (Transform { x: 0, y: 0, z: 0, width: 0, height: 0 }),
    {
        Transform { x: 0, y: 0, z: 0, width: 0, height: 0 }
    }
}

/// Centre of the tile at `index` along one axis of `count` tiles:
/// `offset + (index - count / 2) * (size + gap)`, with `count / 2` taken as a
/// real number and the product rounded toward zero to a fixed-point unit.
pub open spec fn axis_position(offset: int, index: int, count: int, size: int, gap: int) -> int {
    offset + trunc_div((2 * index - count) * (size + gap), 2)
}

/// Where the layout places the tile at `p` under `cfg`.
pub open spec fn tile_transform(cfg: GridConfig, p: TilePosition) -> Transform {
    Transform {
        x: axis_position(
            cfg.tile_offset.x as int,
            p.col as int,
            cfg.cols as int,
            cfg.tile_size.x as int,
            cfg.tile_gap.x as int,
        ) as i64,
        y: axis_position(
            cfg.tile_offset.y as int,
            p.row as int,
            cfg.rows as int,
            cfg.tile_size.y as int,
            cfg.tile_gap.y as int,
        ) as i64,
        z: TILE_DEPTH,
        width: cfg.tile_size.x,
        height: cfg.tile_size.y,
    }
}

/// The colour a tile of category `t` shows under `cfg`.
pub open spec fn tile_color(cfg: GridConfig, t: TileType) -> Rgb {
    match t {
        TileType::Wall => cfg.wall_color,
        TileType::Floor => cfg.ground_color,
    }
}

/// Bounds on one axis position, which keep it inside an `i64`.
proof fn lemma_axis_position_bounded(offset: int, index: int, count: int, size: int, gap: int)
    requires
        0 <= index <= count <= MAX_SIDE,
        0 <= size <= MAX_LENGTH,
        0 <= gap <= MAX_LENGTH,
        -MAX_OFFSET <= offset <= MAX_OFFSET,
    ensures
        -MAX_OFFSET - MAX_SIDE * 2 * MAX_LENGTH <= axis_position(offset, index, count, size, gap)
            <= MAX_OFFSET + MAX_SIDE * 2 * MAX_LENGTH,
        -(MAX_SIDE * 2 * MAX_LENGTH) <= (2 * index - count) * (size + gap)
            <= MAX_SIDE * 2 * MAX_LENGTH,
{
    let k = 2 * index - count;
    let s = size + gap;
    assert(-(MAX_SIDE as int) <= k <= MAX_SIDE);
    assert(0 <= s <= 2 * MAX_LENGTH);
    assert(-(MAX_SIDE * 2 * MAX_LENGTH) <= k * s <= MAX_SIDE * 2 * MAX_LENGTH) by (nonlinear_arith)
        requires
            -(MAX_SIDE as int) <= k <= MAX_SIDE,
            0 <= s <= 2 * MAX_LENGTH,
    ;
    let n = k * s;
    if n >= 0 {
        assert(0 <= n / 2 <= n) by (nonlinear_arith)
            requires
                n >= 0,
        ;
    } else {
        assert(0 <= (-n) / 2 <= -n) by (nonlinear_arith)
            requires
                n < 0,
        ;
    }
}

/// Centre of one tile along one axis; see `axis_position`.
fn axis_center(offset: i64, index: usize, count: usize, size: i64, gap: i64) -> (r: i64)
    requires
        index < count <= MAX_SIDE,
        0 <= size <= MAX_LENGTH,
        0 <= gap <= MAX_LENGTH,
        -MAX_OFFSET <= offset <= MAX_OFFSET,
    ensures
        r == axis_position(offset as int, index as int, count as int, size as int, gap as int),
{
    proof {
        lemma_axis_position_bounded(offset as int, index as int, count as int, size as int, gap as int);
    }
    let k: i64 = 2 * (index as i64) - (count as i64);
    let s: i64 = size + gap;
    let n: i64 = k * s;
    offset + div_toward_zero(n, 2)
}

/// The placement of the tile at `p` under `cfg`.
pub fn compute_transform(cfg: &GridConfig, p: &TilePosition) -> (t: Transform)
    requires
        cfg.in_range(),
        p.row < cfg.rows,
        p.col < cfg.cols,
    ensures
        t == tile_transform(*cfg, *p),
        t.x == axis_position(
            cfg.tile_offset.x as int,
            p.col as int,
            cfg.cols as int,
            cfg.tile_size.x as int,
            cfg.tile_gap.x as int,
        ),
        t.y == axis_position(
            cfg.tile_offset.y as int,
            p.row as int,
            cfg.rows as int,
            cfg.tile_size.y as int,
            cfg.tile_gap.y as int,
        ),
{
    let x = axis_center(cfg.tile_offset.x, p.col, cfg.cols, cfg.tile_size.x, cfg.tile_gap.x);
    let y = axis_center(cfg.tile_offset.y, p.row, cfg.rows, cfg.tile_size.y, cfg.tile_gap.y);
    Transform { x, y, z: TILE_DEPTH, width: cfg.tile_size.x, height: cfg.tile_size.y }
}

/// The colour of a tile of category `t` under `cfg`.
pub fn color_for(cfg: &GridConfig, t: TileType) -> (c: Rgb)
    ensures
        c == tile_color(*cfg, t),
{
    match t {
        TileType::Wall => cfg.wall_color,
        TileType::Floor => cfg.ground_color,
    }
}

} // verus!
