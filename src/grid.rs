use vstd::prelude::*;
use vstd::arithmetic::div_mod::lemma_fundamental_div_mod_converse;
use crate::config::{GridConfig, GridError, Rgb};
use crate::fixed::{div_toward_zero, FIXED_ONE, MAX_LENGTH, MAX_OFFSET, MAX_SIDE, Vec2};
use crate::tile::{
    classify, color_for, compute_transform, determine_tile_type, tile_color, tile_transform,
    Transform, TilePosition, TileType,
};

verus! {

/// One cell of the grid with its derived visual state.
///
/// `position_dirty` and `appearance_dirty` mark `transform` and `color` as
/// stale; the layout and appearance passes recompute them and clear the mark.
#[derive(Clone, Copy, Debug, PartialEq, Eq, Structural)]
pub struct Tile {
    pub position: TilePosition,
    pub tile_type: TileType,
    pub transform: Transform,
    pub color: Option<Rgb>,
    pub position_dirty: bool,
    pub appearance_dirty: bool,
}

/// A window-resize notification; the new window size in fixed-point units.
#[derive(Clone, Copy, Debug, PartialEq, Eq, Structural)]
pub struct ResizeEvent {
    pub width: i64,
    pub height: i64,
}

/// The tiles of a grid, the configuration they are derived from, and how many
/// resize events of the window's event stream have been consumed.
pub struct TileGrid {
    pub config: GridConfig,
    pub tiles: Vec<Tile>,
    pub events_read: usize,
}

/// The mathematical state of a `TileGrid`.
pub struct GridState {
    pub config: GridConfig,
    pub tiles: Seq<Tile>,
    pub events_read: nat,
}

impl View for TileGrid {
    type V = GridState;

    open spec fn view(&self) -> GridState {
        GridState { config: self.config, tiles: self.tiles@, events_read: self.events_read as nat }
    }
}

/// The grid position of the tile stored at index `i` (row-major order).
pub open spec fn position_at(cols: int, i: int) -> TilePosition {
    TilePosition { row: (i / cols) as usize, col: (i % cols) as usize }
}

/// Index at which the tile of `(row, col)` is stored (row-major order).
pub open spec fn index_of(cols: int, row: int, col: int) -> int {
    row * cols + col
}

/// A newly generated tile: categorised, not yet placed or coloured, and dirty
/// for both position and appearance.
pub open spec fn fresh_tile(cfg: GridConfig, p: TilePosition) -> Tile {
    Tile {
        position: p,
        tile_type: classify(cfg.rows as int, cfg.cols as int, p),
        transform: Transform { x: 0, y: 0, z: 0, width: 0, height: 0 },
        color: None,
        position_dirty: true,
        appearance_dirty: true,
    }
}

/// The tiles the generator creates for `cfg`: one per position, row-major.
pub open spec fn generated_tiles(cfg: GridConfig) -> Seq<Tile> {
    Seq::new(
        (cfg.rows * cfg.cols) as nat,
        |i: int| fresh_tile(cfg, position_at(cfg.cols as int, i)),
    )
}

/// A tile after the layout pass: placed anew if it was position-dirty.
pub open spec fn lay_out(cfg: GridConfig, t: Tile) -> Tile {
    if t.position_dirty {
        Tile { transform: tile_transform(cfg, t.position), position_dirty: false, ..t }
    } else {
        t
    }
}

/// A tile after the appearance pass: coloured anew if it was appearance-dirty.
pub open spec fn paint(cfg: GridConfig, t: Tile) -> Tile {
    if t.appearance_dirty {
        Tile { color: Some(tile_color(cfg, t.tile_type)), appearance_dirty: false, ..t }
    } else {
        t
    }
}

pub open spec fn mark_position(t: Tile) -> Tile {
    Tile { position_dirty: true, ..t }
}

pub open spec fn mark_appearance(t: Tile) -> Tile {
    Tile { appearance_dirty: true, ..t }
}

/// A resize event the fixed-point layout can represent.
pub open spec fn event_in_range(e: ResizeEvent) -> bool {
    0 <= e.width <= MAX_LENGTH && 0 <= e.height <= MAX_LENGTH
}

/// Extent of the whole grid along one axis for a window extent: the
/// configured fraction of the window less one gap per tile, and no less than
/// zero when the gaps alone do not fit.
pub open spec fn grid_extent(fraction: int, window: int, gap: int, count: int) -> int {
    let e = fraction * window / (FIXED_ONE as int) - gap * count;
    if e < 0 {
        0
    } else {
        e
    }
}

/// Tile extent along one axis after a resize.
pub open spec fn resized_tile_extent(fraction: int, window: int, gap: int, count: int) -> int {
    grid_extent(fraction, window, gap, count) / count
}

/// Grid offset along one axis after a resize, which centres the grid:
/// `-count * gap / 2 - grid / 2 + tile / 2`.
pub open spec fn resized_offset(fraction: int, window: int, gap: int, count: int) -> int {
    -(count * gap / 2) - grid_extent(fraction, window, gap, count) / 2 + resized_tile_extent(
        fraction,
        window,
        gap,
        count,
    ) / 2
}

/// The configuration after the window took the size of `e`.
pub open spec fn resized_config(cfg: GridConfig, e: ResizeEvent) -> GridConfig {
    GridConfig {
        tile_size: Vec2 {
            x: resized_tile_extent(
                cfg.width_fraction as int,
                e.width as int,
                cfg.tile_gap.x as int,
                cfg.cols as int,
            ) as i64,
            y: resized_tile_extent(
                cfg.height_fraction as int,
                e.height as int,
                cfg.tile_gap.y as int,
                cfg.rows as int,
            ) as i64,
        },
        tile_offset: Vec2 {
            x: resized_offset(
                cfg.width_fraction as int,
                e.width as int,
                cfg.tile_gap.x as int,
                cfg.cols as int,
            ) as i64,
            y: resized_offset(
                cfg.height_fraction as int,
                e.height as int,
                cfg.tile_gap.y as int,
                cfg.rows as int,
            ) as i64,
        },
        ..cfg
    }
}

impl GridState {
    /// Tile `i` sits at `position_at(cols, i)` and has the category of that
    /// position; there is one tile per position.
    pub open spec fn wf(&self) -> bool {
        &&& self.config.valid()
        &&& self.tiles.len() == self.config.rows * self.config.cols
        &&& forall|i: int|
            0 <= i < self.tiles.len() ==> {
                &&& (#[trigger] self.tiles[i]).position == position_at(self.config.cols as int, i)
                &&& self.tiles[i].position.row < self.config.rows
                &&& self.tiles[i].position.col < self.config.cols
                &&& self.tiles[i].tile_type == classify(
                    self.config.rows as int,
                    self.config.cols as int,
                    self.tiles[i].position,
                )
            }
    }

    pub open spec fn lay_out_all(self) -> GridState {
        GridState { tiles: self.tiles.map_values(|t: Tile| lay_out(self.config, t)), ..self }
    }

    pub open spec fn paint_all(self) -> GridState {
        GridState { tiles: self.tiles.map_values(|t: Tile| paint(self.config, t)), ..self }
    }

    pub open spec fn mark_all_positions(self) -> GridState {
        GridState { tiles: self.tiles.map_values(|t: Tile| mark_position(t)), ..self }
    }

    /// The state after reading the event stream `events`: where it holds
    /// events not read yet, the newest of them sets the tile size and offset
    /// and every tile becomes position-dirty.
    pub open spec fn resize(self, events: Seq<ResizeEvent>) -> GridState {
        if events.len() > self.events_read {
            GridState {
                config: resized_config(self.config, events.last()),
                tiles: self.tiles.map_values(|t: Tile| mark_position(t)),
                events_read: events.len(),
            }
        } else {
            self
        }
    }

    /// One tick: the layout pass, the appearance pass, then the resize
    /// reactor, whose marks the layout pass sees on the next tick.
    pub open spec fn tick(self, events: Seq<ResizeEvent>) -> GridState {
        self.lay_out_all().paint_all().resize(events)
    }

    pub open spec fn with_ground_color(self, color: Rgb) -> GridState {
        GridState { config: GridConfig { ground_color: color, ..self.config }, ..self }
    }

    pub open spec fn mark_all_appearances(self) -> GridState {
        GridState { tiles: self.tiles.map_values(|t: Tile| mark_appearance(t)), ..self }
    }
}

impl TileGrid {
    pub open spec fn wf(&self) -> bool {
        self@.wf()
    }
}

/// Creates one tile per grid position, in row-major order, each categorised
/// and dirty for position and appearance. Refuses a grid without rows or
/// columns and then creates nothing.
pub fn setup_tiles(config: GridConfig) -> (r: Result<TileGrid, GridError>)
    requires
        config.in_range(),
    ensures
        r is Err <==> (config.rows == 0 || config.cols == 0),
        r is Err ==> r == Err::<TileGrid, GridError>(GridError::ConfigurationError),
        r matches Ok(g) ==> {
            &&& g.wf()
            &&& g.config == config
            &&& g.tiles@ == generated_tiles(config)
            &&& g.events_read == 0
        },
{
    match config.check() {
        Err(e) => {
            return Err(e);
        },
        Ok(()) => {},
    }
    let rows = config.rows;
    let cols = config.cols;
    assert(rows * cols <= MAX_SIDE * MAX_SIDE) by (nonlinear_arith)
        requires
            rows <= MAX_SIDE,
            cols <= MAX_SIDE,
    ;
    let mut tiles: Vec<Tile> = Vec::new();
    let mut row: usize = 0;
    while row < rows
        invariant
            config.valid(),
            rows == config.rows,
            cols == config.cols,
            rows * cols <= MAX_SIDE * MAX_SIDE,
            0 <= row <= rows,
            tiles.len() == row * cols,
            forall|i: int|
                0 <= i < tiles.len() ==> #[trigger] tiles@[i] == fresh_tile(
                    config,
                    position_at(cols as int, i),
                ),
        decreases rows - row,
    {
        let mut col: usize = 0;
        while col < cols
            invariant
                config.valid(),
                rows == config.rows,
                cols == config.cols,
                rows * cols <= MAX_SIDE * MAX_SIDE,
                0 <= row < rows,
                0 <= col <= cols,
                tiles.len() == row * cols + col,
                forall|i: int|
                    0 <= i < tiles.len() ==> #[trigger] tiles@[i] == fresh_tile(
                        config,
                        position_at(cols as int, i),
                    ),
            decreases cols - col,
        {
            let tile_position = TilePosition::new(row, col);
            let tile_type = determine_tile_type(&config, &tile_position);
            let tile = Tile {
                position: tile_position,
                tile_type,
                transform: Transform::zero(),
                color: None,
                position_dirty: true,
                appearance_dirty: true,
            };
            proof {
                let i = row * cols + col;
                lemma_fundamental_div_mod_converse(i as int, cols as int, row as int, col as int);
                assert(row * cols + col < rows * cols) by (nonlinear_arith)
                    requires
                        row < rows,
                        col < cols,
                ;
            }
            tiles.push(tile);
            col = col + 1;
        }
        assert((row + 1) * cols == row * cols + cols) by (nonlinear_arith);
        row = row + 1;
    }
    let g = TileGrid { config, tiles, events_read: 0 };
    proof {
        assert(g.tiles@ =~= generated_tiles(config));
        lemma_generated_in_range(config);
    }
    Ok(g)
}

/// Every generated position lies inside the grid.
proof fn lemma_generated_in_range(cfg: GridConfig)
    requires
        cfg.valid(),
    ensures
        forall|i: int|
            0 <= i < cfg.rows * cfg.cols ==> {
                &&& (#[trigger] position_at(cfg.cols as int, i)).row < cfg.rows
                &&& position_at(cfg.cols as int, i).col < cfg.cols
            },
{
    assert forall|i: int| 0 <= i < cfg.rows * cfg.cols implies {
        &&& (#[trigger] position_at(cfg.cols as int, i)).row < cfg.rows
        &&& position_at(cfg.cols as int, i).col < cfg.cols
    } by {
        let c = cfg.cols as int;
        let r = cfg.rows as int;
        assert(0 <= i / c < r) by (nonlinear_arith)
            requires
                0 <= i < r * c,
                c >= 1,
        ;
        assert(0 <= i % c < c) by (nonlinear_arith)
            requires
                c >= 1,
        ;
    }
}


impl TileGrid {
    /// Layout pass: places every position-dirty tile by the layout formula
    /// under the current configuration and clears its mark; other tiles are
    /// left as they are.
    pub fn update_positions(&mut self)
        requires
            old(self).wf(),
        ensures
            final(self)@ == old(self)@.lay_out_all(),
            final(self).wf(),
    {
        let n = self.tiles.len();
        let mut i: usize = 0;
        while i < n
            invariant
                old(self).wf(),
                self.config == old(self).config,
                self.events_read == old(self).events_read,
                n == self.tiles.len(),
                n == old(self).tiles.len(),
                0 <= i <= n,
                forall|j: int|
                    0 <= j < i ==> #[trigger] self.tiles@[j] == lay_out(
                        self.config,
                        old(self).tiles@[j],
                    ),
                forall|j: int| i <= j < n ==> #[trigger] self.tiles@[j] == old(self).tiles@[j],
            decreases n - i,
        {
            let t = self.tiles[i];
            if t.position_dirty {
                assert(old(self).tiles@[i as int] == t);
                let transform = compute_transform(&self.config, &t.position);
                let laid = Tile { transform, position_dirty: false, ..t };
                self.tiles.set(i, laid);
            }
            i = i + 1;
        }
        assert(self@.tiles =~= old(self)@.lay_out_all().tiles);
    }

    /// Appearance pass: colours every appearance-dirty tile by its category
    /// under the current configuration and clears its mark; other tiles are
    /// left as they are.
    pub fn update_appearance(&mut self)
        requires
            old(self).wf(),
        ensures
            final(self)@ == old(self)@.paint_all(),
            final(self).wf(),
    {
        let n = self.tiles.len();
        let mut i: usize = 0;
        while i < n
            invariant
                old(self).wf(),
                self.config == old(self).config,
                self.events_read == old(self).events_read,
                n == self.tiles.len(),
                n == old(self).tiles.len(),
                0 <= i <= n,
                forall|j: int|
                    0 <= j < i ==> #[trigger] self.tiles@[j] == paint(
                        self.config,
                        old(self).tiles@[j],
                    ),
                forall|j: int| i <= j < n ==> #[trigger] self.tiles@[j] == old(self).tiles@[j],
            decreases n - i,
        {
            let t = self.tiles[i];
            if t.appearance_dirty {
                let color = color_for(&self.config, t.tile_type);
                let painted = Tile { color: Some(color), appearance_dirty: false, ..t };
                self.tiles.set(i, painted);
            }
            i = i + 1;
        }
        assert(self@.tiles =~= old(self)@.paint_all().tiles);
    }

    /// Marks every tile dirty for position.
    pub fn mark_all_position_dirty(&mut self)
        requires
            old(self).wf(),
        ensures
            final(self)@ == old(self)@.mark_all_positions(),
            final(self).wf(),
    {
        let n = self.tiles.len();
        let mut i: usize = 0;
        while i < n
            invariant
                old(self).wf(),
                self.config == old(self).config,
                self.events_read == old(self).events_read,
                n == self.tiles.len(),
                n == old(self).tiles.len(),
                0 <= i <= n,
                forall|j: int|
                    0 <= j < i ==> #[trigger] self.tiles@[j] == mark_position(old(self).tiles@[j]),
                forall|j: int| i <= j < n ==> #[trigger] self.tiles@[j] == old(self).tiles@[j],
            decreases n - i,
        {
            let t = self.tiles[i];
            self.tiles.set(i, Tile { position_dirty: true, ..t });
            i = i + 1;
        }
        assert(self@.tiles =~= old(self)@.mark_all_positions().tiles);
    }

    /// Marks every tile dirty for appearance.
    pub fn mark_all_appearance_dirty(&mut self)
        requires
            old(self).wf(),
        ensures
            final(self)@ == old(self)@.mark_all_appearances(),
            final(self).wf(),
    {
        let n = self.tiles.len();
        let mut i: usize = 0;
        while i < n
            invariant
                old(self).wf(),
                self.config == old(self).config,
                self.events_read == old(self).events_read,
                n == self.tiles.len(),
                n == old(self).tiles.len(),
                0 <= i <= n,
                forall|j: int|
                    0 <= j < i ==> #[trigger] self.tiles@[j] == mark_appearance(
                        old(self).tiles@[j],
                    ),
                forall|j: int| i <= j < n ==> #[trigger] self.tiles@[j] == old(self).tiles@[j],
            decreases n - i,
        {
            let t = self.tiles[i];
            self.tiles.set(i, Tile { appearance_dirty: true, ..t });
            i = i + 1;
        }
        assert(self@.tiles =~= old(self)@.mark_all_appearances().tiles);
    }

    /// Replaces the colour of floor tiles; tiles show it once repainted.
    pub fn set_ground_color(&mut self, color: Rgb)
        requires
            old(self).wf(),
        ensures
            final(self)@ == old(self)@.with_ground_color(color),
            final(self).wf(),
    {
        self.config.ground_color = color;
    }
}


/// Bounds of the sizing a resize derives along one axis.
proof fn lemma_resized_axis_in_range(fraction: int, window: int, gap: int, count: int)
    requires
        0 <= fraction <= FIXED_ONE,
        0 <= window <= MAX_LENGTH,
        0 <= gap <= MAX_LENGTH,
        1 <= count <= MAX_SIDE,
    ensures
        0 <= fraction * window / (FIXED_ONE as int) <= MAX_LENGTH,
        0 <= gap * count <= MAX_LENGTH * MAX_SIDE,
        0 <= grid_extent(fraction, window, gap, count) <= MAX_LENGTH,
        0 <= resized_tile_extent(fraction, window, gap, count) <= MAX_LENGTH,
        -MAX_OFFSET <= resized_offset(fraction, window, gap, count) <= MAX_OFFSET,
{
    let f = FIXED_ONE as int;
    assert(0 <= fraction * window <= f * window) by (nonlinear_arith)
        requires
            0 <= fraction <= f,
            0 <= window,
    ;
    assert(0 <= fraction * window / f <= window) by (nonlinear_arith)
        requires
            0 <= fraction * window <= f * window,
            f > 0,
    ;
    assert(0 <= gap * count <= MAX_LENGTH * MAX_SIDE) by (nonlinear_arith)
        requires
            0 <= gap <= MAX_LENGTH,
            1 <= count <= MAX_SIDE,
    ;
    let g = grid_extent(fraction, window, gap, count);
    assert(0 <= g / count <= g) by (nonlinear_arith)
        requires
            0 <= g,
            count >= 1,
    ;
}

/// Tile extent and offset along one axis after a resize; see
/// `resized_tile_extent` and `resized_offset`.
fn resized_axis(fraction: i64, window: i64, gap: i64, count: usize) -> (r: (i64, i64))
    requires
        0 <= fraction <= FIXED_ONE,
        0 <= window <= MAX_LENGTH,
        0 <= gap <= MAX_LENGTH,
        1 <= count <= MAX_SIDE,
    ensures
        r.0 == resized_tile_extent(fraction as int, window as int, gap as int, count as int),
        r.1 == resized_offset(fraction as int, window as int, gap as int, count as int),
{
    proof {
        lemma_resized_axis_in_range(fraction as int, window as int, gap as int, count as int);
        assert(0 <= fraction * window <= FIXED_ONE * MAX_LENGTH) by (nonlinear_arith)
            requires
                0 <= fraction <= FIXED_ONE,
                0 <= window <= MAX_LENGTH,
        ;
    }
    let scaled = div_toward_zero(fraction * window, FIXED_ONE);
    let gaps: i64 = gap * (count as i64);
    let grid: i64 = if scaled - gaps < 0 {
        0
    } else {
        scaled - gaps
    };
    let tile = div_toward_zero(grid, count as i64);
    let offset = -div_toward_zero(gaps, 2) - div_toward_zero(grid, 2) + div_toward_zero(tile, 2);
    (tile, offset)
}

impl TileGrid {
    /// Resize reactor: reads the events of `events` past `events_read`. When
    /// there are any, the newest sets the tile size and offset (a later event
    /// supersedes an earlier one) and every tile is marked position-dirty;
    /// the cursor then stands at the end of the stream and no event is read
    /// twice.
    pub fn handle_window_resize(&mut self, events: &[ResizeEvent])
        requires
            old(self).wf(),
            forall|k: int| 0 <= k < events@.len() ==> event_in_range(#[trigger] events@[k]),
        ensures
            final(self)@ == old(self)@.resize(events@),
            final(self).wf(),
    {
        if events.len() <= self.events_read {
            return;
        }
        let e = events[events.len() - 1];
        assert(event_in_range(e));
        let cols = self.config.cols;
        let rows = self.config.rows;
        let (tile_w, offset_x) = resized_axis(
            self.config.width_fraction,
            e.width,
            self.config.tile_gap.x,
            cols,
        );
        let (tile_h, offset_y) = resized_axis(
            self.config.height_fraction,
            e.height,
            self.config.tile_gap.y,
            rows,
        );
        self.config.tile_size = Vec2::new(tile_w, tile_h);
        self.config.tile_offset = Vec2::new(offset_x, offset_y);
        self.events_read = events.len();
        proof {
            lemma_resized_axis_in_range(
                old(self).config.width_fraction as int,
                e.width as int,
                old(self).config.tile_gap.x as int,
                cols as int,
            );
            lemma_resized_axis_in_range(
                old(self).config.height_fraction as int,
                e.height as int,
                old(self).config.tile_gap.y as int,
                rows as int,
            );
            assert(self.config == resized_config(old(self).config, events@.last()));
        }
        self.mark_all_position_dirty();
    }

    /// One scheduler tick: layout pass, appearance pass, then the resize
    /// reactor.
    pub fn tick(&mut self, events: &[ResizeEvent])
        requires
            old(self).wf(),
            forall|k: int| 0 <= k < events@.len() ==> event_in_range(#[trigger] events@[k]),
        ensures
            final(self)@ == old(self)@.tick(events@),
            final(self).wf(),
    {
        self.update_positions();
        self.update_appearance();
        self.handle_window_resize(events);
    }
}

} // verus!
