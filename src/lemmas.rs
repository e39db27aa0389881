use vstd::prelude::*;
use vstd::arithmetic::div_mod::lemma_fundamental_div_mod;
use crate::config::{GridConfig, Rgb};
use crate::grid::{
    event_in_range, generated_tiles, index_of, lay_out, paint, position_at, resized_config, GridState,
    ResizeEvent,
};
use crate::tile::{tile_color, tile_transform, TilePosition, TileType};

verus! {

/// The generator covers the grid exactly: for at least one row and one
/// column it creates `rows * cols` tiles, each position of
/// `[0, rows) x [0, cols)` has a tile, and no two tiles share a position.
pub proof fn lemma_generated_tiles_cover_grid(cfg: GridConfig)
    requires
        cfg.valid(),
    ensures
        generated_tiles(cfg).len() == cfg.rows * cfg.cols,
        forall|r: int, c: int|
            0 <= r < cfg.rows && 0 <= c < cfg.cols ==> {
                &&& 0 <= #[trigger] index_of(cfg.cols as int, r, c) < generated_tiles(cfg).len()
                &&& generated_tiles(cfg)[index_of(cfg.cols as int, r, c)].position == (TilePosition {
                    row: r as usize,
                    col: c as usize,
                })
            },
        forall|i: int, j: int|
            0 <= i < generated_tiles(cfg).len() && 0 <= j < generated_tiles(cfg).len() && i != j
                ==> (#[trigger] generated_tiles(cfg)[i]).position != (
            #[trigger] generated_tiles(cfg)[j]).position,
{
    let ts = generated_tiles(cfg);
    let rows = cfg.rows as int;
    let cols = cfg.cols as int;
    assert forall|r: int, c: int| 0 <= r < rows && 0 <= c < cols implies {
        &&& 0 <= #[trigger] index_of(cols, r, c) < ts.len()
        &&& ts[index_of(cols, r, c)].position == (TilePosition { row: r as usize, col: c as usize })
    } by {
        let i = index_of(cols, r, c);
        assert(0 <= i < rows * cols) by (nonlinear_arith)
            requires
                0 <= r < rows,
                0 <= c < cols,
                i == r * cols + c,
        ;
        vstd::arithmetic::div_mod::lemma_fundamental_div_mod_converse(i, cols, r, c);
        assert(ts[i].position == position_at(cols, i));
    }
    assert forall|i: int, j: int|
        0 <= i < ts.len() && 0 <= j < ts.len() && i != j implies (#[trigger] ts[i]).position != (
    #[trigger] ts[j]).position by {
        lemma_fundamental_div_mod(i, cols);
        lemma_fundamental_div_mod(j, cols);
        assert(0 <= i / cols < rows && 0 <= i % cols < cols) by (nonlinear_arith)
            requires
                0 <= i < rows * cols,
                cols >= 1,
        ;
        assert(0 <= j / cols < rows && 0 <= j % cols < cols) by (nonlinear_arith)
            requires
                0 <= j < rows * cols,
                cols >= 1,
        ;
        if ts[i].position == ts[j].position {
            assert(i / cols == j / cols);
            assert(i % cols == j % cols);
        }
    }
}

/// A second layout pass with no new dirt changes nothing.
pub proof fn lemma_layout_idempotent(s: GridState)
    ensures
        s.lay_out_all().lay_out_all() == s.lay_out_all(),
{
    assert(s.lay_out_all().lay_out_all().tiles =~= s.lay_out_all().tiles);
}

/// A second appearance pass with no new dirt changes nothing.
pub proof fn lemma_appearance_idempotent(s: GridState)
    ensures
        s.paint_all().paint_all() == s.paint_all(),
{
    assert(s.paint_all().paint_all().tiles =~= s.paint_all().tiles);
}

/// After a new resize event every tile is position-dirty; after the next
/// layout pass none is, and each tile stands where the layout formula places
/// it under the configuration the newest event derived.
pub proof fn lemma_resize_then_layout(s: GridState, events: Seq<ResizeEvent>)
    requires
        s.wf(),
        events.len() > s.events_read,
        forall|k: int| 0 <= k < events.len() ==> event_in_range(#[trigger] events[k]),
    ensures
        s.resize(events).config == resized_config(s.config, events.last()),
        s.resize(events).tiles.len() == s.tiles.len(),
        forall|i: int|
            0 <= i < s.tiles.len() ==> (#[trigger] s.resize(events).tiles[i]).position_dirty,
        forall|i: int|
            0 <= i < s.tiles.len() ==> {
                &&& !(#[trigger] s.resize(events).lay_out_all().tiles[i]).position_dirty
                &&& s.resize(events).lay_out_all().tiles[i].transform == tile_transform(
                    resized_config(s.config, events.last()),
                    s.tiles[i].position,
                )
            },
{
    let r = s.resize(events);
    assert forall|i: int| 0 <= i < s.tiles.len() implies {
        &&& !(#[trigger] r.lay_out_all().tiles[i]).position_dirty
        &&& r.lay_out_all().tiles[i].transform == tile_transform(
            resized_config(s.config, events.last()),
            s.tiles[i].position,
        )
    } by {
        assert(r.tiles[i].position_dirty);
        assert(r.lay_out_all().tiles[i] == lay_out(r.config, r.tiles[i]));
    }
}

/// Changing the ground colour and marking every tile appearance-dirty makes
/// the next appearance pass show the new colour on every floor tile and
/// leave every wall tile as it was.
pub proof fn lemma_ground_color_repaints_floor_only(s: GridState, color: Rgb)
    requires
        s.wf(),
        forall|i: int|
            0 <= i < s.tiles.len() ==> (#[trigger] s.tiles[i]).color == Some(
                tile_color(s.config, s.tiles[i].tile_type),
            ),
    ensures
        s.with_ground_color(color).mark_all_appearances().paint_all().tiles.len() == s.tiles.len(),
        forall|i: int|
            0 <= i < s.tiles.len() && s.tiles[i].tile_type == TileType::Floor
                ==> (#[trigger] s.with_ground_color(color).mark_all_appearances().paint_all().tiles[i]).color
                == Some(color),
        forall|i: int|
            0 <= i < s.tiles.len() && s.tiles[i].tile_type == TileType::Wall
                ==> (#[trigger] s.with_ground_color(color).mark_all_appearances().paint_all().tiles[i])
                == (crate::grid::Tile { appearance_dirty: false, ..s.tiles[i] }),
{
    let m = s.with_ground_color(color).mark_all_appearances();
    assert forall|i: int| 0 <= i < s.tiles.len() implies (#[trigger] m.paint_all().tiles[i]) == paint(
        m.config,
        m.tiles[i],
    ) by {}
}

} // verus!
