use quail::config::{GridConfig, GridError, Rgb};
use quail::fixed::{div_toward_zero, Vec2, FIXED_ONE};
use quail::grid::{setup_tiles, ResizeEvent, Tile, TileGrid};
use quail::tile::{compute_transform, determine_tile_type, TilePosition, TileType, TILE_DEPTH};

fn px(v: i64) -> i64 {
    v * FIXED_ONE
}

fn config(rows: usize, cols: usize) -> GridConfig {
    let mut c = GridConfig::default();
    c.rows = rows;
    c.cols = cols;
    c
}

fn tile_at(g: &TileGrid, row: usize, col: usize) -> Tile {
    g.tiles[row * g.config.cols + col]
}

fn expected_axis(offset: i64, index: usize, count: usize, size: i64, gap: i64) -> i64 {
    offset + div_toward_zero((2 * index as i64 - count as i64) * (size + gap), 2)
}

#[test]
fn generator_creates_one_tile_per_position() {
    for (rows, cols) in [(1usize, 1usize), (1, 5), (4, 3), (7, 7)] {
        let g = setup_tiles(config(rows, cols)).unwrap();
        assert_eq!(g.tiles.len(), rows * cols);
        let mut seen = vec![false; rows * cols];
        for t in g.tiles.iter() {
            assert!(t.position.row < rows && t.position.col < cols);
            let k = t.position.row * cols + t.position.col;
            assert!(!seen[k]);
            seen[k] = true;
            assert!(t.position_dirty && t.appearance_dirty);
            assert_eq!(t.color, None);
        }
        assert!(seen.iter().all(|s| *s));
        assert_eq!(g.tiles[0].position, TilePosition::new(0, 0));
        assert_eq!(g.tiles[rows * cols - 1].position, TilePosition::new(rows - 1, cols - 1));
    }
}

#[test]
fn generator_refuses_empty_grid() {
    assert_eq!(setup_tiles(config(0, 5)).err(), Some(GridError::ConfigurationError));
    assert_eq!(setup_tiles(config(5, 0)).err(), Some(GridError::ConfigurationError));
    assert_eq!(setup_tiles(config(0, 0)).err(), Some(GridError::ConfigurationError));
}

#[test]
fn three_by_three_has_one_floor_tile() {
    let g = setup_tiles(config(3, 3)).unwrap();
    for t in g.tiles.iter() {
        let centre = t.position.row == 1 && t.position.col == 1;
        assert_eq!(t.tile_type, if centre { TileType::Floor } else { TileType::Wall });
    }
}

#[test]
fn classify_outer_ring() {
    let c = config(5, 6);
    assert_eq!(determine_tile_type(&c, &TilePosition::new(0, 3)), TileType::Wall);
    assert_eq!(determine_tile_type(&c, &TilePosition::new(4, 3)), TileType::Wall);
    assert_eq!(determine_tile_type(&c, &TilePosition::new(2, 0)), TileType::Wall);
    assert_eq!(determine_tile_type(&c, &TilePosition::new(2, 5)), TileType::Wall);
    assert_eq!(determine_tile_type(&c, &TilePosition::new(2, 4)), TileType::Floor);
    assert_eq!(determine_tile_type(&c, &TilePosition::new(1, 1)), TileType::Floor);
}

#[test]
fn narrow_grids_are_all_wall() {
    for (rows, cols) in [(1usize, 1usize), (2, 2), (2, 9), (9, 1)] {
        let g = setup_tiles(config(rows, cols)).unwrap();
        assert!(g.tiles.iter().all(|t| t.tile_type == TileType::Wall));
    }
}

#[test]
fn explicit_tile_size_scenario() {
    let mut c = config(40, 80);
    c.tile_size = Vec2::new(px(20), px(20));
    c.tile_gap = Vec2::new(px(1), px(1));
    c.tile_offset = Vec2::new(0, 0);
    let mut g = setup_tiles(c).unwrap();
    g.update_positions();
    let t = tile_at(&g, 0, 0);
    assert_eq!(t.transform.x, px(-840));
    assert_eq!(t.transform.y, px(-420));
    assert_eq!(t.transform.z, TILE_DEPTH);
    assert_eq!(t.transform.width, px(20));
    assert_eq!(t.transform.height, px(20));
    let centre = tile_at(&g, 20, 40);
    assert_eq!((centre.transform.x, centre.transform.y), (0, 0));
    let last = tile_at(&g, 39, 79);
    assert_eq!(last.transform.x, px(39 * 21));
    assert_eq!(last.transform.y, px(19 * 21));
}

#[test]
fn odd_grid_positions_use_real_halving() {
    let mut c = config(3, 3);
    c.tile_size = Vec2::new(px(10), px(10));
    c.tile_gap = Vec2::new(0, 0);
    let t = compute_transform(&c, &TilePosition::new(0, 0));
    assert_eq!(t.x, -px(15));
    let t = compute_transform(&c, &TilePosition::new(1, 2));
    assert_eq!((t.x, t.y), (px(5), -px(5)));
}

#[test]
fn resize_scenario() {
    let mut c = config(20, 20);
    c.tile_gap = Vec2::new(px(1), px(1));
    c.width_fraction = FIXED_ONE / 2;
    c.height_fraction = FIXED_ONE / 2;
    let mut g = setup_tiles(c).unwrap();
    g.tick(&[]);
    g.handle_window_resize(&[ResizeEvent { width: px(800), height: px(600) }]);
    assert_eq!(g.config.tile_size, Vec2::new(px(19), px(14)));
    assert_eq!(g.config.tile_offset, Vec2::new(-px(381) / 2, -px(143)));
    g.update_positions();
    let t = tile_at(&g, 10, 10);
    assert_eq!(t.transform.x, -px(381) / 2);
    assert_eq!(t.transform.y, -px(143));
    assert_eq!((t.transform.width, t.transform.height), (px(19), px(14)));
    let t = tile_at(&g, 0, 0);
    assert_eq!(t.transform.x, -px(781) / 2);
    assert_eq!(t.transform.y, -px(143 + 150));
}

#[test]
fn resize_marks_all_dirty_then_layout_clears() {
    let mut g = setup_tiles(GridConfig::default()).unwrap();
    g.update_positions();
    g.update_appearance();
    assert!(g.tiles.iter().all(|t| !t.position_dirty && !t.appearance_dirty));
    let events = vec![ResizeEvent { width: px(800), height: px(600) }];
    g.handle_window_resize(&events);
    assert!(g.tiles.iter().all(|t| t.position_dirty && !t.appearance_dirty));
    assert_eq!(g.events_read, 1);
    g.update_positions();
    let c = g.config;
    for t in g.tiles.iter() {
        assert!(!t.position_dirty);
        let p = t.position;
        assert_eq!(t.transform.x, expected_axis(c.tile_offset.x, p.col, c.cols, c.tile_size.x, c.tile_gap.x));
        assert_eq!(t.transform.y, expected_axis(c.tile_offset.y, p.row, c.rows, c.tile_size.y, c.tile_gap.y));
    }
}

#[test]
fn resize_events_are_read_once_and_newest_wins() {
    let mut g = setup_tiles(GridConfig::default()).unwrap();
    g.update_positions();
    let mut events = vec![
        ResizeEvent { width: px(400), height: px(400) },
        ResizeEvent { width: px(800), height: px(600) },
    ];
    g.handle_window_resize(&events);
    assert_eq!(g.events_read, 2);
    assert_eq!(g.config.tile_size, Vec2::new(px(19), px(14)));
    g.update_positions();
    let before: Vec<Tile> = g.tiles.clone();
    let config_before = g.config;
    g.handle_window_resize(&events);
    assert_eq!(g.tiles, before);
    assert_eq!(g.config, config_before);
    events.push(ResizeEvent { width: px(1000), height: px(1000) });
    g.handle_window_resize(&events);
    assert_eq!(g.events_read, 3);
    assert_eq!(g.config.tile_size, Vec2::new(px(24), px(24)));
}

#[test]
fn tiny_window_gives_zero_sized_tiles() {
    let mut g = setup_tiles(GridConfig::default()).unwrap();
    g.handle_window_resize(&[ResizeEvent { width: px(10), height: 0 }]);
    assert_eq!(g.config.tile_size, Vec2::new(0, 0));
    assert_eq!(g.config.tile_offset, Vec2::new(-px(10), -px(10)));
}

#[test]
fn passes_are_idempotent() {
    let mut c = config(6, 9);
    c.tile_size = Vec2::new(px(7), px(5));
    c.tile_gap = Vec2::new(px(2), 3);
    c.tile_offset = Vec2::new(px(-11), 17);
    let mut g = setup_tiles(c).unwrap();
    g.update_positions();
    g.update_appearance();
    let once: Vec<Tile> = g.tiles.clone();
    g.update_positions();
    g.update_appearance();
    assert_eq!(g.tiles, once);
}

#[test]
fn clean_tiles_are_not_recomputed() {
    let mut g = setup_tiles(config(4, 4)).unwrap();
    g.update_positions();
    g.update_appearance();
    let before: Vec<Tile> = g.tiles.clone();
    g.config.tile_size = Vec2::new(px(50), px(50));
    g.config.wall_color = Rgb::new(1, 2, 3);
    g.update_positions();
    g.update_appearance();
    assert_eq!(g.tiles, before);
}

#[test]
fn appearance_follows_category() {
    let mut g = setup_tiles(config(4, 5)).unwrap();
    g.update_appearance();
    for t in g.tiles.iter() {
        let want = match t.tile_type {
            TileType::Wall => Rgb::new(0, 0, 0),
            TileType::Floor => Rgb::new(255, 255, 255),
        };
        assert_eq!(t.color, Some(want));
        assert!(!t.appearance_dirty);
        assert!(t.position_dirty);
    }
}

#[test]
fn ground_color_change_repaints_floor_only() {
    let mut g = setup_tiles(config(5, 5)).unwrap();
    g.update_appearance();
    let before: Vec<Tile> = g.tiles.clone();
    let green = Rgb::new(0, 200, 0);
    g.set_ground_color(green);
    g.mark_all_appearance_dirty();
    assert!(g.tiles.iter().all(|t| t.appearance_dirty));
    g.update_appearance();
    for (t, b) in g.tiles.iter().zip(before.iter()) {
        match t.tile_type {
            TileType::Floor => assert_eq!(t.color, Some(green)),
            TileType::Wall => assert_eq!(t, b),
        }
    }
    assert_eq!(g.tiles.iter().filter(|t| t.color == Some(green)).count(), 9);
}

#[test]
fn tick_resizes_after_layout() {
    let mut g = setup_tiles(GridConfig::default()).unwrap();
    let events = vec![ResizeEvent { width: px(800), height: px(600) }];
    g.tick(&events);
    assert!(g.tiles.iter().all(|t| t.position_dirty && !t.appearance_dirty && t.color.is_some()));
    assert_eq!(g.tiles[0].transform.width, 0);
    g.tick(&events);
    assert!(g.tiles.iter().all(|t| !t.position_dirty));
    assert_eq!(g.tiles[0].transform.width, px(19));
}

#[test]
fn default_config_values() {
    let c = GridConfig::default();
    assert_eq!((c.rows, c.cols), (20, 20));
    assert_eq!(c.tile_gap, Vec2::new(FIXED_ONE, FIXED_ONE));
    assert_eq!((c.width_fraction, c.height_fraction), (FIXED_ONE / 2, FIXED_ONE / 2));
    assert_eq!(c.ground_color, Rgb::new(255, 255, 255));
    assert_eq!(c.wall_color, Rgb::new(0, 0, 0));
    assert_eq!(c.check(), Ok(()));
}

#[test]
fn division_rounds_toward_zero() {
    assert_eq!(div_toward_zero(7, 2), 3);
    assert_eq!(div_toward_zero(-7, 2), -3);
    assert_eq!(div_toward_zero(-8, 2), -4);
    assert_eq!(div_toward_zero(0, 5), 0);
}
