use tiles::geometry::Rect;
use tiles::layout::{
    cell_rect_at, column_left, row_top, FPS, GAME_AREA_HEIGHT, GAME_AREA_WIDTH, HEIGHT,
    HORIZ_TILE_NUM, LEGEND_TILE_NUM, NAME, VERT_TILE_NUM, WIDTH,
};

#[test]
fn constants_have_their_values() {
    assert_eq!(NAME, "Tiles 2");
    assert_eq!(WIDTH, 800);
    assert_eq!(HEIGHT, 600);
    assert_eq!(FPS, 60);
    assert_eq!(HORIZ_TILE_NUM, 16);
    assert_eq!(VERT_TILE_NUM, 12);
    assert_eq!(LEGEND_TILE_NUM, 4);
    assert_eq!(GAME_AREA_WIDTH, 800);
    assert_eq!(GAME_AREA_HEIGHT, 500);
}

#[test]
fn columns_begin_every_fifty_pixels() {
    for col in 0..=HORIZ_TILE_NUM {
        assert_eq!(column_left(col), 50 * col as u32);
    }
    assert_eq!(column_left(HORIZ_TILE_NUM), GAME_AREA_WIDTH);
}

#[test]
fn rows_begin_at_the_nearest_pixel() {
    let expected: [u32; 13] = [0, 42, 83, 125, 167, 208, 250, 292, 333, 375, 417, 458, 500];
    for row in 0..=VERT_TILE_NUM {
        assert_eq!(row_top(row), expected[row]);
    }
    assert_eq!(row_top(VERT_TILE_NUM), GAME_AREA_HEIGHT);
}

#[test]
fn row_edges_agree_with_rounding_a_float() {
    let cell_height = GAME_AREA_HEIGHT as f64 / VERT_TILE_NUM as f64;
    for row in 0..=VERT_TILE_NUM {
        assert_eq!(row_top(row) as i32, (row as f64 * cell_height).round() as i32);
    }
    let cell_width = GAME_AREA_WIDTH as f64 / HORIZ_TILE_NUM as f64;
    for col in 0..=HORIZ_TILE_NUM {
        assert_eq!(column_left(col) as i32, (col as f64 * cell_width).round() as i32);
    }
}

#[test]
fn cell_rect_reaches_to_the_next_edges() {
    assert_eq!(cell_rect_at(0, 0, 0), Rect { x: 0, y: 0, width: 50, height: 42 });
    assert_eq!(cell_rect_at(0, 1, 1), Rect { x: 50, y: 42, width: 50, height: 41 });
    assert_eq!(cell_rect_at(0, 15, 11), Rect { x: 750, y: 458, width: 50, height: 42 });
    assert_eq!(cell_rect_at(500, 0, 0), Rect { x: 0, y: 500, width: 50, height: 42 });
    assert_eq!(cell_rect_at(500, 3, 3), Rect { x: 150, y: 625, width: 50, height: 42 });
    assert_eq!(cell_rect_at(500, 15, 2), Rect { x: 750, y: 583, width: 50, height: 42 });
}
