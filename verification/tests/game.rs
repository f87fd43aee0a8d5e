use tiles::game::GameState;
use tiles::geometry::Rect;
use tiles::input::{Action, ClickMode, EventCode, InputEvent, Key, PointerButton};
use tiles::tile::{Texture, TileState};

fn press(x: i32, y: i32) -> InputEvent {
    InputEvent::PointerDown { button: PointerButton::Primary, x, y }
}

fn toggle() -> InputEvent {
    InputEvent::KeyDown { key: Key::R }
}

fn residential_cells(game: &GameState) -> Vec<(usize, usize)> {
    let mut cells = Vec::new();
    for col in 0..16 {
        for row in 0..12 {
            match game.tiles().state(row, col) {
                TileState::Residential => cells.push((row, col)),
                TileState::Tile => {}
                TileState::Legend => panic!("legend marker in the play area"),
            }
        }
    }
    for col in 0..16 {
        for row in 0..4 {
            assert_eq!(game.legend().state(row, col), TileState::Legend);
        }
    }
    cells
}

#[test]
fn new_game_starts_with_paint_mode_off() {
    let game = GameState::new();
    assert_eq!(game.click_mode(), ClickMode::Off);
    assert_eq!(game.tiles().rows(), 12);
    assert_eq!(game.tiles().cols(), 16);
    assert_eq!(game.legend().rows(), 4);
    assert_eq!(game.legend().cols(), 16);
    assert_eq!(game.legend().top(), 500);
    assert!(residential_cells(&game).is_empty());
}

#[test]
fn toggle_key_flips_the_mode() {
    let mut game = GameState::new();
    assert_eq!(game.handle_events(&vec![toggle()]), None);
    assert_eq!(game.click_mode(), ClickMode::Residential);
    assert_eq!(game.handle_events(&vec![toggle()]), None);
    assert_eq!(game.click_mode(), ClickMode::Off);
    assert!(residential_cells(&game).is_empty());
}

#[test]
fn one_frame_toggles_once() {
    let mut game = GameState::new();
    assert_eq!(game.handle_events(&vec![toggle(), toggle()]), None);
    assert_eq!(game.click_mode(), ClickMode::Residential);
}

#[test]
fn press_in_residential_mode_paints_the_cell() {
    let mut game = GameState::new();
    game.handle_events(&vec![toggle()]);
    assert_eq!(game.handle_events(&vec![press(10, 10)]), None);
    assert_eq!(game.tiles().state(0, 0), TileState::Residential);
    assert_eq!(residential_cells(&game), vec![(0, 0)]);
    assert_eq!(game.click_mode(), ClickMode::Residential);
}

#[test]
fn press_with_paint_mode_off_changes_nothing() {
    let mut game = GameState::new();
    assert_eq!(game.handle_events(&vec![press(10, 10)]), None);
    assert!(residential_cells(&game).is_empty());
    assert_eq!(game.click_mode(), ClickMode::Off);
}

#[test]
fn press_paints_every_cell_it_lands_in() {
    for col in 0..16usize {
        for row in 0..12usize {
            let mut game = GameState::new();
            game.apply(Action::ToggleMode);
            let rect = game.tiles().rect(row, col);
            game.press(rect.x + 25, rect.y + 20);
            assert_eq!(residential_cells(&game), vec![(row, col)]);
            let mut off = GameState::new();
            off.press(rect.x + 25, rect.y + 20);
            assert!(residential_cells(&off).is_empty());
        }
    }
}

#[test]
fn press_on_a_row_boundary_paints_the_lower_cell() {
    let mut game = GameState::new();
    game.apply(Action::ToggleMode);
    game.press(0, 83);
    assert_eq!(residential_cells(&game), vec![(2, 0)]);
    game.press(0, 82);
    assert_eq!(residential_cells(&game), vec![(1, 0), (2, 0)]);
}

#[test]
fn press_outside_the_play_area_changes_nothing() {
    let mut game = GameState::new();
    game.apply(Action::ToggleMode);
    for (x, y) in [(10, 500), (10, 550), (800, 10), (-1, 10), (10, -1), (i32::MAX, i32::MIN)] {
        assert_eq!(game.handle_events(&vec![press(x, y)]), None);
    }
    assert!(residential_cells(&game).is_empty());
}

#[test]
fn painting_twice_keeps_the_cell_residential() {
    let mut game = GameState::new();
    game.apply(Action::ToggleMode);
    game.press(60, 50);
    game.press(60, 50);
    assert_eq!(residential_cells(&game), vec![(1, 1)]);
    game.apply(Action::ToggleMode);
    assert_eq!(residential_cells(&game), vec![(1, 1)]);
}

#[test]
fn secondary_button_is_ignored() {
    let mut game = GameState::new();
    game.apply(Action::ToggleMode);
    let secondary = InputEvent::PointerDown { button: PointerButton::Secondary, x: 10, y: 10 };
    assert_eq!(game.handle_events(&vec![secondary]), None);
    assert!(residential_cells(&game).is_empty());
    assert_eq!(game.handle_events(&vec![secondary, press(110, 10)]), None);
    assert_eq!(residential_cells(&game), vec![(0, 2)]);
}

#[test]
fn quit_and_escape_give_the_quit_code() {
    let mut game = GameState::new();
    assert_eq!(game.handle_events(&vec![InputEvent::Quit]), Some(EventCode::Quit));
    assert_eq!(
        game.handle_events(&vec![InputEvent::KeyDown { key: Key::Escape }]),
        Some(EventCode::Quit)
    );
    assert_eq!(game.click_mode(), ClickMode::Off);
    assert!(residential_cells(&game).is_empty());
}

#[test]
fn quit_before_other_events_leaves_them_undone() {
    let mut game = GameState::new();
    let code = game.handle_events(&vec![InputEvent::Other, InputEvent::Quit, toggle(), press(10, 10)]);
    assert_eq!(code, Some(EventCode::Quit));
    assert_eq!(game.click_mode(), ClickMode::Off);
    assert!(residential_cells(&game).is_empty());
}

#[test]
fn events_after_the_first_action_are_not_considered() {
    let mut game = GameState::new();
    assert_eq!(game.handle_events(&vec![toggle(), InputEvent::Quit]), None);
    assert_eq!(game.click_mode(), ClickMode::Residential);
    assert_eq!(game.handle_events(&vec![press(10, 10), InputEvent::Quit, press(60, 10)]), None);
    assert_eq!(residential_cells(&game), vec![(0, 0)]);
}

#[test]
fn frame_without_events_changes_nothing() {
    let mut game = GameState::new();
    assert_eq!(game.handle_events(&Vec::new()), None);
    assert_eq!(game.handle_events(&vec![InputEvent::Other, InputEvent::KeyDown { key: Key::Other }]), None);
    assert_eq!(game.click_mode(), ClickMode::Off);
    assert!(residential_cells(&game).is_empty());
}

#[test]
fn apply_returns_the_code_for_quit_only() {
    let mut game = GameState::new();
    assert_eq!(game.apply(Action::Quit), Some(EventCode::Quit));
    assert_eq!(game.apply(Action::ToggleMode), None);
    assert_eq!(game.apply(Action::Paint { x: 10, y: 10 }), None);
    assert_eq!(residential_cells(&game), vec![(0, 0)]);
}

#[test]
fn render_draws_play_area_then_legend() {
    let game = GameState::new();
    let draws = game.render();
    assert_eq!(draws.len(), 16 * 12 + 16 * 4);
    for col in 0..16 {
        for row in 0..12 {
            let draw = draws[col * 12 + row];
            assert_eq!(draw.texture, Texture::Tile);
            assert_eq!(draw.dest, game.tiles().rect(row, col));
        }
        for row in 0..4 {
            let draw = draws[192 + col * 4 + row];
            assert_eq!(draw.texture, Texture::LegendTile);
            assert_eq!(draw.dest, game.legend().rect(row, col));
        }
    }
    assert_eq!(draws[0].dest, Rect { x: 0, y: 0, width: 50, height: 42 });
    assert_eq!(draws[192].dest, Rect { x: 0, y: 500, width: 50, height: 42 });
}

#[test]
fn painted_first_cell_is_drawn_as_a_house() {
    let mut game = GameState::new();
    assert_eq!(game.tiles().rect(0, 0), Rect { x: 0, y: 0, width: 50, height: 42 });
    game.handle_events(&vec![toggle()]);
    game.handle_events(&vec![press(10, 10)]);
    assert_eq!(game.tiles().state(0, 0), TileState::Residential);
    let draws = game.render();
    assert_eq!(draws[0].texture, Texture::House);
    assert_eq!(draws[0].texture.index(), 1);
    assert_eq!(draws[0].texture.file_name(), "house.png");
    for draw in &draws[1..192] {
        assert_eq!(draw.texture, Texture::Tile);
    }
    for draw in &draws[192..] {
        assert_eq!(draw.texture, Texture::LegendTile);
    }
}

#[test]
fn every_draw_goes_onto_a_rect_that_clamping_keeps() {
    let mut game = GameState::new();
    game.apply(Action::ToggleMode);
    game.press(799, 499);
    for draw in game.render() {
        let dest = draw.dest;
        assert_eq!(Rect::new(dest.x, dest.y, dest.width, dest.height), dest);
    }
}
