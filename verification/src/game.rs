//! The board's state, how a frame's events change it, and what is drawn.

use vstd::prelude::*;
use crate::grid::{cell_at, draw_list, hit, laid_out, lemma_cell_at, with_state, Grid};
use crate::input::{first_action, interpret, Action, ClickMode, EventCode, InputEvent};
use crate::layout::{cell_rect, GAME_AREA_HEIGHT, LEGEND_TILE_NUM, VERT_TILE_NUM};
use crate::tile::{DrawCommand, Tile, TileState};

verus! {

/// The board as a mathematical value: both grids column by column, and the
/// paint mode.
pub struct GameView {
    pub tiles: Seq<Seq<Tile>>,
    pub legend: Seq<Seq<Tile>>,
    pub click_mode: ClickMode,
}

impl GameView {
    /// The play area has its twelve rows from the top of the window, and the
    /// legend its four rows directly below.
    pub open spec fn wf(self) -> bool {
        &&& laid_out(self.tiles, 0, VERT_TILE_NUM as int)
        &&& laid_out(self.legend, GAME_AREA_HEIGHT as int, LEGEND_TILE_NUM as int)
    }

    /// The board after a press at the pixel `(x, y)`: in residential mode the
    /// cell of the play area at that pixel becomes residential; otherwise, or
    /// where no cell is, nothing changes.
    pub open spec fn pressed(self, x: int, y: int) -> GameView {
        match (self.click_mode, cell_at(self.tiles, x, y)) {
            (ClickMode::Residential, Some((row, col))) => GameView {
                tiles: with_state(self.tiles, row, col, TileState::Residential),
                ..self
            },
            _ => self,
        }
    }

    /// The board after an action.
    pub open spec fn apply(self, action: Action) -> GameView {
        match action {
            Action::Quit => self,
            Action::ToggleMode => GameView { click_mode: self.click_mode.spec_toggled(), ..self },
            Action::Paint { x, y } => self.pressed(x as int, y as int),
        }
    }

    /// The board after a frame's events: after their first action, if they
    /// have one.
    pub open spec fn after_events(self, events: Seq<InputEvent>) -> GameView {
        match first_action(events) {
            Some(action) => self.apply(action),
            None => self,
        }
    }

    /// The draws of one frame: the play area's cells, then the legend's.
    pub open spec fn draws(self) -> Seq<DrawCommand> {
        draw_list(self.tiles) + draw_list(self.legend)
    }
}

/// Toggling paint mode twice gives the board back: the mode is what it was,
/// and no cell has changed. One toggle alone changes the mode and no cell.
pub proof fn lemma_toggle_twice_restores(board: GameView)
    ensures
        board.apply(Action::ToggleMode).apply(Action::ToggleMode) == board,
        board.apply(Action::ToggleMode).click_mode != board.click_mode,
        board.apply(Action::ToggleMode).tiles == board.tiles,
        board.apply(Action::ToggleMode).legend == board.legend,
{
}

/// Two frames that each toggle paint mode leave the board as it was before
/// them.
pub proof fn lemma_toggle_frames_restore(
    board: GameView,
    first: Seq<InputEvent>,
    second: Seq<InputEvent>,
)
    requires
        first_action(first) == Some(Action::ToggleMode),
        first_action(second) == Some(Action::ToggleMode),
    ensures
        board.after_events(first).after_events(second) == board,
{
    lemma_toggle_twice_restores(board);
}

/// A frame whose action is a press inside a cell of the play area makes that
/// cell residential in residential mode, and changes no other cell's state,
/// no rectangle and not the mode; with paint mode off the same frame changes
/// nothing.
pub proof fn lemma_press_in_cell(
    board: GameView,
    events: Seq<InputEvent>,
    x: i32,
    y: i32,
    row: int,
    col: int,
)
    requires
        board.wf(),
        first_action(events) == Some(Action::Paint { x, y }),
        hit(board.tiles, x as int, y as int, row, col),
    ensures
        board.click_mode == ClickMode::Off ==> board.after_events(events) == board,
        board.click_mode == ClickMode::Residential ==> {
            let after = board.after_events(events);
            &&& after.wf()
            &&& after.click_mode == board.click_mode
            &&& after.legend == board.legend
            &&& after.tiles == with_state(board.tiles, row, col, TileState::Residential)
            &&& after.tiles[col][row].tile_state == TileState::Residential
            &&& after.tiles[col][row].rect == board.tiles[col][row].rect
            &&& forall|r: int, c: int|
                0 <= c < board.tiles.len() && 0 <= r < board.tiles[c].len() && (r != row || c
                    != col) ==> (#[trigger] after.tiles[c][r]) == board.tiles[c][r]
        },
{
    lemma_cell_at(board.tiles, 0, VERT_TILE_NUM as int, x as int, y as int, row, col);
    if board.click_mode == ClickMode::Residential {
        let after = board.after_events(events);
        assert forall|c: int| 0 <= c < after.tiles.len() implies (#[trigger] after.tiles[c]).len()
            == VERT_TILE_NUM by {
            assert(board.tiles[c].len() == VERT_TILE_NUM);
        }
        assert forall|c: int, r: int|
            0 <= c < after.tiles.len() && 0 <= r < VERT_TILE_NUM implies (
        #[trigger] after.tiles[c][r]).rect == cell_rect(0, c, r) by {
            assert(board.tiles[c][r].rect == cell_rect(0, c, r));
        }
    }
}

/// A frame whose action is a press outside every cell of the play area
/// changes nothing, whatever the paint mode.
pub proof fn lemma_press_outside(board: GameView, events: Seq<InputEvent>, x: i32, y: i32)
    requires
        first_action(events) == Some(Action::Paint { x, y }),
        forall|row: int, col: int| !hit(board.tiles, x as int, y as int, row, col),
    ensures
        board.after_events(events) == board,
{
}

/// What handling a frame's events returns: the quit code where their first
/// action is to quit, and nothing otherwise.
pub open spec fn code_of(events: Seq<InputEvent>) -> Option<EventCode> {
    if first_action(events) == Some(Action::Quit) {
        Some(EventCode::Quit)
    } else {
        None
    }
}

/// The board: the play area, the legend, and the paint mode.
pub struct GameState {
    tiles: Grid,
    legend: Grid,
    click_mode: ClickMode,
}

impl View for GameState {
    type V = GameView;

    closed spec fn view(&self) -> GameView {
        GameView { tiles: self.tiles@, legend: self.legend@, click_mode: self.click_mode }
    }
}

impl GameState {
    /// Both grids are complete and lie where they belong.
    pub closed spec fn wf(&self) -> bool {
        &&& self.tiles.wf()
        &&& self.tiles.spec_top() == 0
        &&& self.tiles.spec_rows() == VERT_TILE_NUM
        &&& self.legend.wf()
        &&& self.legend.spec_top() == GAME_AREA_HEIGHT
        &&& self.legend.spec_rows() == LEGEND_TILE_NUM
    }

    /// A well-formed board has a well-formed view.
    pub proof fn lemma_wf_view(&self)
        requires
            self.wf(),
        ensures
            self@.wf(),
    {
    }

    /// The board at startup: every cell of the play area an untouched tile,
    /// every cell of the legend a legend marker, paint mode off.
    pub fn new() -> (game: GameState)
        ensures
            game.wf(),
            game@.wf(),
            game@.click_mode == ClickMode::Off,
            forall|row: int, col: int|
                0 <= col < game@.tiles.len() && 0 <= row < game@.tiles[col].len()
                    ==> game@.tiles[col][row].tile_state == TileState::Tile,
            forall|row: int, col: int|
                0 <= col < game@.legend.len() && 0 <= row < game@.legend[col].len()
                    ==> game@.legend[col][row].tile_state == TileState::Legend,
    {
        let tiles = Grid::play_area();
        let legend = Grid::legend();
        let game = GameState { tiles, legend, click_mode: ClickMode::Off };
        proof {
            assert forall|row: int, col: int|
                0 <= col < game@.tiles.len() && 0 <= row < game@.tiles[col].len()
                    implies game@.tiles[col][row].tile_state == TileState::Tile by {
                assert(game.tiles.in_bounds(row, col));
                assert(game.tiles.state_at(row, col) == TileState::Tile);
            }
            assert forall|row: int, col: int|
                0 <= col < game@.legend.len() && 0 <= row < game@.legend[col].len()
                    implies game@.legend[col][row].tile_state == TileState::Legend by {
                assert(game.legend.in_bounds(row, col));
                assert(game.legend.state_at(row, col) == TileState::Legend);
            }
        }
        game
    }

    /// The play area.
    pub fn tiles(&self) -> (grid: &Grid)
        requires
            self.wf(),
        ensures
            grid.wf(),
            grid@ == self@.tiles,
            grid.spec_top() == 0,
            grid.spec_rows() == VERT_TILE_NUM,
    {
        &self.tiles
    }

    /// The legend.
    pub fn legend(&self) -> (grid: &Grid)
        requires
            self.wf(),
        ensures
            grid.wf(),
            grid@ == self@.legend,
            grid.spec_top() == GAME_AREA_HEIGHT,
            grid.spec_rows() == LEGEND_TILE_NUM,
    {
        &self.legend
    }

    /// The paint mode.
    pub fn click_mode(&self) -> (mode: ClickMode)
        ensures
            mode == self@.click_mode,
    {
        self.click_mode
    }

    /// Handles a press at the pixel `(x, y)`: in residential mode the cell of
    /// the play area at that pixel, if there is one, becomes residential.
    pub fn press(&mut self, x: i32, y: i32)
        requires
            old(self).wf(),
        ensures
            final(self).wf(),
            final(self)@ == old(self)@.pressed(x as int, y as int),
    {
        match self.tiles.find_cell(x, y) {
            Some((row, col)) => {
                if self.click_mode == ClickMode::Residential {
                    self.tiles.set_state(row, col, TileState::Residential);
                }
            },
            None => {},
        }
    }

    /// Carries out one action. Returns the quit code for `Quit`, which
    /// changes nothing, and nothing for the other actions.
    pub fn apply(&mut self, action: Action) -> (code: Option<EventCode>)
        requires
            old(self).wf(),
        ensures
            final(self).wf(),
            final(self)@ == old(self)@.apply(action),
            code == (if action == Action::Quit {
                Some(EventCode::Quit)
            } else {
                None
            }),
    {
        match action {
            Action::Quit => Some(EventCode::Quit),
            Action::ToggleMode => {
                self.click_mode = self.click_mode.toggled();
                None
            },
            Action::Paint { x, y } => {
                self.press(x, y);
                None
            },
        }
    }

    /// Handles the events of one frame: the first event that asks for an
    /// action has it carried out, and the events after it are not looked at.
    pub fn handle_events(&mut self, events: &Vec<InputEvent>) -> (code: Option<EventCode>)
        requires
            old(self).wf(),
        ensures
            final(self).wf(),
            final(self)@ == old(self)@.after_events(events@),
            code == code_of(events@),
    {
        match interpret(events) {
            Some(action) => self.apply(action),
            None => None,
        }
    }

    /// The draws that show the board: every cell of the play area, then every
    /// cell of the legend, each with the image of its state.
    pub fn render(&self) -> (draws: Vec<DrawCommand>)
        requires
            self.wf(),
        ensures
            draws@ == self@.draws(),
            forall|i: int| 0 <= i < draws@.len() ==> (#[trigger] draws@[i]).dest.wf(),
    {
        let mut draws: Vec<DrawCommand> = Vec::new();
        self.tiles.append_draws(&mut draws);
        self.legend.append_draws(&mut draws);
        draws
    }
}

} // verus!
