//! The frame loop: running until a frame's events ask to quit.

use vstd::prelude::*;
use crate::game::{GameState, GameView};
use crate::input::{first_action, lemma_quit_anywhere, Action, EventCode, InputEvent};
use crate::tile::DrawCommand;

verus! {

/// Whether the frame loop goes on.
#[derive(Clone, Copy, Debug, PartialEq, Eq, Structural)]
pub enum LoopState {
    Running,
    Stopped,
}

/// The frame loop as a mathematical value.
pub struct FrameView {
    pub game: GameView,
    pub state: LoopState,
}

impl FrameView {
    /// The loop after one frame with the given events. A stopped loop stays
    /// as it is. A running loop has the events handled, and stops where their
    /// first action is to quit.
    pub open spec fn step(self, events: Seq<InputEvent>) -> FrameView {
        match self.state {
            LoopState::Stopped => self,
            LoopState::Running => FrameView {
                game: self.game.after_events(events),
                state: if first_action(events) == Some(Action::Quit) {
                    LoopState::Stopped
                } else {
                    LoopState::Running
                },
            },
        }
    }

    /// Whether the frame with the given events is drawn: the loop runs, and
    /// the events do not make it stop.
    pub open spec fn draws_frame(self, events: Seq<InputEvent>) -> bool {
        self.state == LoopState::Running && self.step(events).state == LoopState::Running
    }
}

/// A quit event stops a running loop on its own frame wherever it stands
/// among the frame's events, unless an event before it toggles paint mode or
/// paints; the frame is not drawn and the board is as it was.
pub proof fn lemma_quit_stops_loop(frame: FrameView, events: Seq<InputEvent>, i: int)
    requires
        frame.state == LoopState::Running,
        0 <= i < events.len(),
        events[i].spec_action() == Some(Action::Quit),
        forall|j: int|
            0 <= j < i ==> (#[trigger] events[j]).spec_action().is_none() || events[j].spec_action()
                == Some(Action::Quit),
    ensures
        frame.step(events).state == LoopState::Stopped,
        frame.step(events).game == frame.game,
        !frame.draws_frame(events),
{
    lemma_quit_anywhere(events, i);
}

/// A stopped loop never runs again and never draws.
pub proof fn lemma_stopped_is_terminal(frame: FrameView, events: Seq<InputEvent>)
    requires
        frame.state == LoopState::Stopped,
    ensures
        frame.step(events) == frame,
        !frame.draws_frame(events),
{
}

/// The board together with the state of the loop that drives it.
pub struct FrameLoop {
    game: GameState,
    state: LoopState,
}

impl View for FrameLoop {
    type V = FrameView;

    closed spec fn view(&self) -> FrameView {
        FrameView { game: self.game@, state: self.state }
    }
}

impl FrameLoop {
    /// The board is well formed.
    pub closed spec fn wf(&self) -> bool {
        self.game.wf()
    }

    /// A running loop over the board at startup.
    pub fn new() -> (frame_loop: FrameLoop)
        ensures
            frame_loop.wf(),
            frame_loop@.state == LoopState::Running,
            frame_loop@.game.wf(),
    {
        FrameLoop { game: GameState::new(), state: LoopState::Running }
    }

    /// The board.
    pub fn game(&self) -> (game: &GameState)
        requires
            self.wf(),
        ensures
            game.wf(),
            game@ == self@.game,
    {
        &self.game
    }

    /// Whether the loop goes on.
    pub fn state(&self) -> (state: LoopState)
        ensures
            state == self@.state,
    {
        self.state
    }

    /// Whether the loop goes on.
    pub fn is_running(&self) -> (running: bool)
        ensures
            running == (self@.state == LoopState::Running),
    {
        match self.state {
            LoopState::Running => true,
            LoopState::Stopped => false,
        }
    }

    /// One frame: handles the frame's events and, unless the loop is stopped
    /// or they stop it, returns the draws that show the board.
    pub fn step(&mut self, events: &Vec<InputEvent>) -> (draws: Option<Vec<DrawCommand>>)
        requires
            old(self).wf(),
        ensures
            final(self).wf(),
            final(self)@ == old(self)@.step(events@),
            draws.is_some() == old(self)@.draws_frame(events@),
            match draws {
                Some(list) => {
                    &&& list@ == final(self)@.game.draws()
                    &&& forall|i: int| 0 <= i < list@.len() ==> (#[trigger] list@[i]).dest.wf()
                },
                None => true,
            },
    {
        match self.state {
            LoopState::Stopped => None,
            LoopState::Running => {
                match self.game.handle_events(events) {
                    Some(EventCode::Quit) => {
                        self.state = LoopState::Stopped;
                        None
                    },
                    None => Some(self.game.render()),
                }
            },
        }
    }
}

} // verus!
