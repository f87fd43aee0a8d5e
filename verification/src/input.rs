//! Input events and the one action that a frame's events come to.

use vstd::prelude::*;

verus! {

/// A key of the keyboard, as far as the board tells keys apart.
#[derive(Clone, Copy, Debug, PartialEq, Eq, Structural)]
pub enum Key {
    Escape,
    R,
    Other,
}

/// A button of the pointer.
#[derive(Clone, Copy, Debug, PartialEq, Eq, Structural)]
pub enum PointerButton {
    Primary,
    Middle,
    Secondary,
    Other,
}

/// One event of the platform's queue.
#[derive(Clone, Copy, Debug, PartialEq, Eq, Structural)]
pub enum InputEvent {
    /// The window was asked to close.
    Quit,
    /// A key went down.
    KeyDown { key: Key },
    /// A pointer button went down at the pixel `(x, y)`.
    PointerDown { button: PointerButton, x: i32, y: i32 },
    /// Anything else.
    Other,
}

/// What the events of one frame ask for.
#[derive(Clone, Copy, Debug, PartialEq, Eq, Structural)]
pub enum Action {
    /// End the frame loop.
    Quit,
    /// Switch paint mode on or off.
    ToggleMode,
    /// Paint the cell at the pixel `(x, y)`.
    Paint { x: i32, y: i32 },
}

/// Whether a press paints.
#[derive(Clone, Copy, Debug, PartialEq, Eq, Structural)]
pub enum ClickMode {
    Off,
    Residential,
}

/// What handling a frame's events tells the frame loop.
#[derive(Clone, Copy, Debug, PartialEq, Eq, Structural)]
pub enum EventCode {
    Quit,
}

impl ClickMode {
    /// The other mode.
    pub open spec fn spec_toggled(self) -> ClickMode {
        match self {
            ClickMode::Off => ClickMode::Residential,
            ClickMode::Residential => ClickMode::Off,
        }
    }

    /// The other mode.
    #[verifier::when_used_as_spec(spec_toggled)]
    pub fn toggled(self) -> (mode: ClickMode)
        ensures
            mode == self.spec_toggled(),
    {
        match self {
            ClickMode::Residential => ClickMode::Off,
            ClickMode::Off => ClickMode::Residential,
        }
    }

    /// Toggling twice gives the mode back.
    pub proof fn lemma_toggle_twice(self)
        ensures
            self.spec_toggled().spec_toggled() == self,
            self.spec_toggled() != self,
    {
    }
}

impl InputEvent {
    /// The action that this event asks for, if it asks for one: closing the
    /// window or Escape quits, R toggles paint mode, a press of the primary
    /// button paints, and nothing else counts.
    pub open spec fn spec_action(self) -> Option<Action> {
        match self {
            InputEvent::Quit => Some(Action::Quit),
            InputEvent::KeyDown { key: Key::Escape } => Some(Action::Quit),
            InputEvent::KeyDown { key: Key::R } => Some(Action::ToggleMode),
            InputEvent::PointerDown { button: PointerButton::Primary, x, y } => Some(
                Action::Paint { x, y },
            ),
            _ => None,
        }
    }

    /// The action that this event asks for, if it asks for one.
    #[verifier::when_used_as_spec(spec_action)]
    pub fn action(self) -> (action: Option<Action>)
        ensures
            action == self.spec_action(),
    {
        match self {
            InputEvent::Quit => Some(Action::Quit),
            InputEvent::KeyDown { key: Key::Escape } => Some(Action::Quit),
            InputEvent::KeyDown { key: Key::R } => Some(Action::ToggleMode),
            InputEvent::PointerDown { button: PointerButton::Primary, x, y } => Some(
                Action::Paint { x, y },
            ),
            _ => None,
        }
    }
}

/// The action of the first event that asks for one; events after it are not
/// looked at.
pub open spec fn first_action(events: Seq<InputEvent>) -> Option<Action>
    decreases events.len(),
{
    if events.len() == 0 {
        None
    } else if events[0].spec_action().is_some() {
        events[0].spec_action()
    } else {
        first_action(events.drop_first())
    }
}

/// Where the first event that asks for an action stands, the frame's action
/// is that event's, whatever follows it.
pub proof fn lemma_first_action_at(events: Seq<InputEvent>, i: int)
    requires
        0 <= i < events.len(),
        events[i].spec_action().is_some(),
        forall|j: int| 0 <= j < i ==> (#[trigger] events[j]).spec_action().is_none(),
    ensures
        first_action(events) == events[i].spec_action(),
    decreases i,
{
    if i > 0 {
        let rest = events.drop_first();
        assert forall|j: int| 0 <= j < i - 1 implies (#[trigger] rest[j]).spec_action().is_none() by {
            assert(rest[j] == events[j + 1]);
        }
        lemma_first_action_at(rest, i - 1);
    }
}

/// Events of which none asks for an action come to no action.
pub proof fn lemma_first_action_none(events: Seq<InputEvent>)
    requires
        forall|j: int| 0 <= j < events.len() ==> (#[trigger] events[j]).spec_action().is_none(),
    ensures
        first_action(events).is_none(),
    decreases events.len(),
{
    if events.len() > 0 {
        let rest = events.drop_first();
        assert forall|j: int| 0 <= j < rest.len() implies (#[trigger] rest[j]).spec_action().is_none() by {
            assert(rest[j] == events[j + 1]);
        }
        lemma_first_action_none(rest);
    }
}

/// A quit event ends the frame wherever it stands among the frame's events,
/// unless an event before it toggles paint mode or paints.
pub proof fn lemma_quit_anywhere(events: Seq<InputEvent>, i: int)
    requires
        0 <= i < events.len(),
        events[i].spec_action() == Some(Action::Quit),
        forall|j: int|
            0 <= j < i ==> (#[trigger] events[j]).spec_action().is_none() || events[j].spec_action()
                == Some(Action::Quit),
    ensures
        first_action(events) == Some(Action::Quit),
    decreases i,
{
    if i > 0 && events[0].spec_action().is_none() {
        let rest = events.drop_first();
        assert forall|j: int| 0 <= j < i - 1 implies (#[trigger] rest[j]).spec_action().is_none()
            || rest[j].spec_action() == Some(Action::Quit) by {
            assert(rest[j] == events[j + 1]);
        }
        lemma_quit_anywhere(rest, i - 1);
    }
}

/// Reads a frame's events in order and stops at the first that asks for an
/// action.
pub fn interpret(events: &Vec<InputEvent>) -> (action: Option<Action>)
    ensures
        action == first_action(events@),
{
    let mut i: usize = 0;
    proof {
        assert(events@.skip(0) == events@);
    }
    while i < events.len()
        invariant
            i <= events@.len(),
            first_action(events@) == first_action(events@.skip(i as int)),
        decreases events@.len() - i,
    {
        let action = events[i].action();
        proof {
            let rest = events@.skip(i as int);
            assert(rest[0] == events@[i as int]);
            assert(rest.drop_first() == events@.skip(i as int + 1));
        }
        if action.is_some() {
            return action;
        }
        i += 1;
    }
    proof {
        assert(events@.skip(i as int).len() == 0);
    }
    None
}

} // verus!
