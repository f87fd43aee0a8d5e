use tiles::frame::{FrameLoop, LoopState};
use tiles::input::{ClickMode, InputEvent, Key, PointerButton};
use tiles::tile::{Texture, TileState};

fn press(x: i32, y: i32) -> InputEvent {
    InputEvent::PointerDown { button: PointerButton::Primary, x, y }
}

#[test]
fn loop_starts_running() {
    let frames = FrameLoop::new();
    assert_eq!(frames.state(), LoopState::Running);
    assert!(frames.is_running());
    assert_eq!(frames.game().click_mode(), ClickMode::Off);
}

#[test]
fn frame_without_quit_is_drawn() {
    let mut frames = FrameLoop::new();
    let draws = frames.step(&Vec::new()).unwrap();
    assert_eq!(draws.len(), 256);
    assert!(frames.is_running());
    let draws = frames.step(&vec![InputEvent::KeyDown { key: Key::R }]).unwrap();
    assert_eq!(draws.len(), 256);
    assert_eq!(frames.game().click_mode(), ClickMode::Residential);
    let draws = frames.step(&vec![press(10, 10)]).unwrap();
    assert_eq!(draws[0].texture, Texture::House);
    assert_eq!(draws[1].texture, Texture::Tile);
    assert_eq!(frames.state(), LoopState::Running);
}

#[test]
fn quit_stops_the_loop_on_that_frame() {
    for position in 0..5 {
        let mut events = vec![InputEvent::Other; 5];
        events[position] = InputEvent::Quit;
        let mut frames = FrameLoop::new();
        assert!(frames.step(&events).is_none());
        assert_eq!(frames.state(), LoopState::Stopped);
        assert!(!frames.is_running());
    }
}

#[test]
fn escape_stops_the_loop() {
    let mut frames = FrameLoop::new();
    assert!(frames.step(&vec![InputEvent::KeyDown { key: Key::Escape }, press(10, 10)]).is_none());
    assert!(!frames.is_running());
    assert_eq!(frames.game().tiles().state(0, 0), TileState::Tile);
}

#[test]
fn quit_behind_an_action_waits_for_a_later_frame() {
    let mut frames = FrameLoop::new();
    let events = vec![InputEvent::KeyDown { key: Key::R }, InputEvent::Quit];
    assert!(frames.step(&events).is_some());
    assert!(frames.is_running());
    assert_eq!(frames.game().click_mode(), ClickMode::Residential);
    assert!(frames.step(&vec![InputEvent::Quit]).is_none());
    assert!(!frames.is_running());
}

#[test]
fn stopped_loop_stays_stopped() {
    let mut frames = FrameLoop::new();
    frames.step(&vec![InputEvent::Quit]);
    assert!(frames.step(&vec![InputEvent::KeyDown { key: Key::R }]).is_none());
    assert!(frames.step(&vec![press(10, 10)]).is_none());
    assert!(frames.step(&Vec::new()).is_none());
    assert_eq!(frames.state(), LoopState::Stopped);
    assert_eq!(frames.game().click_mode(), ClickMode::Off);
    assert_eq!(frames.game().tiles().state(0, 0), TileState::Tile);
}
