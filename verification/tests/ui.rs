use auv::ui::{is_consumed, Command, Key, PlayerState, WindowEvent};

fn press(state: &mut PlayerState, key: Key) -> Command {
    state.handle(WindowEvent::KeyDown(key))
}

#[test]
fn player_starts_playing_at_full_volume() {
    let state = PlayerState::new();
    assert!(!state.paused());
    assert_eq!(state.volume(), 100);
    assert_eq!(state.mute(), 0);
}

#[test]
fn keys_have_their_commands() {
    let mut state = PlayerState::new();
    let expected = [
        (Key::Char('f'), Command::ToggleFullscreen),
        (Key::Char('F'), Command::ToggleFullscreen),
        (Key::Char('s'), Command::Screenshot),
        (Key::Char('S'), Command::Screenshot),
        (Key::Left, Command::SeekBy(-10)),
        (Key::Right, Command::SeekBy(10)),
        (Key::Char('['), Command::SeekBy(-5)),
        (Key::Char(']'), Command::SeekBy(5)),
        (Key::Home, Command::SeekToStart),
        (Key::Char('x'), Command::Nothing),
        (Key::Other, Command::Nothing),
    ];
    for (key, command) in expected {
        assert!(press(&mut state, key) == command);
    }
}

#[test]
fn pause_and_mute_toggle() {
    let mut state = PlayerState::new();
    assert!(press(&mut state, Key::Char(' ')) == Command::SetPaused(true));
    assert!(state.paused());
    assert!(press(&mut state, Key::Char(' ')) == Command::SetPaused(false));
    assert!(!state.paused());
    assert!(press(&mut state, Key::Char('m')) == Command::ShowMute(true));
    assert_eq!(state.mute(), 1);
    assert!(press(&mut state, Key::Char('M')) == Command::ShowMute(false));
    assert_eq!(state.mute(), 0);
}

#[test]
fn volume_stays_within_limits() {
    let mut state = PlayerState::new();
    assert!(press(&mut state, Key::Char('+')) == Command::ShowVolume(110));
    assert!(press(&mut state, Key::Char('-')) == Command::ShowVolume(100));
    for _ in 0..30 {
        press(&mut state, Key::Char('='));
    }
    assert_eq!(state.volume(), 200);
    for _ in 0..30 {
        press(&mut state, Key::Char('_'));
    }
    assert_eq!(state.volume(), 0);
}

#[test]
fn closing_quits_and_is_consumed() {
    let mut state = PlayerState::new();
    let command = state.handle(WindowEvent::Close);
    assert!(command == Command::Quit);
    assert!(is_consumed(command));
    assert!(state.handle(WindowEvent::Other) == Command::Nothing);
    assert!(!is_consumed(Command::Screenshot));
}

#[test]
fn new_source_resumes_playing() {
    let mut state = PlayerState::new();
    press(&mut state, Key::Char(' '));
    press(&mut state, Key::Char('m'));
    state.resume();
    assert!(!state.paused());
    assert_eq!(state.mute(), 1);
}
