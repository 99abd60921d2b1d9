use rmus::player::{Action, Command, Input, Mode, Player, DEFAULT_VOLUME};

fn at(volume: u32) -> Player {
    Player { mode: Mode::Playing, volume }
}

#[test]
fn new_session_plays_at_full_volume() {
    let p = Player::new();
    assert_eq!(p.mode, Mode::Playing);
    assert_eq!(p.volume, DEFAULT_VOLUME);
    assert_eq!(p.volume, 10);
    assert!(!p.is_paused());
    assert!(p.is_running());
}

#[test]
fn volume_down_from_half_stops_at_one_tenth() {
    let mut p = at(5);
    let mut seen = Vec::new();
    for _ in 0..8 {
        let a = p.handle_input(Input::Key('-'));
        seen.push((a, p.volume));
    }
    assert_eq!(
        seen,
        vec![
            (Action::SetVolume(4), 4),
            (Action::SetVolume(3), 3),
            (Action::SetVolume(2), 2),
            (Action::SetVolume(1), 1),
            (Action::Nothing, 1),
            (Action::Nothing, 1),
            (Action::Nothing, 1),
            (Action::Nothing, 1),
        ]
    );
    assert_eq!(p.mode, Mode::Playing);
}

#[test]
fn volume_up_from_half_stops_at_nine_tenths() {
    let mut p = at(5);
    let mut seen = Vec::new();
    for _ in 0..6 {
        let a = p.handle_input(Input::Key('+'));
        seen.push((a, p.volume));
    }
    assert_eq!(
        seen,
        vec![
            (Action::SetVolume(6), 6),
            (Action::SetVolume(7), 7),
            (Action::SetVolume(8), 8),
            (Action::SetVolume(9), 9),
            (Action::Nothing, 9),
            (Action::Nothing, 9),
        ]
    );
}

#[test]
fn volume_up_at_default_does_nothing() {
    let mut p = Player::new();
    assert_eq!(p.volume_up(), Action::Nothing);
    assert_eq!(p.volume, 10);
}

#[test]
fn volume_down_at_default_lowers_one_tenth() {
    let mut p = Player::new();
    assert_eq!(p.volume_down(), Action::SetVolume(9));
    assert_eq!(p.volume, 9);
    assert_eq!(p.volume_up(), Action::Nothing);
    assert_eq!(p.volume, 9);
}

#[test]
fn volume_down_at_zero_does_nothing() {
    let mut p = at(0);
    assert_eq!(p.volume_down(), Action::Nothing);
    assert_eq!(p.volume, 0);
}

#[test]
fn pause_presses_flip_by_parity() {
    let mut p = Player::new();
    assert_eq!(p.handle_input(Input::Key('c')), Action::Pause);
    assert!(p.is_paused());
    assert_eq!(p.handle_input(Input::Key('c')), Action::Resume);
    assert!(!p.is_paused());
    for _ in 0..4 {
        p.handle_input(Input::Key('c'));
    }
    assert_eq!(p.mode, Mode::Playing);
    for _ in 0..5 {
        p.handle_input(Input::Key('c'));
    }
    assert_eq!(p.mode, Mode::Paused);
    assert_eq!(p.volume, 10);
}

#[test]
fn quit_from_any_state_ignores_later_input() {
    for start in [Mode::Playing, Mode::Paused] {
        let mut p = Player { mode: start, volume: 4 };
        assert_eq!(p.handle_input(Input::Key('q')), Action::Quit);
        assert_eq!(p.mode, Mode::Quit);
        assert!(!p.is_running());
        for i in [Input::Key('c'), Input::Key('-'), Input::Key('+'), Input::Key('q'), Input::Idle] {
            assert_eq!(p.handle_input(i), Action::Nothing);
        }
        assert_eq!(p, Player { mode: Mode::Quit, volume: 4 });
    }
}

#[test]
fn toggle_after_quit_does_nothing() {
    let mut p = Player { mode: Mode::Quit, volume: 6 };
    assert_eq!(p.toggle_pause(), Action::Nothing);
    assert_eq!(p.mode, Mode::Quit);
    assert_eq!(p.apply(Command::VolumeDown), Action::Nothing);
    assert_eq!(p.volume, 6);
}

#[test]
fn other_keys_and_failures_change_nothing() {
    let mut p = at(5);
    for i in [Input::Key('Q'), Input::Key('x'), Input::Key(' '), Input::Idle, Input::Failed] {
        assert_eq!(p.handle_input(i), Action::Nothing);
    }
    assert_eq!(p, at(5));
}

#[test]
fn keys_map_to_commands() {
    assert_eq!(Command::from_key('q'), Some(Command::Quit));
    assert_eq!(Command::from_key('c'), Some(Command::TogglePause));
    assert_eq!(Command::from_key('-'), Some(Command::VolumeDown));
    assert_eq!(Command::from_key('+'), Some(Command::VolumeUp));
    assert_eq!(Command::from_key('C'), None);
    assert_eq!(Command::from_key('='), None);
}

#[test]
fn finished_audio_stops_pacing_but_not_the_loop() {
    let mut p = Player::new();
    assert!(p.should_pace(false));
    assert!(!p.should_pace(true));
    assert!(p.is_running());
    p.handle_input(Input::Idle);
    assert!(p.is_running());
    p.handle_input(Input::Key('c'));
    assert!(!p.should_pace(false));
    p.handle_input(Input::Key('q'));
    assert!(!p.is_running());
}
