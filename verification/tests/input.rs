use seishin2d::input::{
    parse_key_code, parse_key_list, DesktopInputFrame, InputState, KeyCode, KeyTransition,
};

#[test]
fn first_press_sets_pressed_and_just_pressed() {
    let mut input = InputState::default();

    input.press(KeyCode::ArrowRight);

    assert!(input.pressed(KeyCode::ArrowRight));
    assert!(input.just_pressed(KeyCode::ArrowRight));
    assert!(!input.just_released(KeyCode::ArrowRight));
}

#[test]
fn repeated_press_does_not_repeat_just_pressed_while_held() {
    let mut input = InputState::default();

    input.press(KeyCode::ArrowRight);
    input.end_frame();

    input.press(KeyCode::ArrowRight);

    assert!(input.pressed(KeyCode::ArrowRight));
    assert!(!input.just_pressed(KeyCode::ArrowRight));
    assert!(!input.just_released(KeyCode::ArrowRight));
}

#[test]
fn release_sets_just_released_once_and_clears_pressed() {
    let mut input = InputState::default();

    input.press(KeyCode::ArrowRight);
    input.end_frame();

    input.release(KeyCode::ArrowRight);

    assert!(!input.pressed(KeyCode::ArrowRight));
    assert!(!input.just_pressed(KeyCode::ArrowRight));
    assert!(input.just_released(KeyCode::ArrowRight));

    input.end_frame();

    assert!(!input.pressed(KeyCode::ArrowRight));
    assert!(!input.just_pressed(KeyCode::ArrowRight));
    assert!(!input.just_released(KeyCode::ArrowRight));
}

#[test]
fn end_of_frame_clears_transition_flags_but_keeps_held_keys() {
    let mut input = InputState::default();

    input.press(KeyCode::ArrowLeft);
    input.end_frame();

    assert!(input.pressed(KeyCode::ArrowLeft));
    assert!(!input.just_pressed(KeyCode::ArrowLeft));
    assert!(!input.just_released(KeyCode::ArrowLeft));
}

#[test]
fn multiple_keys_remain_independent() {
    let mut input = InputState::default();

    input.press(KeyCode::ArrowLeft);
    input.press(KeyCode::ArrowRight);
    input.end_frame();
    input.release(KeyCode::ArrowLeft);

    assert!(!input.pressed(KeyCode::ArrowLeft));
    assert!(input.just_released(KeyCode::ArrowLeft));
    assert!(input.pressed(KeyCode::ArrowRight));
    assert!(!input.just_pressed(KeyCode::ArrowRight));
    assert!(!input.just_released(KeyCode::ArrowRight));
}

#[test]
fn releasing_an_unheld_key_changes_nothing() {
    let mut input = InputState::new();

    input.release(KeyCode::Space);

    assert!(!input.pressed(KeyCode::Space));
    assert!(!input.just_released(KeyCode::Space));
    assert!(!input.is_key_down(KeyCode::Space));
}

#[test]
fn press_and_release_in_one_frame_reports_only_the_release() {
    let mut input = InputState::new();

    input.press(KeyCode::Enter);
    input.release(KeyCode::Enter);

    assert!(!input.pressed(KeyCode::Enter));
    assert!(!input.just_pressed(KeyCode::Enter));
    assert!(input.just_released(KeyCode::Enter));
}

#[test]
fn desktop_input_frame_tracks_key_transitions_across_frame_boundary() {
    let mut frame = DesktopInputFrame::new();
    let mut input = InputState::default();

    frame.apply_keyboard_input(Some(KeyCode::ArrowRight), KeyTransition::Pressed);

    assert!(!frame.begin_game_frame(&mut input));
    assert!(input.pressed(KeyCode::ArrowRight));
    assert!(input.just_pressed(KeyCode::ArrowRight));

    frame.end_game_frame(&input);

    assert!(frame.state().pressed(KeyCode::ArrowRight));
    assert!(!frame.state().just_pressed(KeyCode::ArrowRight));
    assert!(!frame.state().just_released(KeyCode::ArrowRight));

    frame.apply_keyboard_input(Some(KeyCode::ArrowRight), KeyTransition::Released);
    frame.begin_game_frame(&mut input);

    assert!(!input.pressed(KeyCode::ArrowRight));
    assert!(input.just_released(KeyCode::ArrowRight));
}

#[test]
fn desktop_input_frame_requests_exit_on_escape_press() {
    let mut frame = DesktopInputFrame::new();
    let mut input = InputState::default();

    frame.apply_keyboard_input(Some(KeyCode::Escape), KeyTransition::Pressed);

    assert!(frame.begin_game_frame(&mut input));
    assert!(input.pressed(KeyCode::Escape));
    assert!(input.just_pressed(KeyCode::Escape));

    frame.end_game_frame(&input);

    assert!(!frame.escape_requested());
    assert!(frame.state().pressed(KeyCode::Escape));
    assert!(!frame.state().just_pressed(KeyCode::Escape));
}

#[test]
fn unsupported_winit_keys_are_ignored() {
    let mut frame = DesktopInputFrame::new();
    let mut input = InputState::default();

    frame.apply_keyboard_input(None, KeyTransition::Pressed);

    assert!(!frame.begin_game_frame(&mut input));
    assert!(!input.pressed(KeyCode::ArrowRight));
    assert!(!input.pressed(KeyCode::Escape));
}

#[test]
fn key_names_parse_with_and_without_prefix() {
    assert_eq!(parse_key_code("KeyW"), Some(KeyCode::KeyW));
    assert_eq!(parse_key_code("W"), Some(KeyCode::KeyW));
    assert_eq!(parse_key_code("ArrowUp"), Some(KeyCode::ArrowUp));
    assert_eq!(parse_key_code("Escape"), Some(KeyCode::Escape));
    assert_eq!(parse_key_code("w"), None);
    assert_eq!(parse_key_code("F1"), None);
    assert_eq!(
        parse_key_list(vec![
            "Space".to_string(),
            "Bogus".to_string(),
            "D".to_string()
        ]),
        vec![KeyCode::Space, KeyCode::KeyD]
    );
}

#[test]
fn input_state_follows_a_whole_call_sequence() {
    let mut input = InputState::default();
    input.press(KeyCode::KeyW);
    input.press(KeyCode::KeyA);
    input.release(KeyCode::KeyW);
    input.press(KeyCode::KeyW);
    // W was released and pressed again this frame: held and just pressed.
    assert!(input.pressed(KeyCode::KeyW));
    assert!(input.just_pressed(KeyCode::KeyW));
    assert!(!input.just_released(KeyCode::KeyW));
    input.end_frame();
    input.release(KeyCode::KeyA);
    input.release(KeyCode::KeyA);
    input.press(KeyCode::KeyW);
    assert!(input.pressed(KeyCode::KeyW));
    assert!(!input.just_pressed(KeyCode::KeyW));
    assert!(!input.pressed(KeyCode::KeyA));
    assert!(input.just_released(KeyCode::KeyA));
    assert!(!input.pressed(KeyCode::KeyD));
    input.release(KeyCode::KeyD);
    assert!(!input.just_released(KeyCode::KeyD));
    input.end_frame();
    assert!(input.pressed(KeyCode::KeyW));
    assert!(!input.just_released(KeyCode::KeyA));
}
