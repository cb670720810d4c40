use terminal_image_viewer::input::{InputState, Key, Mode};

#[test]
fn fresh_state_is_normal_with_empty_command() {
    let s = InputState::new();
    assert_eq!(s.mode, Mode::Normal);
    assert!(s.command_buffer.is_empty());
}

#[test]
fn quit_keys_only_work_in_normal_mode() {
    let mut s = InputState::new();
    assert!(s.should_quit(Key::Char('q')));
    assert!(s.should_quit(Key::Esc));
    assert!(!s.should_quit(Key::Char('x')));
    assert!(!s.should_quit(Key::Enter));
    s.handle_input(Key::Char(':'));
    assert_eq!(s.mode, Mode::Command);
    assert!(!s.should_quit(Key::Char('q')));
    assert!(!s.should_quit(Key::Esc));
}

#[test]
fn colon_opens_an_empty_command_line() {
    let mut s = InputState::new();
    s.handle_input(Key::Char(':'));
    assert_eq!(s.mode, Mode::Command);
    assert!(s.command_buffer.is_empty());
}

#[test]
fn other_keys_are_ignored_in_normal_mode() {
    let mut s = InputState::new();
    s.handle_input(Key::Char('w'));
    s.handle_input(Key::Enter);
    s.handle_input(Key::Backspace);
    s.handle_input(Key::Other);
    assert_eq!(s.mode, Mode::Normal);
    assert!(s.command_buffer.is_empty());
}

#[test]
fn typing_builds_the_command_buffer() {
    let mut s = InputState::new();
    s.handle_input(Key::Char(':'));
    s.handle_input(Key::Char('w'));
    s.handle_input(Key::Char('q'));
    assert_eq!(s.mode, Mode::Command);
    assert_eq!(s.command_buffer, vec!['w', 'q']);
}

#[test]
fn backspace_deletes_the_last_character() {
    let mut s = InputState::new();
    s.handle_input(Key::Char(':'));
    s.handle_input(Key::Char('a'));
    s.handle_input(Key::Char('b'));
    s.handle_input(Key::Backspace);
    assert_eq!(s.command_buffer, vec!['a']);
    s.handle_input(Key::Backspace);
    assert!(s.command_buffer.is_empty());
    s.handle_input(Key::Backspace);
    assert!(s.command_buffer.is_empty());
    assert_eq!(s.mode, Mode::Command);
}

#[test]
fn enter_submits_and_returns_to_normal_mode() {
    let mut s = InputState::new();
    s.handle_input(Key::Char(':'));
    s.handle_input(Key::Char('q'));
    s.handle_input(Key::Enter);
    assert_eq!(s.mode, Mode::Normal);
    assert!(s.command_buffer.is_empty());
}

#[test]
fn escape_abandons_the_command() {
    let mut s = InputState::new();
    s.handle_input(Key::Char(':'));
    s.handle_input(Key::Char('x'));
    s.handle_input(Key::Esc);
    assert_eq!(s.mode, Mode::Normal);
    assert!(s.command_buffer.is_empty());
}

#[test]
fn unrecognized_keys_leave_command_mode_alone() {
    let mut s = InputState::new();
    s.handle_input(Key::Char(':'));
    s.handle_input(Key::Char('a'));
    s.handle_input(Key::Other);
    assert_eq!(s.mode, Mode::Command);
    assert_eq!(s.command_buffer, vec!['a']);
}

#[test]
fn colon_typed_in_command_mode_is_a_character() {
    let mut s = InputState::new();
    s.handle_input(Key::Char(':'));
    s.handle_input(Key::Char(':'));
    assert_eq!(s.mode, Mode::Command);
    assert_eq!(s.command_buffer, vec![':']);
}
