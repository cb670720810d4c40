//! The two-mode, vim-like input state machine.
//!
//! The host UI loop reads keys and feeds them in here; this module decides
//! what each key means in the current mode. Normal mode waits for `:` to
//! open the command line (or a quit key); command mode edits a command
//! buffer character by character until it is submitted or abandoned.

use vstd::prelude::*;

verus! {

/// Which interpretation keys currently get.
#[derive(Clone, Copy, PartialEq, Eq, Structural, Debug)]
pub enum Mode {
    Normal,
    Command,
}

/// A key press, reduced to what the state machine distinguishes.
#[derive(Clone, Copy, PartialEq, Eq, Structural, Debug)]
pub enum Key {
    Char(char),
    Esc,
    Enter,
    Backspace,
    Other,
}

/// The mode and the command line being edited.
pub struct InputState {
    pub mode: Mode,
    pub command_buffer: Vec<char>,
}

/// What a key does in normal mode: `:` opens an empty command line; every
/// other key leaves the state as it is.
pub open spec fn spec_normal_step(pre: InputState, key: Key, post: InputState) -> bool {
    if key == Key::Char(':') {
        post.mode == Mode::Command && post.command_buffer@ == Seq::<char>::empty()
    } else {
        post.mode == Mode::Normal && post.command_buffer@ == pre.command_buffer@
    }
}

/// What a key does in command mode: backspace deletes the last character
/// (and is harmless on an empty line); enter submits and escape abandons
/// the command, both returning to normal mode with the line cleared; any
/// other character is appended; other keys change nothing.
pub open spec fn spec_command_step(pre: InputState, key: Key, post: InputState) -> bool {
    match key {
        Key::Backspace => post.mode == Mode::Command && post.command_buffer@
            == pre.command_buffer@.take(
            if pre.command_buffer@.len() == 0 {
                0
            } else {
                pre.command_buffer@.len() - 1
            },
        ),
        Key::Enter => post.mode == Mode::Normal && post.command_buffer@ == Seq::<char>::empty(),
        Key::Esc => post.mode == Mode::Normal && post.command_buffer@ == Seq::<char>::empty(),
        Key::Char(c) => post.mode == Mode::Command && post.command_buffer@
            == pre.command_buffer@.push(c),
        Key::Other => post.mode == Mode::Command && post.command_buffer@ == pre.command_buffer@,
    }
}

impl InputState {
    /// A fresh session: normal mode, empty command line.
    pub fn new() -> (s: InputState)
        ensures
            s.mode == Mode::Normal,
            s.command_buffer@ == Seq::<char>::empty(),
    {
        InputState { mode: Mode::Normal, command_buffer: Vec::new() }
    }

    /// In normal mode, `q` and escape end the session; nothing else does,
    /// and no key ends it from command mode.
    pub fn should_quit(&self, key: Key) -> (quit: bool)
        ensures
            quit == (self.mode == Mode::Normal && (key == Key::Char('q') || key == Key::Esc)),
    {
        match (self.mode, key) {
            (Mode::Normal, Key::Char(c)) => c == 'q',
            (Mode::Normal, Key::Esc) => true,
            _ => false,
        }
    }

    /// Applies one key press in normal mode.
    pub fn handle_normal_key_input(&mut self, key: Key)
        requires
            old(self).mode == Mode::Normal,
        ensures
            spec_normal_step(*old(self), key, *final(self)),
    {
        match key {
            Key::Char(c) => {
                if c == ':' {
                    self.mode = Mode::Command;
                    self.command_buffer.clear();
                }
            },
            _ => {},
        }
    }

    /// Applies one key press in command mode.
    pub fn handle_command_key_input(&mut self, key: Key)
        requires
            old(self).mode == Mode::Command,
        ensures
            spec_command_step(*old(self), key, *final(self)),
    {
        match key {
            Key::Backspace => {
                self.command_buffer.pop();
                proof {
                    if old(self).command_buffer@.len() > 0 {
                        assert(self.command_buffer@ =~= old(self).command_buffer@.take(
                            old(self).command_buffer@.len() - 1,
                        ));
                    } else {
                        assert(self.command_buffer@ =~= old(self).command_buffer@.take(0));
                    }
                }
            },
            Key::Enter => {
                self.mode = Mode::Normal;
                self.command_buffer.clear();
            },
            Key::Esc => {
                self.mode = Mode::Normal;
                self.command_buffer.clear();
            },
            Key::Char(c) => {
                self.command_buffer.push(c);
            },
            Key::Other => {},
        }
    }

    /// Dispatches one key press to the handler of the current mode.
    pub fn handle_input(&mut self, key: Key)
        ensures
            old(self).mode == Mode::Normal ==> spec_normal_step(*old(self), key, *final(self)),
            old(self).mode == Mode::Command ==> spec_command_step(*old(self), key, *final(self)),
    {
        match self.mode {
            Mode::Normal => self.handle_normal_key_input(key),
            Mode::Command => self.handle_command_key_input(key),
        }
    }
}

} // verus!
