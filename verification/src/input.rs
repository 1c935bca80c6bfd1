//! Keys and the inputs they are bound to.

use vstd::prelude::*;

verus! {

/// How far a page key moves the cursor.
pub const PAGE_SIZE: usize = 50;

/// A key press, reduced to what the bindings tell apart.
#[derive(Clone, Copy, Debug, PartialEq, Eq)]
pub enum Key {
    Char(char),
    PageUp,
    PageDown,
    Left,
    Right,
    /// Any key without a binding.
    Other,
}

/// One discrete input to the session.
#[derive(Clone, Copy, Debug, PartialEq, Eq)]
pub enum Input {
    MoveUp,
    MoveDown,
    PageUp,
    PageDown,
    SwitchFocus,
    Quit,
}

/// The input that a key is bound to: `q` quits, `n` moves down, `p` moves
/// up, the page keys page, and the left and right arrows switch the focus.
/// Every other key is bound to nothing.
pub open spec fn binding(key: Key) -> Option<Input> {
    match key {
        Key::Char(c) => if c == 'q' {
            Some(Input::Quit)
        } else if c == 'n' {
            Some(Input::MoveDown)
        } else if c == 'p' {
            Some(Input::MoveUp)
        } else {
            None
        },
        Key::PageDown => Some(Input::PageDown),
        Key::PageUp => Some(Input::PageUp),
        Key::Left => Some(Input::SwitchFocus),
        Key::Right => Some(Input::SwitchFocus),
        Key::Other => None,
    }
}

/// Looks up the input that a key is bound to.
pub fn input_for_key(key: Key) -> (input: Option<Input>)
    ensures
        input == binding(key),
{
    match key {
        Key::Char(c) => {
            if c == 'q' {
                Some(Input::Quit)
            } else if c == 'n' {
                Some(Input::MoveDown)
            } else if c == 'p' {
                Some(Input::MoveUp)
            } else {
                None
            }
        },
        Key::PageDown => Some(Input::PageDown),
        Key::PageUp => Some(Input::PageUp),
        Key::Left => Some(Input::SwitchFocus),
        Key::Right => Some(Input::SwitchFocus),
        Key::Other => None,
    }
}

} // verus!
