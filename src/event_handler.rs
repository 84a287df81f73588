use crate::models::AppEvents;
use vstd::prelude::*;

verus! {

/// A key as the input worker reads it.
#[derive(Clone, Copy, Debug, PartialEq, Eq, Structural)]
pub enum KeyInput {
    Char(char),
    Up,
    Down,
    Other,
}

/// The event a key gives: `q` or `Q` quits, the arrows scroll; a release,
/// or any other key, gives none.
pub open spec fn key_event(key: KeyInput, released: bool) -> Option<AppEvents> {
    if released {
        None
    } else {
        match key {
            KeyInput::Char(c) => if c == 'q' || c == 'Q' {
                Some(AppEvents::QUIT)
            } else {
                None
            },
            KeyInput::Down => Some(AppEvents::DOWN),
            KeyInput::Up => Some(AppEvents::UP),
            KeyInput::Other => None,
        }
    }
}

/// Decodes one key press or release into the event to send, if any.
pub fn handle_key_event(key: KeyInput, released: bool) -> (r: Option<AppEvents>)
    ensures
        r == key_event(key, released),
{
    if released {
        return None;
    }
    match key {
        KeyInput::Char(c) => if c == 'q' || c == 'Q' {
            Some(AppEvents::QUIT)
        } else {
            None
        },
        KeyInput::Down => Some(AppEvents::DOWN),
        KeyInput::Up => Some(AppEvents::UP),
        KeyInput::Other => None,
    }
}

} // verus!
