//! The keyboard as the game sees it, and the edit that each key requests.

use vstd::prelude::*;
use crate::text_buffer::Edit;

verus! {

/// A key of the keyboard. Keys the game gives no meaning to are `Other`.
#[derive(Clone, Copy, Debug, PartialEq, Eq, Structural)]
pub enum Key {
    Return,
    Left,
    Up,
    Right,
    Down,
    Back,
    Space,
    Escape,
    Key0,
    Key1,
    Key2,
    Key3,
    Key4,
    Key5,
    Key6,
    Key7,
    Key8,
    Key9,
    Numpad0,
    Numpad1,
    Numpad2,
    Numpad3,
    Numpad4,
    Numpad5,
    Numpad6,
    Numpad7,
    Numpad8,
    Numpad9,
    A,
    B,
    C,
    D,
    E,
    F,
    G,
    H,
    I,
    J,
    K,
    L,
    M,
    N,
    O,
    P,
    Q,
    R,
    S,
    T,
    U,
    V,
    W,
    X,
    Y,
    Z,
    Other,
}

/// The key that starts the game from the stopped mode.
pub open spec fn is_start_key(k: Key) -> bool {
    k == Key::Space
}

/// The edit a newly pressed key requests while the game runs: letters give
/// their lowercase character, digits of the main row and of the numeric pad
/// give the same digit, space gives a space, backspace deletes before the
/// cursor, the left and right arrows move the cursor, and any other key
/// (enter, up, down, escape among them) does nothing.
pub open spec fn edit_of(k: Key) -> Edit {
    match k {
        Key::Back => Edit::DeleteBefore,
        Key::Left => Edit::CursorLeft,
        Key::Right => Edit::CursorRight,
        Key::Space => Edit::Insert(' '),
        Key::Key0 => Edit::Insert('0'),
        Key::Key1 => Edit::Insert('1'),
        Key::Key2 => Edit::Insert('2'),
        Key::Key3 => Edit::Insert('3'),
        Key::Key4 => Edit::Insert('4'),
        Key::Key5 => Edit::Insert('5'),
        Key::Key6 => Edit::Insert('6'),
        Key::Key7 => Edit::Insert('7'),
        Key::Key8 => Edit::Insert('8'),
        Key::Key9 => Edit::Insert('9'),
        Key::Numpad0 => Edit::Insert('0'),
        Key::Numpad1 => Edit::Insert('1'),
        Key::Numpad2 => Edit::Insert('2'),
        Key::Numpad3 => Edit::Insert('3'),
        Key::Numpad4 => Edit::Insert('4'),
        Key::Numpad5 => Edit::Insert('5'),
        Key::Numpad6 => Edit::Insert('6'),
        Key::Numpad7 => Edit::Insert('7'),
        Key::Numpad8 => Edit::Insert('8'),
        Key::Numpad9 => Edit::Insert('9'),
        Key::A => Edit::Insert('a'),
        Key::B => Edit::Insert('b'),
        Key::C => Edit::Insert('c'),
        Key::D => Edit::Insert('d'),
        Key::E => Edit::Insert('e'),
        Key::F => Edit::Insert('f'),
        Key::G => Edit::Insert('g'),
        Key::H => Edit::Insert('h'),
        Key::I => Edit::Insert('i'),
        Key::J => Edit::Insert('j'),
        Key::K => Edit::Insert('k'),
        Key::L => Edit::Insert('l'),
        Key::M => Edit::Insert('m'),
        Key::N => Edit::Insert('n'),
        Key::O => Edit::Insert('o'),
        Key::P => Edit::Insert('p'),
        Key::Q => Edit::Insert('q'),
        Key::R => Edit::Insert('r'),
        Key::S => Edit::Insert('s'),
        Key::T => Edit::Insert('t'),
        Key::U => Edit::Insert('u'),
        Key::V => Edit::Insert('v'),
        Key::W => Edit::Insert('w'),
        Key::X => Edit::Insert('x'),
        Key::Y => Edit::Insert('y'),
        Key::Z => Edit::Insert('z'),
        _ => Edit::Nothing,
    }
}

/// The edit that a newly pressed key requests.
pub fn edit_for_key(k: Key) -> (r: Edit)
    ensures
        r == edit_of(k),
{
    match k {
        Key::Back => Edit::DeleteBefore,
        Key::Left => Edit::CursorLeft,
        Key::Right => Edit::CursorRight,
        Key::Space => Edit::Insert(' '),
        Key::Key0 => Edit::Insert('0'),
        Key::Key1 => Edit::Insert('1'),
        Key::Key2 => Edit::Insert('2'),
        Key::Key3 => Edit::Insert('3'),
        Key::Key4 => Edit::Insert('4'),
        Key::Key5 => Edit::Insert('5'),
        Key::Key6 => Edit::Insert('6'),
        Key::Key7 => Edit::Insert('7'),
        Key::Key8 => Edit::Insert('8'),
        Key::Key9 => Edit::Insert('9'),
        Key::Numpad0 => Edit::Insert('0'),
        Key::Numpad1 => Edit::Insert('1'),
        Key::Numpad2 => Edit::Insert('2'),
        Key::Numpad3 => Edit::Insert('3'),
        Key::Numpad4 => Edit::Insert('4'),
        Key::Numpad5 => Edit::Insert('5'),
        Key::Numpad6 => Edit::Insert('6'),
        Key::Numpad7 => Edit::Insert('7'),
        Key::Numpad8 => Edit::Insert('8'),
        Key::Numpad9 => Edit::Insert('9'),
        Key::A => Edit::Insert('a'),
        Key::B => Edit::Insert('b'),
        Key::C => Edit::Insert('c'),
        Key::D => Edit::Insert('d'),
        Key::E => Edit::Insert('e'),
        Key::F => Edit::Insert('f'),
        Key::G => Edit::Insert('g'),
        Key::H => Edit::Insert('h'),
        Key::I => Edit::Insert('i'),
        Key::J => Edit::Insert('j'),
        Key::K => Edit::Insert('k'),
        Key::L => Edit::Insert('l'),
        Key::M => Edit::Insert('m'),
        Key::N => Edit::Insert('n'),
        Key::O => Edit::Insert('o'),
        Key::P => Edit::Insert('p'),
        Key::Q => Edit::Insert('q'),
        Key::R => Edit::Insert('r'),
        Key::S => Edit::Insert('s'),
        Key::T => Edit::Insert('t'),
        Key::U => Edit::Insert('u'),
        Key::V => Edit::Insert('v'),
        Key::W => Edit::Insert('w'),
        Key::X => Edit::Insert('x'),
        Key::Y => Edit::Insert('y'),
        Key::Z => Edit::Insert('z'),
        _ => Edit::Nothing,
    }
}

/// Whether `k` is the key that starts the game.
pub fn starts_game(k: Key) -> (r: bool)
    ensures
        r == is_start_key(k),
{
    matches!(k, Key::Space)
}

} // verus!
