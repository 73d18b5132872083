//! The rules of the presentation loop that do not depend on a windowing
//! library: which host key is which keypad key, what an input event does,
//! and where and in what colour a pixel is shown.

use vstd::prelude::*;
use crate::keypad::Keypad;

verus! {

/// Side of the square, in window pixels, that shows one display pixel.
pub const SCALE: u32 = 15;

/// Nanoseconds between two cycles at sixty cycles a second.
pub const FRAME_NANOS: u32 = 1_000_000_000 / 60;

/// The character of the key that ends the session.
pub const ESCAPE: char = '\u{1b}';

/// Colour of a lit pixel, as red, green and blue.
pub const LIT: (u8, u8, u8) = (3, 252, 78);

/// Colour of an unlit pixel, as red, green and blue.
pub const UNLIT: (u8, u8, u8) = (20, 20, 20);

/// The keypad key that a host key stands for, the host key being named by
/// the character it types. The four rows `1234`, `qwer`, `asdf`, `zxcv`
/// stand for the keypad rows `123C`, `456D`, `789E`, `A0BF`.
pub open spec fn key_for(symbol: char) -> Option<u8> {
    if symbol == '1' {
        Some(0x1u8)
    } else if symbol == '2' {
        Some(0x2u8)
    } else if symbol == '3' {
        Some(0x3u8)
    } else if symbol == '4' {
        Some(0xCu8)
    } else if symbol == 'q' {
        Some(0x4u8)
    } else if symbol == 'w' {
        Some(0x5u8)
    } else if symbol == 'e' {
        Some(0x6u8)
    } else if symbol == 'r' {
        Some(0xDu8)
    } else if symbol == 'a' {
        Some(0x7u8)
    } else if symbol == 's' {
        Some(0x8u8)
    } else if symbol == 'd' {
        Some(0x9u8)
    } else if symbol == 'f' {
        Some(0xEu8)
    } else if symbol == 'z' {
        Some(0xAu8)
    } else if symbol == 'x' {
        Some(0x0u8)
    } else if symbol == 'c' {
        Some(0xBu8)
    } else if symbol == 'v' {
        Some(0xFu8)
    } else {
        None
    }
}

/// The keypad key that the host key typing `symbol` stands for, if any.
pub fn decode_key(symbol: char) -> (key: Option<u8>)
    ensures
        key == key_for(symbol),
        key matches Some(k) ==> k < 16,
{
    match symbol {
        '1' => Some(0x1),
        '2' => Some(0x2),
        '3' => Some(0x3),
        '4' => Some(0xC),
        'q' => Some(0x4),
        'w' => Some(0x5),
        'e' => Some(0x6),
        'r' => Some(0xD),
        'a' => Some(0x7),
        's' => Some(0x8),
        'd' => Some(0x9),
        'f' => Some(0xE),
        'z' => Some(0xA),
        'x' => Some(0x0),
        'c' => Some(0xB),
        'v' => Some(0xF),
        _ => None,
    }
}

/// An input event as the host loop sees it. Keys are named by the character
/// they type.
#[derive(Debug, Clone, Copy, PartialEq, Eq, Structural)]
pub enum HostEvent {
    /// The window was closed.
    Quit,
    /// A key went down.
    KeyDown(char),
    /// A key came up.
    KeyUp(char),
    /// Anything else.
    Other,
}

/// Whether `event` ends the session: a quit request or the escape key
/// going down.
pub open spec fn ends_session(event: HostEvent) -> bool {
    event == HostEvent::Quit || event == HostEvent::KeyDown(ESCAPE)
}

/// The key flags after `event`: a mapped key going down sets its flag, one
/// coming up clears it, and nothing else has an effect.
pub open spec fn keys_after(keys: Seq<bool>, event: HostEvent) -> Seq<bool> {
    match event {
        HostEvent::KeyDown(symbol) => match key_for(symbol) {
            Some(key) => keys.update(key as int, true),
            None => keys,
        },
        HostEvent::KeyUp(symbol) => match key_for(symbol) {
            Some(key) => keys.update(key as int, false),
            None => keys,
        },
        _ => keys,
    }
}

/// Applies one input event to the keypad and tells whether the loop goes on.
pub fn handle_event(keypad: &mut Keypad, event: HostEvent) -> (go_on: bool)
    ensures
        go_on == !ends_session(event),
        final(keypad)@ == keys_after(old(keypad)@, event),
{
    match event {
        HostEvent::Quit => false,
        HostEvent::KeyDown(symbol) => {
            if symbol == ESCAPE {
                return false;
            }
            if let Some(key) = decode_key(symbol) {
                keypad.key_down(key);
            }
            true
        },
        HostEvent::KeyUp(symbol) => {
            if let Some(key) = decode_key(symbol) {
                keypad.key_up(key);
            }
            true
        },
        HostEvent::Other => true,
    }
}

/// Width and height of the window in window pixels.
pub fn window_size() -> (size: (u32, u32))
    ensures
        size.0 == 15 * 64,
        size.1 == 15 * 32,
{
    (SCALE * 64, SCALE * 32)
}

/// Left and top edge, in window pixels, of the square that shows the
/// display pixel in row `row` and column `col`.
pub fn cell_origin(row: usize, col: usize) -> (origin: (i32, i32))
    requires
        row < 32,
        col < 64,
    ensures
        origin.0 == 15 * col,
        origin.1 == 15 * row,
{
    ((15 * col) as i32, (15 * row) as i32)
}

/// Colour in which a display pixel is shown.
pub fn cell_color(on: bool) -> (color: (u8, u8, u8))
    ensures
        color == if on {
            LIT
        } else {
            UNLIT
        },
{
    if on {
        LIT
    } else {
        UNLIT
    }
}

} // verus!
