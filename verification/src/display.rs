//! The display surface: the pixel grid that the engine draws on, and the
//! keypad state that the input layer records on it.

use crate::keyboard::{keypad_key, map_modern_to_chip8};
use vstd::prelude::*;

verus! {

/// Number of pixel columns.
pub const DISPLAY_WIDTH: usize = 64;

/// Number of pixel rows.
pub const DISPLAY_HEIGHT: usize = 32;

/// Number of keys on the keypad.
pub const KEY_COUNT: usize = 16;

/// Side of the square that shows one pixel on a screen, in screen units.
pub const PIXEL_SIZE: i32 = 10;

/// The square that shows the pixel in row `row` and column `column` on a
/// screen area whose top left corner is at (`left`, `top`): the square's left
/// edge, its top edge, its width and its height.
pub fn pixel_rect(left: i32, top: i32, row: usize, column: usize) -> (rect: (i32, i32, i32, i32))
    requires
        row < DISPLAY_HEIGHT,
        column < DISPLAY_WIDTH,
        left + column * PIXEL_SIZE <= i32::MAX,
        top + row * PIXEL_SIZE <= i32::MAX,
    ensures
        rect.0 == left + column * PIXEL_SIZE,
        rect.1 == top + row * PIXEL_SIZE,
        rect.2 == PIXEL_SIZE,
        rect.3 == PIXEL_SIZE,
{
    (left + column as i32 * PIXEL_SIZE, top + row as i32 * PIXEL_SIZE, PIXEL_SIZE, PIXEL_SIZE)
}

/// What the input layer observed.
#[derive(Debug, Clone, Copy, PartialEq, Eq, Structural)]
pub enum InputEvent {
    /// A key went down.
    KeyDown,
    /// A key came up.
    KeyUp,
    /// A key went down as a shortcut.
    Shortcut,
    /// Anything else.
    Other,
}

/// The pixels and the keypad state.
///
/// `pixel_mat[y][x]` is the pixel in row `y` and column `x`.
/// `keys_pressed[k]` tells whether key `k` is held down. `last_key_down` and
/// `last_key_up` each hold at most one key transition that has not expired.
pub struct EmuDisplay {
    pub pixel_mat: [[bool; 64]; 32],
    pub keys_pressed: [bool; 16],
    pub last_key_down: Option<u8>,
    pub last_key_up: Option<u8>,
}

/// The mathematical value of a display surface.
#[verifier::ext_equal]
pub struct DisplayState {
    /// The rows of the grid, top to bottom; each row left to right.
    pub pixels: Seq<Seq<bool>>,
    /// For each key value, whether the key is held down.
    pub keys_pressed: Seq<bool>,
    /// The pending key-down transition.
    pub last_key_down: Option<u8>,
    /// The pending key-up transition.
    pub last_key_up: Option<u8>,
}

/// A grid of `DISPLAY_HEIGHT` rows and `DISPLAY_WIDTH` columns with no pixel
/// lit.
pub open spec fn blank_pixels() -> Seq<Seq<bool>> {
    Seq::new(DISPLAY_HEIGHT as nat, |y: int| Seq::new(DISPLAY_WIDTH as nat, |x: int| false))
}

/// A display surface with no pixel lit, no key pressed and no transition
/// pending.
pub open spec fn blank_display() -> DisplayState {
    DisplayState {
        pixels: blank_pixels(),
        keys_pressed: Seq::new(KEY_COUNT as nat, |k: int| false),
        last_key_down: None,
        last_key_up: None,
    }
}

/// The rows of a pixel matrix as sequences.
pub open spec fn grid_view(mat: [[bool; 64]; 32]) -> Seq<Seq<bool>> {
    Seq::new(DISPLAY_HEIGHT as nat, |y: int| mat@[y]@)
}

/// What a display surface is after the input layer saw `event` for the keypad
/// key `key`, or for a key that is bound to no keypad key.
///
/// A key going down is marked as pressed and becomes the pending key-down
/// transition; a key coming up is marked as released and becomes the pending
/// key-up transition. Every event lets the pending transition of the other
/// direction expire, and an event that is neither lets both expire.
pub open spec fn after_input(d: DisplayState, event: InputEvent, key: Option<u8>) -> DisplayState {
    match event {
        InputEvent::KeyDown | InputEvent::Shortcut => match key {
            Some(k) => DisplayState {
                keys_pressed: d.keys_pressed.update(k as int, true),
                last_key_down: Some(k),
                last_key_up: None,
                ..d
            },
            None => DisplayState { last_key_up: None, ..d },
        },
        InputEvent::KeyUp => match key {
            Some(k) => DisplayState {
                keys_pressed: d.keys_pressed.update(k as int, false),
                last_key_up: Some(k),
                last_key_down: None,
                ..d
            },
            None => DisplayState { last_key_down: None, ..d },
        },
        InputEvent::Other => DisplayState { last_key_down: None, last_key_up: None, ..d },
    }
}

impl View for EmuDisplay {
    type V = DisplayState;

    open spec fn view(&self) -> DisplayState {
        DisplayState {
            pixels: grid_view(self.pixel_mat),
            keys_pressed: self.keys_pressed@,
            last_key_down: self.last_key_down,
            last_key_up: self.last_key_up,
        }
    }
}

impl EmuDisplay {
    /// A blank display with no key pressed and no transition pending.
    pub fn new() -> (d: Self)
        ensures
            d@ == blank_display(),
    {
        let d = EmuDisplay {
            pixel_mat: [[false; 64]; 32],
            keys_pressed: [false; 16],
            last_key_down: None,
            last_key_up: None,
        };
        assert(d@.pixels =~~= blank_pixels());
        d
    }

    /// Records an event of the input layer. `key_char` is the character of
    /// the key concerned, if the key has one. Returns whether the event was a
    /// key event.
    pub fn handle(&mut self, event: InputEvent, key_char: Option<char>) -> (handled: bool)
        ensures
            final(self)@ == after_input(
                old(self)@,
                event,
                match key_char {
                    Some(c) => keypad_key(c),
                    None => None,
                },
            ),
            handled == (event != InputEvent::Other),
    {
        let chip8_key = match key_char {
            Some(c) => map_modern_to_chip8(c),
            None => None,
        };
        match event {
            InputEvent::KeyDown | InputEvent::Shortcut => {
                if let Some(k) = chip8_key {
                    self.keys_pressed[k as usize] = true;
                    self.last_key_down = Some(k);
                }
                self.last_key_up = None;
                true
            },
            InputEvent::KeyUp => {
                if let Some(k) = chip8_key {
                    self.keys_pressed[k as usize] = false;
                    self.last_key_up = Some(k);
                }
                self.last_key_down = None;
                true
            },
            InputEvent::Other => {
                self.last_key_up = None;
                self.last_key_down = None;
                false
            },
        }
    }
}

} // verus!
