//! The mapping from keys of a modern keyboard to the sixteen keys of the
//! hexadecimal keypad.

use vstd::prelude::*;

verus! {

/// The keyboard character bound to each keypad key, indexed by the key's
/// value. The keypad's four rows `1 2 3 C`, `4 5 6 D`, `7 8 9 E`, `A 0 B F`
/// lie on the keyboard rows `1 2 3 4`, `q w e r`, `a s d f`, `z x c v`.
pub open spec fn keypad_layout() -> Seq<char> {
    seq!['x', '1', '2', '3', 'q', 'w', 'e', 'a', 's', 'd', 'z', 'c', '4', 'r', 'f', 'v']
}

/// The value of the keypad key that the keyboard character `c` is bound to:
/// its position in [`keypad_layout`], if it occurs there.
pub open spec fn keypad_key(c: char) -> Option<u8> {
    if keypad_layout().contains(c) {
        Some(keypad_layout().index_of(c) as u8)
    } else {
        None
    }
}

/// The keypad key that `modern_key` is bound to, if it is bound to one.
pub fn map_modern_to_chip8(modern_key: char) -> (key: Option<u8>)
    ensures
        key == keypad_key(modern_key),
        match key {
            Some(k) => k < 16 && keypad_layout()[k as int] == modern_key,
            None => !keypad_layout().contains(modern_key),
        },
{
    match modern_key {
        '1' => Some(0x1),
        '2' => Some(0x2),
        '3' => Some(0x3),
        '4' => Some(0xC),
        'q' => Some(0x4),
        'w' => Some(0x5),
        'e' => Some(0x6),
        'r' => Some(0xD),
        'a' => Some(0x7),
        's' => Some(0x8),
        'd' => Some(0x9),
        'f' => Some(0xE),
        'z' => Some(0xA),
        'x' => Some(0x0),
        'c' => Some(0xB),
        'v' => Some(0xF),
        _ => None,
    }
}

/// No keyboard character is bound to two keypad keys, so a character
/// determines its key.
pub proof fn lemma_keypad_layout_injective(j: int, k: int)
    requires
        0 <= j < 16,
        0 <= k < 16,
        keypad_layout()[j] == keypad_layout()[k],
    ensures
        j == k,
{
}

} // verus!
