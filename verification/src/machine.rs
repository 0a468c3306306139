//! The mathematical model of the machine and the meaning of every
//! instruction.
//!
//! A [`MachineState`] is the value of a whole machine. Each instruction is a
//! function from the state in which it starts, with the program counter
//! already past the instruction, to the state it leaves or to the fault that
//! stops the machine. [`step_spec`] composes fetching, advancing the program
//! counter and executing.
//!
//! Width of the address registers: `I` and the program counter are 16-bit
//! registers. They are never masked to 12 bits, and arithmetic on them wraps
//! around modulo 65536.

use crate::display::{blank_pixels, DisplayState, DISPLAY_HEIGHT, DISPLAY_WIDTH, KEY_COUNT};
use crate::ram::{loaded_image, MEMORY_SIZE, PROGRAM_START};
use crate::register::zeroed_registers;
use crate::stack::STACK_CAPACITY;
use vstd::prelude::*;

verus! {

/// Address of the first glyph of the built-in font.
pub const FONT_START: usize = 0x50;

/// Number of bytes in one glyph of the built-in font.
pub const GLYPH_SIZE: usize = 5;

/// Number of bytes in the built-in font: sixteen glyphs.
pub const FONT_SIZE: usize = 80;

/// Why the machine stopped. A fault leaves the machine as it was before the
/// step that raised it.
#[derive(Debug, Clone, Copy, PartialEq, Eq, Structural)]
pub enum Fault {
    /// The opcode has no meaning: its class or its secondary selector is not
    /// defined, or a register comparison has a low nibble other than zero.
    Decode { opcode: u16 },
    /// An instruction fetch, a read or a write reached an address that is
    /// not readable; `address` is the first such address.
    MemoryBounds { address: usize },
    /// A subroutine call found the call stack full.
    StackOverflow,
    /// A return found the call stack empty.
    StackUnderflow,
    /// A key query named a key that the keypad does not have.
    KeyIndex { key: u8 },
}

/// Where the machine stands in waiting for a key.
#[derive(Debug, Clone, Copy, PartialEq, Eq, Structural)]
pub enum KeyWait {
    /// Not waiting, or waiting for a key to go down.
    Idle,
    /// A key went down; waiting for a key to come up.
    KeyLatched(u8),
}

/// The value of a machine.
#[verifier::ext_equal]
pub struct MachineState {
    /// The general registers `V0` to `VF`.
    pub v: Seq<u8>,
    /// The address register.
    pub i: u16,
    /// The program counter.
    pub pc: u16,
    /// The count of subroutine calls in progress, modulo 256.
    pub sp: u8,
    /// The delay timer.
    pub delay_timer: u8,
    /// The sound timer.
    pub sound_timer: u8,
    /// The readable bytes of memory, from address zero.
    pub memory: Seq<u8>,
    /// The return addresses on the call stack, oldest first.
    pub stack: Seq<u16>,
    /// The display surface.
    pub display: DisplayState,
    /// The state of the key wait.
    pub key_wait: KeyWait,
}

/// Bits 8 to 11 of an opcode: the first register index.
pub open spec fn field_x(opcode: u16) -> u8 {
    ((opcode / 0x100) % 0x10) as u8
}

/// Bits 4 to 7 of an opcode: the second register index.
pub open spec fn field_y(opcode: u16) -> u8 {
    ((opcode / 0x10) % 0x10) as u8
}

/// Bits 0 to 3 of an opcode: a 4-bit immediate.
pub open spec fn field_n(opcode: u16) -> u8 {
    (opcode % 0x10) as u8
}

/// Bits 0 to 7 of an opcode: an 8-bit immediate.
pub open spec fn field_nn(opcode: u16) -> u8 {
    (opcode % 0x100) as u8
}

/// Bits 0 to 11 of an opcode: a 12-bit address.
pub open spec fn field_nnn(opcode: u16) -> u16 {
    (opcode % 0x1000) as u16
}

/// Bits 12 to 15 of an opcode: its class.
pub open spec fn field_upper(opcode: u16) -> u8 {
    (opcode / 0x1000) as u8
}

/// The 8-bit register value that stands for the integer `n`.
pub open spec fn wrap8(n: int) -> u8 {
    (n % 0x100) as u8
}

/// The 16-bit register value that stands for the integer `n`.
pub open spec fn wrap16(n: int) -> u16 {
    (n % 0x1_0000) as u16
}

/// Whether the bit of `row` that lies `column` places from the left is set,
/// the most significant bit being at place zero.
pub open spec fn sprite_bit(row: u8, column: int) -> bool {
    0 <= column < 8 && row & (0x80u8 >> (column as u8)) != 0
}

/// Whether a sprite whose top left corner is at column `x0` and row `y0`
/// has a set bit at column `x` and row `y`.
pub open spec fn sprite_covers(sprite: Seq<u8>, x0: int, y0: int, x: int, y: int) -> bool {
    &&& y0 <= y < y0 + sprite.len()
    &&& x0 <= x < x0 + 8
    &&& sprite_bit(sprite[y - y0], x - x0)
}

/// The grid after a sprite is drawn onto `pixels`: every pixel that the
/// sprite covers is flipped. What the sprite has beyond the right or the
/// bottom edge is lost.
pub open spec fn drawn(pixels: Seq<Seq<bool>>, sprite: Seq<u8>, x0: int, y0: int) -> Seq<
    Seq<bool>,
> {
    Seq::new(
        DISPLAY_HEIGHT as nat,
        |y: int|
            Seq::new(
                DISPLAY_WIDTH as nat,
                |x: int| pixels[y][x] != sprite_covers(sprite, x0, y0, x, y),
            ),
    )
}

/// Whether a lit pixel of `pixels` lies in the part of the grid that a
/// sprite of `rows` rows at column `x0` and row `y0` takes up, whatever bits
/// the sprite has there.
pub open spec fn meets_lit_pixel(pixels: Seq<Seq<bool>>, rows: int, x0: int, y0: int) -> bool {
    exists|x: int, y: int|
        y0 <= y < y0 + rows && y < DISPLAY_HEIGHT && x0 <= x < x0 + 8 && x < DISPLAY_WIDTH
            && #[trigger] pixels[y][x]
}

/// The built-in font: for each hexadecimal digit a glyph of [`GLYPH_SIZE`]
/// rows, the glyph's pixels in the upper four bits of each row.
pub const FONT_TABLE: [u8; 80] = [
    0xF0, 0x90, 0x90, 0x90, 0xF0,
    0x20, 0x60, 0x20, 0x20, 0x70,
    0xF0, 0x10, 0xF0, 0x80, 0xF0,
    0xF0, 0x10, 0xF0, 0x10, 0xF0,
    0x90, 0x90, 0xF0, 0x10, 0x10,
    0xF0, 0x80, 0xF0, 0x10, 0xF0,
    0xF0, 0x80, 0xF0, 0x90, 0xF0,
    0xF0, 0x10, 0x20, 0x40, 0x40,
    0xF0, 0x90, 0xF0, 0x90, 0xF0,
    0xF0, 0x90, 0xF0, 0x10, 0xF0,
    0xF0, 0x90, 0xF0, 0x90, 0x90,
    0xE0, 0x90, 0xE0, 0x90, 0xE0,
    0xF0, 0x80, 0x80, 0x80, 0xF0,
    0xE0, 0x90, 0x90, 0x90, 0xE0,
    0xF0, 0x80, 0xF0, 0x80, 0xF0,
    0xF0, 0x80, 0xF0, 0x80, 0x80,
];

/// The bytes of the built-in font, in the order of their addresses.
pub open spec fn font_table() -> Seq<u8> {
    FONT_TABLE@
}

impl MachineState {
    /// Whether the parts of the state have the sizes that a machine gives
    /// them.
    pub open spec fn well_formed(self) -> bool {
        &&& self.v.len() == 16
        &&& self.memory.len() <= MEMORY_SIZE
        &&& self.stack.len() <= STACK_CAPACITY
        &&& self.display.keys_pressed.len() == KEY_COUNT
        &&& self.display.pixels.len() == DISPLAY_HEIGHT
        &&& forall|y: int|
            0 <= y < DISPLAY_HEIGHT ==> (#[trigger] self.display.pixels[y]).len() == DISPLAY_WIDTH
    }

    /// The state with register `x` set to `value`.
    pub open spec fn set_v(self, x: int, value: u8) -> MachineState {
        MachineState { v: self.v.update(x, value), ..self }
    }

    /// The state with the flag register `VF` set to one if `on` holds and to
    /// zero if not.
    pub open spec fn set_flag(self, on: bool) -> MachineState {
        self.set_v(
            0xF,
            if on {
                1u8
            } else {
                0u8
            },
        )
    }

    /// The state with the program counter moved by `offset`.
    pub open spec fn move_pc(self, offset: int) -> MachineState {
        MachineState { pc: wrap16(self.pc + offset), ..self }
    }

    /// The state with the next instruction skipped if `condition` holds.
    pub open spec fn skip_if(self, condition: bool) -> MachineState {
        if condition {
            self.move_pc(2)
        } else {
            self
        }
    }

    /// Whether the `count` addresses from `start` on are all readable.
    pub open spec fn readable(self, start: int, count: int) -> bool {
        start + count <= self.memory.len()
    }

    /// The fault for an access to one address or more from `start` on that
    /// are not all readable: it names the first that is not.
    pub open spec fn bounds_fault(self, start: int) -> Fault {
        Fault::MemoryBounds {
            address: if start < self.memory.len() {
                self.memory.len() as usize
            } else {
                start as usize
            },
        }
    }
}

/// The state of a machine that has just been made around `display`: every
/// register zero, no memory readable, the call stack empty, and the program
/// counter at the address where programs are loaded.
pub open spec fn initial_state(display: DisplayState) -> MachineState {
    MachineState {
        v: zeroed_registers(),
        i: 0,
        pc: PROGRAM_START as u16,
        sp: 0,
        delay_timer: 0,
        sound_timer: 0,
        memory: Seq::empty(),
        stack: Seq::empty(),
        display,
        key_wait: KeyWait::Idle,
    }
}

/// `00E0`: every pixel goes dark.
pub open spec fn clear_screen_spec(s: MachineState) -> MachineState {
    MachineState { display: DisplayState { pixels: blank_pixels(), ..s.display }, ..s }
}

/// `00EE`: return to the address on top of the call stack.
pub open spec fn return_spec(s: MachineState) -> Result<MachineState, Fault> {
    if s.stack.len() == 0 {
        Err(Fault::StackUnderflow)
    } else {
        Ok(MachineState { pc: s.stack.last(), stack: s.stack.drop_last(), sp: wrap8(s.sp - 1), ..s })
    }
}

/// `1nnn`: jump to `nnn`.
pub open spec fn jump_spec(s: MachineState, opcode: u16) -> MachineState {
    MachineState { pc: field_nnn(opcode), ..s }
}

/// `2nnn`: call the subroutine at `nnn`; the address after the call goes on
/// the call stack.
pub open spec fn call_spec(s: MachineState, opcode: u16) -> Result<MachineState, Fault> {
    if s.stack.len() >= STACK_CAPACITY {
        Err(Fault::StackOverflow)
    } else {
        Ok(MachineState { pc: field_nnn(opcode), stack: s.stack.push(s.pc), sp: wrap8(s.sp + 1), ..s })
    }
}

/// `3xnn`: skip the next instruction if `Vx` equals `nn`.
pub open spec fn skip_equal_spec(s: MachineState, opcode: u16) -> MachineState {
    s.skip_if(s.v[field_x(opcode) as int] == field_nn(opcode))
}

/// `4xnn`: skip the next instruction if `Vx` differs from `nn`.
pub open spec fn skip_not_equal_spec(s: MachineState, opcode: u16) -> MachineState {
    s.skip_if(s.v[field_x(opcode) as int] != field_nn(opcode))
}

/// `5xy0`: skip the next instruction if `Vx` equals `Vy`.
pub open spec fn skip_equal_register_spec(s: MachineState, opcode: u16) -> Result<
    MachineState,
    Fault,
> {
    if field_n(opcode) != 0 {
        Err(Fault::Decode { opcode })
    } else {
        Ok(s.skip_if(s.v[field_x(opcode) as int] == s.v[field_y(opcode) as int]))
    }
}

/// `9xy0`: skip the next instruction if `Vx` differs from `Vy`.
pub open spec fn skip_not_equal_register_spec(s: MachineState, opcode: u16) -> Result<
    MachineState,
    Fault,
> {
    if field_n(opcode) != 0 {
        Err(Fault::Decode { opcode })
    } else {
        Ok(s.skip_if(s.v[field_x(opcode) as int] != s.v[field_y(opcode) as int]))
    }
}

/// `6xnn`: `Vx` becomes `nn`.
pub open spec fn set_register_spec(s: MachineState, opcode: u16) -> MachineState {
    s.set_v(field_x(opcode) as int, field_nn(opcode))
}

/// `7xnn`: `nn` is added to `Vx` modulo 256; no flag is set.
pub open spec fn add_to_register_spec(s: MachineState, opcode: u16) -> MachineState {
    s.set_v(field_x(opcode) as int, wrap8(s.v[field_x(opcode) as int] + field_nn(opcode)))
}

/// `8xy0`: `Vx` becomes `Vy`.
pub open spec fn copy_registers_spec(s: MachineState, opcode: u16) -> MachineState {
    s.set_v(field_x(opcode) as int, s.v[field_y(opcode) as int])
}

/// `8xy1`: `Vx` becomes `Vx | Vy`.
pub open spec fn or_registers_spec(s: MachineState, opcode: u16) -> MachineState {
    s.set_v(field_x(opcode) as int, s.v[field_x(opcode) as int] | s.v[field_y(opcode) as int])
}

/// `8xy2`: `Vx` becomes `Vx & Vy`.
pub open spec fn and_registers_spec(s: MachineState, opcode: u16) -> MachineState {
    s.set_v(field_x(opcode) as int, s.v[field_x(opcode) as int] & s.v[field_y(opcode) as int])
}

/// `8xy3`: `Vx` becomes `Vx ^ Vy`.
pub open spec fn xor_registers_spec(s: MachineState, opcode: u16) -> MachineState {
    s.set_v(field_x(opcode) as int, s.v[field_x(opcode) as int] ^ s.v[field_y(opcode) as int])
}

/// `8xy4`: `Vx` becomes `Vx + Vy` modulo 256, then `VF` tells whether the
/// sum exceeded 255.
pub open spec fn add_registers_spec(s: MachineState, opcode: u16) -> MachineState {
    let a = s.v[field_x(opcode) as int];
    let b = s.v[field_y(opcode) as int];
    s.set_v(field_x(opcode) as int, wrap8(a + b)).set_flag(a + b > 255)
}

/// `8xy5`: `Vx` becomes `Vx - Vy` modulo 256, then `VF` tells whether `Vx`
/// was greater than `Vy`.
pub open spec fn sub_registers_spec(s: MachineState, opcode: u16) -> MachineState {
    let a = s.v[field_x(opcode) as int];
    let b = s.v[field_y(opcode) as int];
    s.set_v(field_x(opcode) as int, wrap8(a - b)).set_flag(a > b)
}

/// `8xy6`: `Vx` is halved, then `VF` holds the bit that `Vx` lost, its
/// lowest.
pub open spec fn shift_registers_right_spec(s: MachineState, opcode: u16) -> MachineState {
    let a = s.v[field_x(opcode) as int];
    s.set_v(field_x(opcode) as int, (a / 2) as u8).set_flag(a % 2 == 1)
}

/// `8xy7`: `Vx` becomes `Vy - Vx` modulo 256, then `VF` tells whether `Vy`
/// was greater than `Vx`.
pub open spec fn subn_registers_spec(s: MachineState, opcode: u16) -> MachineState {
    let a = s.v[field_x(opcode) as int];
    let b = s.v[field_y(opcode) as int];
    s.set_v(field_x(opcode) as int, wrap8(b - a)).set_flag(b > a)
}

/// `8xyE`: `Vx` is doubled modulo 256, then `VF` holds the bit that `Vx`
/// lost, its highest.
pub open spec fn shift_registers_left_spec(s: MachineState, opcode: u16) -> MachineState {
    let a = s.v[field_x(opcode) as int];
    s.set_v(field_x(opcode) as int, wrap8(a * 2)).set_flag(a >= 128)
}

/// `8xyn`: the operation on `Vx` and `Vy` that `n` selects.
pub open spec fn apply_op_spec(s: MachineState, opcode: u16) -> Result<MachineState, Fault> {
    let n = field_n(opcode);
    if n == 0x0 {
        Ok(copy_registers_spec(s, opcode))
    } else if n == 0x1 {
        Ok(or_registers_spec(s, opcode))
    } else if n == 0x2 {
        Ok(and_registers_spec(s, opcode))
    } else if n == 0x3 {
        Ok(xor_registers_spec(s, opcode))
    } else if n == 0x4 {
        Ok(add_registers_spec(s, opcode))
    } else if n == 0x5 {
        Ok(sub_registers_spec(s, opcode))
    } else if n == 0x6 {
        Ok(shift_registers_right_spec(s, opcode))
    } else if n == 0x7 {
        Ok(subn_registers_spec(s, opcode))
    } else if n == 0xE {
        Ok(shift_registers_left_spec(s, opcode))
    } else {
        Err(Fault::Decode { opcode })
    }
}

/// `Annn`: `I` becomes `nnn`.
pub open spec fn set_memory_addr_spec(s: MachineState, opcode: u16) -> MachineState {
    MachineState { i: field_nnn(opcode), ..s }
}

/// `Bnnn`: jump to `nnn + V0`, which is not masked to 12 bits.
pub open spec fn jump_with_offset_spec(s: MachineState, opcode: u16) -> MachineState {
    MachineState { pc: (field_nnn(opcode) + s.v[0]) as u16, ..s }
}

/// `Cxnn`: `Vx` becomes the random byte masked by `nn`.
pub open spec fn rnd_and_spec(s: MachineState, opcode: u16, random: u8) -> MachineState {
    s.set_v(field_x(opcode) as int, random & field_nn(opcode))
}

/// The number of rows of an `n`-row sprite at row `y0` that lie on the grid.
pub open spec fn visible_rows(n: int, y0: int) -> int {
    if y0 + n <= DISPLAY_HEIGHT {
        n
    } else {
        DISPLAY_HEIGHT - y0
    }
}

/// `Dxyn`: draw the `n`-row sprite at `I` with its top left corner at column
/// `Vx mod 64` and row `Vy mod 32`, then `VF` tells whether a pixel was
/// already lit where the sprite went. Only the rows that lie on the grid are
/// read from memory.
pub open spec fn disp_sprite_spec(s: MachineState, opcode: u16) -> Result<MachineState, Fault> {
    let x0 = s.v[field_x(opcode) as int] as int % 64;
    let y0 = s.v[field_y(opcode) as int] as int % 32;
    let rows = visible_rows(field_n(opcode) as int, y0);
    if rows > 0 && !s.readable(s.i as int, rows) {
        Err(s.bounds_fault(s.i as int))
    } else {
        let sprite = Seq::new(rows as nat, |k: int| s.memory[s.i + k]);
        Ok(
            MachineState {
                display: DisplayState {
                    pixels: drawn(s.display.pixels, sprite, x0, y0),
                    ..s.display
                },
                ..s
            }.set_flag(meets_lit_pixel(s.display.pixels, rows, x0, y0)),
        )
    }
}

/// `Ex9E`: skip the next instruction if key `Vx` is held down.
pub open spec fn skip_if_key_pressed_spec(s: MachineState, opcode: u16) -> Result<
    MachineState,
    Fault,
> {
    let key = s.v[field_x(opcode) as int];
    if key >= KEY_COUNT {
        Err(Fault::KeyIndex { key })
    } else {
        Ok(s.skip_if(s.display.keys_pressed[key as int]))
    }
}

/// `ExA1`: skip the next instruction if key `Vx` is not held down.
pub open spec fn skip_if_key_not_pressed_spec(s: MachineState, opcode: u16) -> Result<
    MachineState,
    Fault,
> {
    let key = s.v[field_x(opcode) as int];
    if key >= KEY_COUNT {
        Err(Fault::KeyIndex { key })
    } else {
        Ok(s.skip_if(!s.display.keys_pressed[key as int]))
    }
}

/// `Exnn`: the key query that `nn` selects.
pub open spec fn skip_cond_spec(s: MachineState, opcode: u16) -> Result<MachineState, Fault> {
    let nn = field_nn(opcode);
    if nn == 0x9E {
        skip_if_key_pressed_spec(s, opcode)
    } else if nn == 0xA1 {
        skip_if_key_not_pressed_spec(s, opcode)
    } else {
        Err(Fault::Decode { opcode })
    }
}

/// `Fx07`: `Vx` becomes the delay timer.
pub open spec fn ld_delay_timer_spec(s: MachineState, opcode: u16) -> MachineState {
    s.set_v(field_x(opcode) as int, s.delay_timer)
}

/// `Fx0A`: wait for a key to go down and then for a key to come up.
///
/// While no key is latched the instruction repeats: the program counter goes
/// back by two, and a pending key-down transition is latched. Once a key is
/// latched the instruction repeats until a key-up transition is pending; then
/// the key that came up goes to `Vx`, the latch is cleared and the program
/// goes on.
pub open spec fn ld_register_key_spec(s: MachineState, opcode: u16) -> MachineState {
    match s.key_wait {
        KeyWait::KeyLatched(_) => match s.display.last_key_up {
            Some(k) => MachineState { key_wait: KeyWait::Idle, ..s.set_v(field_x(opcode) as int, k) },
            None => s.move_pc(-2),
        },
        KeyWait::Idle => MachineState {
            key_wait: match s.display.last_key_down {
                Some(k) => KeyWait::KeyLatched(k),
                None => KeyWait::Idle,
            },
            ..s.move_pc(-2)
        },
    }
}

/// `Fx15`: the delay timer becomes `Vx`.
pub open spec fn ld_delay_timer_register_spec(s: MachineState, opcode: u16) -> MachineState {
    MachineState { delay_timer: s.v[field_x(opcode) as int], ..s }
}

/// `Fx18`: the sound timer becomes `Vx`.
pub open spec fn ld_sound_timer_register_spec(s: MachineState, opcode: u16) -> MachineState {
    MachineState { sound_timer: s.v[field_x(opcode) as int], ..s }
}

/// `Fx1E`: `Vx` is added to `I` modulo 65536.
pub open spec fn add_i_register_spec(s: MachineState, opcode: u16) -> MachineState {
    MachineState { i: wrap16(s.i + s.v[field_x(opcode) as int]), ..s }
}

/// `Fx29`: `I` becomes the address of the font glyph for `Vx`.
pub open spec fn ld_font_char_spec(s: MachineState, opcode: u16) -> MachineState {
    MachineState { i: (FONT_START + s.v[field_x(opcode) as int] * GLYPH_SIZE) as u16, ..s }
}

/// `Fx33`: the hundreds, tens and units digits of `Vx` go to the addresses
/// `I`, `I + 1` and `I + 2`.
pub open spec fn ld_bcd_register_spec(s: MachineState, opcode: u16) -> Result<MachineState, Fault> {
    let value = s.v[field_x(opcode) as int];
    if !s.readable(s.i as int, 3) {
        Err(s.bounds_fault(s.i as int))
    } else {
        Ok(
            MachineState {
                memory: s.memory.update(s.i as int, (value / 100) as u8).update(
                    s.i + 1,
                    (value / 10 % 10) as u8,
                ).update(s.i + 2, (value % 10) as u8),
                ..s
            },
        )
    }
}

/// `Fx55`: the registers `V0` to `Vx` go to the addresses from `I` on. `I`
/// stays as it is.
pub open spec fn sv_registers_to_mem_spec(s: MachineState, opcode: u16) -> Result<
    MachineState,
    Fault,
> {
    let count = field_x(opcode) + 1;
    if !s.readable(s.i as int, count) {
        Err(s.bounds_fault(s.i as int))
    } else {
        Ok(
            MachineState {
                memory: Seq::new(
                    s.memory.len(),
                    |a: int|
                        if s.i <= a < s.i + count {
                            s.v[a - s.i]
                        } else {
                            s.memory[a]
                        },
                ),
                ..s
            },
        )
    }
}

/// `Fx65`: the registers `V0` to `Vx` are read from the addresses from `I`
/// on. `I` stays as it is.
pub open spec fn ld_registers_from_mem_spec(s: MachineState, opcode: u16) -> Result<
    MachineState,
    Fault,
> {
    let count = field_x(opcode) + 1;
    if !s.readable(s.i as int, count) {
        Err(s.bounds_fault(s.i as int))
    } else {
        Ok(
            MachineState {
                v: Seq::new(
                    16,
                    |k: int|
                        if k < count {
                            s.memory[s.i + k]
                        } else {
                            s.v[k]
                        },
                ),
                ..s
            },
        )
    }
}

/// `Fxnn`: the timer, key or memory operation that `nn` selects.
pub open spec fn misc_op_spec(s: MachineState, opcode: u16) -> Result<MachineState, Fault> {
    let nn = field_nn(opcode);
    if nn == 0x07 {
        Ok(ld_delay_timer_spec(s, opcode))
    } else if nn == 0x0A {
        Ok(ld_register_key_spec(s, opcode))
    } else if nn == 0x15 {
        Ok(ld_delay_timer_register_spec(s, opcode))
    } else if nn == 0x18 {
        Ok(ld_sound_timer_register_spec(s, opcode))
    } else if nn == 0x1E {
        Ok(add_i_register_spec(s, opcode))
    } else if nn == 0x29 {
        Ok(ld_font_char_spec(s, opcode))
    } else if nn == 0x33 {
        ld_bcd_register_spec(s, opcode)
    } else if nn == 0x55 {
        sv_registers_to_mem_spec(s, opcode)
    } else if nn == 0x65 {
        ld_registers_from_mem_spec(s, opcode)
    } else {
        Err(Fault::Decode { opcode })
    }
}

/// What `opcode` does to a state whose program counter is already past it.
/// `random` is the byte that the random source gives; only `Cxnn` uses it.
pub open spec fn execute_spec(s: MachineState, opcode: u16, random: u8) -> Result<
    MachineState,
    Fault,
> {
    let class = field_upper(opcode);
    if opcode == 0x00E0 {
        Ok(clear_screen_spec(s))
    } else if opcode == 0x00EE {
        return_spec(s)
    } else if class == 0x1 {
        Ok(jump_spec(s, opcode))
    } else if class == 0x2 {
        call_spec(s, opcode)
    } else if class == 0x3 {
        Ok(skip_equal_spec(s, opcode))
    } else if class == 0x4 {
        Ok(skip_not_equal_spec(s, opcode))
    } else if class == 0x5 {
        skip_equal_register_spec(s, opcode)
    } else if class == 0x6 {
        Ok(set_register_spec(s, opcode))
    } else if class == 0x7 {
        Ok(add_to_register_spec(s, opcode))
    } else if class == 0x8 {
        apply_op_spec(s, opcode)
    } else if class == 0x9 {
        skip_not_equal_register_spec(s, opcode)
    } else if class == 0xA {
        Ok(set_memory_addr_spec(s, opcode))
    } else if class == 0xB {
        Ok(jump_with_offset_spec(s, opcode))
    } else if class == 0xC {
        Ok(rnd_and_spec(s, opcode, random))
    } else if class == 0xD {
        disp_sprite_spec(s, opcode)
    } else if class == 0xE {
        skip_cond_spec(s, opcode)
    } else if class == 0xF {
        misc_op_spec(s, opcode)
    } else {
        Err(Fault::Decode { opcode })
    }
}

/// The opcode at the program counter: the byte there is its high byte, the
/// byte after it its low byte.
pub open spec fn fetch_spec(s: MachineState) -> Result<u16, Fault> {
    if !s.readable(s.pc as int, 2) {
        Err(s.bounds_fault(s.pc as int))
    } else {
        Ok((s.memory[s.pc as int] * 0x100 + s.memory[s.pc + 1]) as u16)
    }
}

/// One step of the machine: fetch the opcode at the program counter, move
/// the program counter past it, execute it.
pub open spec fn step_spec(s: MachineState, random: u8) -> Result<MachineState, Fault> {
    match fetch_spec(s) {
        Ok(opcode) => execute_spec(s.move_pc(2), opcode, random),
        Err(fault) => Err(fault),
    }
}

/// One tick of the timers: each timer that is not zero goes down by one.
pub open spec fn update_timers_spec(s: MachineState) -> MachineState {
    MachineState {
        delay_timer: if s.delay_timer > 0 {
            (s.delay_timer - 1) as u8
        } else {
            0
        },
        sound_timer: if s.sound_timer > 0 {
            (s.sound_timer - 1) as u8
        } else {
            0
        },
        ..s
    }
}

/// The readable bytes after the built-in font is written to the addresses
/// from [`FONT_START`] on.
pub open spec fn with_font(memory: Seq<u8>) -> Seq<u8> {
    Seq::new(
        memory.len(),
        |a: int|
            if FONT_START <= a < FONT_START + FONT_SIZE {
                font_table()[a - FONT_START]
            } else {
                memory[a]
            },
    )
}

/// Setting up the font: the glyphs go to the addresses from [`FONT_START`]
/// on, which have to be readable.
pub open spec fn setup_fonts_spec(s: MachineState) -> Result<MachineState, Fault> {
    if !s.readable(FONT_START as int, FONT_SIZE as int) {
        Err(s.bounds_fault(FONT_START as int))
    } else {
        Ok(MachineState { memory: with_font(s.memory), ..s })
    }
}

/// Loading a program: the readable memory becomes the system area followed
/// by the program.
pub open spec fn load_rom_spec(s: MachineState, rom: Seq<u8>) -> MachineState {
    MachineState { memory: loaded_image(s.memory, rom), ..s }
}

} // verus!
