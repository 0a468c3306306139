//! The fetch-decode-execute engine.

use crate::display::{blank_display, blank_pixels, DisplayState, EmuDisplay};
use crate::machine::{
    add_i_register_spec, add_registers_spec, add_to_register_spec, and_registers_spec,
    apply_op_spec, call_spec, clear_screen_spec, copy_registers_spec, disp_sprite_spec, drawn,
    execute_spec, fetch_spec, field_n, field_nn, field_nnn, field_upper, field_x, field_y,
    font_table, initial_state, jump_spec, jump_with_offset_spec, ld_bcd_register_spec,
    ld_delay_timer_register_spec, ld_delay_timer_spec, ld_font_char_spec, ld_register_key_spec,
    ld_registers_from_mem_spec, ld_sound_timer_register_spec, meets_lit_pixel, misc_op_spec,
    or_registers_spec, return_spec, rnd_and_spec, set_memory_addr_spec, set_register_spec,
    shift_registers_left_spec, shift_registers_right_spec, skip_cond_spec,
    skip_equal_register_spec, skip_equal_spec, skip_if_key_not_pressed_spec,
    skip_if_key_pressed_spec, skip_not_equal_register_spec, skip_not_equal_spec, sprite_bit,
    sprite_covers, step_spec, sub_registers_spec, subn_registers_spec, sv_registers_to_mem_spec,
    load_rom_spec, setup_fonts_spec, update_timers_spec, with_font, xor_registers_spec, Fault,
    KeyWait, MachineState, FONT_SIZE, FONT_START, FONT_TABLE,
};
use crate::ram::{MEMORY_SIZE, PROGRAM_START, RAM};
use crate::register::Reg;
use crate::stack::Stack;
use vstd::prelude::*;

verus! {

/// The operand fields of an opcode.
///
/// The view of a `Decoded` is the opcode that it was decoded from; every field
/// is the part of that opcode that its name stands for.
#[derive(Debug, Clone, Copy)]
pub struct Decoded {
    x: u8,
    y: u8,
    n: u8,
    nn: u8,
    nnn: u16,
    upper: u8,
}

impl View for Decoded {
    type V = u16;

    closed spec fn view(&self) -> u16 {
        (self.upper * 0x1000 + self.nnn) as u16
    }
}

impl Decoded {
    #[verifier::type_invariant]
    spec fn inv(self) -> bool {
        &&& self.upper < 0x10
        &&& self.nnn < 0x1000
        &&& self.x == field_x(self@)
        &&& self.y == field_y(self@)
        &&& self.n == field_n(self@)
        &&& self.nn == field_nn(self@)
    }

    /// Splits `opcode` into its fields.
    pub fn new(opcode: u16) -> (d: Self)
        ensures
            d@ == opcode,
    {
        assert((opcode & 0x0F00) >> 8 == (opcode / 0x100) % 0x10) by (bit_vector);
        assert((opcode & 0x00F0) >> 4 == (opcode / 0x10) % 0x10) by (bit_vector);
        assert(opcode & 0x000F == opcode % 0x10) by (bit_vector);
        assert(opcode & 0x00FF == opcode % 0x100) by (bit_vector);
        assert(opcode & 0x0FFF == opcode % 0x1000) by (bit_vector);
        assert((opcode & 0xF000) >> 12 == opcode / 0x1000) by (bit_vector);
        Decoded {
            x: ((opcode & 0x0F00) >> 8) as u8,
            y: ((opcode & 0x00F0) >> 4) as u8,
            n: (opcode & 0x000F) as u8,
            nn: (opcode & 0x00FF) as u8,
            nnn: opcode & 0x0FFF,
            upper: ((opcode & 0xF000) >> 12) as u8,
        }
    }

    /// The opcode that the fields were taken from.
    pub fn opcode(&self) -> (opcode: u16)
        ensures
            opcode == self@,
    {
        proof {
            use_type_invariant(self);
        }
        self.upper as u16 * 0x1000 + self.nnn
    }

    /// The first register index.
    pub fn x(&self) -> (x: u8)
        ensures
            x == field_x(self@),
            x < 16,
    {
        proof {
            use_type_invariant(self);
        }
        self.x
    }

    /// The second register index.
    pub fn y(&self) -> (y: u8)
        ensures
            y == field_y(self@),
            y < 16,
    {
        proof {
            use_type_invariant(self);
        }
        self.y
    }

    /// The 4-bit immediate.
    pub fn n(&self) -> (n: u8)
        ensures
            n == field_n(self@),
            n < 16,
    {
        proof {
            use_type_invariant(self);
        }
        self.n
    }

    /// The 8-bit immediate.
    pub fn nn(&self) -> (nn: u8)
        ensures
            nn == field_nn(self@),
    {
        proof {
            use_type_invariant(self);
        }
        self.nn
    }

    /// The 12-bit address.
    pub fn nnn(&self) -> (nnn: u16)
        ensures
            nnn == field_nnn(self@),
            nnn < 0x1000,
    {
        proof {
            use_type_invariant(self);
        }
        self.nnn
    }

    /// The opcode's class.
    pub fn upper(&self) -> (upper: u8)
        ensures
            upper == field_upper(self@),
            upper < 16,
    {
        proof {
            use_type_invariant(self);
        }
        self.upper
    }
}

/// The machine: registers, memory, call stack, display surface and the state
/// of the key wait.
pub struct CPU {
    /// The register file.
    pub reg: Reg,
    /// Main memory.
    pub memory: RAM,
    /// The return addresses of the subroutine calls in progress.
    pub stack: Stack,
    /// The display surface, which the input layer writes key state to and
    /// the renderer reads pixels from.
    pub display: EmuDisplay,
    /// Where the machine stands in waiting for a key.
    pub key_wait: KeyWait,
}

impl View for CPU {
    type V = MachineState;

    open spec fn view(&self) -> MachineState {
        MachineState {
            v: self.reg.v@,
            i: self.reg.i,
            pc: self.reg.pc,
            sp: self.reg.sp,
            delay_timer: self.reg.delay_timer,
            sound_timer: self.reg.sound_time,
            memory: self.memory@,
            stack: self.stack@,
            display: self.display@,
            key_wait: self.key_wait,
        }
    }
}

/// `rand::random::<u8>()`: a byte from the thread's random number generator.
/// Nothing is claimed of the byte.
#[verifier::external_body]
fn random_byte() -> (random: u8) {
    rand::random::<u8>()
}

/// Flips the pixels of `line` under the set bits of the sprite row `bits`,
/// whose leftmost bit goes to column `start_x`; bits past the right edge are
/// lost. Tells whether a pixel was lit in the columns that the row takes up.
fn draw_row(line: &mut [bool; 64], bits: u8, start_x: usize) -> (hit: bool)
    requires
        start_x < 64,
    ensures
        forall|x: int|
            0 <= x < 64 ==> #[trigger] final(line)@[x] == (old(line)@[x] != (start_x <= x < start_x
                + 8 && sprite_bit(bits, x - start_x))),
        hit == exists|x: int| start_x <= x < start_x + 8 && x < 64 && #[trigger] old(line)@[x],
{
    let columns: usize = if start_x + 8 <= 64 {
        8
    } else {
        64 - start_x
    };
    let mut hit = false;
    let mut column: usize = 0;
    while column < columns
        invariant
            column <= columns <= 8,
            start_x + columns <= 64,
            columns == 8 || start_x + columns == 64,
            forall|x: int|
                0 <= x < 64 ==> #[trigger] line@[x] == if x < start_x + column {
                    old(line)@[x] != (start_x <= x && sprite_bit(bits, x - start_x))
                } else {
                    old(line)@[x]
                },
            hit == exists|x: int| start_x <= x < start_x + column && #[trigger] old(line)@[x],
        decreases columns - column,
    {
        let pixel: bool = line[start_x + column];
        if pixel {
            hit = true;
        }
        let shift: u8 = column as u8;
        line[start_x + column] = pixel ^ (bits & (0x80u8 >> shift) != 0);
        column += 1;
    }
    hit
}

/// Whether a fallible operation ended as `expected` says: in the state it
/// gives, or with the fault it gives and the machine as it was `before`.
pub open spec fn ends_as(
    expected: Result<MachineState, Fault>,
    before: MachineState,
    after: MachineState,
    r: Result<(), Fault>,
) -> bool {
    match expected {
        Ok(next) => r is Ok && after == next,
        Err(fault) => r == Err::<(), Fault>(fault) && after == before,
    }
}

impl CPU {
    /// The value of every machine is well formed.
    pub proof fn lemma_well_formed(self)
        ensures
            self@.well_formed(),
    {
        self.memory.lemma_bounded();
        self.stack.lemma_bounded();
    }

    /// A machine with a blank display, ready to run a program from
    /// [`PROGRAM_START`].
    pub fn default() -> (cpu: Self)
        ensures
            cpu@ == initial_state(blank_display()),
    {
        let display = EmuDisplay::new();
        CPU::new(display)
    }

    /// A machine that draws on `display`: registers zero, nothing in memory,
    /// an empty call stack, the program counter at [`PROGRAM_START`].
    pub fn new(display: EmuDisplay) -> (cpu: Self)
        ensures
            cpu@ == initial_state(display@),
    {
        let mut cpu = CPU {
            reg: Reg::default(),
            memory: RAM::default(),
            stack: Stack::default(),
            display,
            key_wait: KeyWait::Idle,
        };
        cpu.reg.pc = PROGRAM_START as u16;
        cpu
    }

    /// Writes the built-in font to the addresses from [`FONT_START`] on, if
    /// they are all readable.
    pub fn setup_fonts(&mut self) -> (r: Result<(), Fault>)
        ensures
            ends_as(setup_fonts_spec(old(self)@), old(self)@, final(self)@, r),
    {
        let fonts: [u8; 80] = FONT_TABLE;
        match self.check_readable(FONT_START, FONT_SIZE) {
            Ok(()) => {},
            Err(fault) => {
                return Err(fault);
            },
        }
        let mut k: usize = 0;
        while k < FONT_SIZE
            invariant
                k <= FONT_SIZE,
                fonts@ == font_table(),
                old(self)@.readable(FONT_START as int, FONT_SIZE as int),
                self@ == (MachineState { memory: self@.memory, ..old(self)@ }),
                self@.memory.len() == old(self)@.memory.len(),
                forall|a: int|
                    0 <= a < self@.memory.len() ==> self@.memory[a] == if FONT_START <= a
                        < FONT_START + k {
                        font_table()[a - FONT_START]
                    } else {
                        old(self)@.memory[a]
                    },
            decreases FONT_SIZE - k,
        {
            self.store(FONT_START + k, fonts[k]);
            k += 1;
        }
        assert(self@.memory =~= with_font(old(self)@.memory));
        Ok(())
    }

    /// Loads the program `rom` into memory.
    pub fn load_rom(&mut self, rom: &[u8])
        requires
            rom@.len() <= MEMORY_SIZE - PROGRAM_START,
        ensures
            final(self)@ == load_rom_spec(old(self)@, rom@),
    {
        let _ = self.memory.load(rom);
    }

    /// Reads the opcode at the program counter.
    pub fn fetch(&mut self) -> (r: Result<u16, Fault>)
        ensures
            r == fetch_spec(old(self)@),
            final(self)@ == old(self)@,
    {
        let pc: usize = self.reg.pc as usize;
        match self.check_readable(pc, 2) {
            Ok(()) => {},
            Err(fault) => {
                return Err(fault);
            },
        }
        let high: u8 = self.load_byte(pc);
        let low: u8 = self.load_byte(pc + 1);
        assert(((high as u16) << 8) | (low as u16) == high * 0x100 + low) by (bit_vector);
        Ok(((high as u16) << 8) | (low as u16))
    }

    /// One step: fetches the opcode at the program counter, moves the program
    /// counter past it and executes the opcode. `Cxnn` draws a byte from the
    /// random source. On a fault the machine is left as it was before the
    /// step, with the program counter at the instruction that raised it.
    pub fn run(&mut self) -> (r: Result<(), Fault>)
        ensures
            exists|random: u8|
                ends_as(#[trigger] step_spec(old(self)@, random), old(self)@, final(self)@, r),
    {
        let opcode: u16 = match self.fetch() {
            Ok(opcode) => opcode,
            Err(fault) => {
                assert(ends_as(step_spec(old(self)@, 0), old(self)@, self@, Err(fault)));
                return Err(fault);
            },
        };
        let pc: u16 = self.reg.pc;
        self.reg.pc = pc.wrapping_add(2);
        let ghost advanced = self@;
        let ghost mut random: u8 = 0;
        assert(advanced == old(self)@.move_pc(2));
        let r = if opcode == 0x00E0 {
            self.clear_screen();
            Ok(())
        } else if opcode == 0x00EE {
            self.return_from_subroutine()
        } else {
            let decoded = Decoded::new(opcode);
            match decoded.upper() {
                0x1 => {
                    self.jump_to_address(decoded);
                    Ok(())
                },
                0x2 => self.call_subroutine(decoded),
                0x3 => {
                    self.skip_next_instruction_if_equal(decoded);
                    Ok(())
                },
                0x4 => {
                    self.skip_next_instruction_if_not_equal(decoded);
                    Ok(())
                },
                0x5 => self.skip_next_instruction_if_equal_register(decoded),
                0x6 => {
                    self.set_register(decoded);
                    Ok(())
                },
                0x7 => {
                    self.add_to_register(decoded);
                    Ok(())
                },
                0x8 => self.apply_op(decoded),
                0x9 => self.skip_next_instruction_if_not_equal_register(decoded),
                0xA => {
                    self.set_memory_addr(decoded);
                    Ok(())
                },
                0xB => {
                    self.jump_to_address_with_offset(decoded);
                    Ok(())
                },
                0xC => {
                    self.rnd_and(decoded);
                    proof {
                        random = choose|random: u8|
                            self@ == rnd_and_spec(advanced, decoded@, random);
                    }
                    Ok(())
                },
                0xD => self.disp_sprite(decoded),
                0xE => self.skip_next_instruction_cond(decoded),
                0xF => self.misc_op(decoded),
                _ => Err(Fault::Decode { opcode }),
            }
        };
        let ghost outcome = execute_spec(advanced, opcode, random);
        assert(ends_as(outcome, advanced, self@, r));
        assert(step_spec(old(self)@, random) == outcome);
        if r.is_err() {
            self.reg.pc = pc;
            assert(self@ == old(self)@);
        }
        assert(ends_as(outcome, old(self)@, self@, r));
        r
    }

    /// `1nnn`: jumps to `nnn`.
    pub fn jump_to_address(&mut self, decoded: Decoded)
        ensures
            final(self)@ == jump_spec(old(self)@, decoded@),
    {
        self.reg.pc = decoded.nnn();
    }

    /// `2nnn`: calls the subroutine at `nnn`, unless the call stack is full.
    pub fn call_subroutine(&mut self, decoded: Decoded) -> (r: Result<(), Fault>)
        ensures
            ends_as(call_spec(old(self)@, decoded@), old(self)@, final(self)@, r),
    {
        match self.stack.push(self.reg.pc) {
            Ok(()) => {
                self.reg.sp = self.reg.sp.wrapping_add(1);
                self.reg.pc = decoded.nnn();
                Ok(())
            },
            Err(_) => Err(Fault::StackOverflow),
        }
    }

    /// `00EE`: returns from a subroutine, unless the call stack is empty.
    pub fn return_from_subroutine(&mut self) -> (r: Result<(), Fault>)
        ensures
            ends_as(return_spec(old(self)@), old(self)@, final(self)@, r),
    {
        match self.stack.pop() {
            Ok(address) => {
                self.reg.pc = address;
                self.reg.sp = self.reg.sp.wrapping_sub(1);
                Ok(())
            },
            Err(_) => Err(Fault::StackUnderflow),
        }
    }

    /// `3xnn`: skips the next instruction if `Vx` equals `nn`.
    pub fn skip_next_instruction_if_equal(&mut self, decoded: Decoded)
        ensures
            final(self)@ == skip_equal_spec(old(self)@, decoded@),
    {
        if self.reg.v[decoded.x() as usize] == decoded.nn() {
            self.reg.pc = self.reg.pc.wrapping_add(2);
        }
    }

    /// `4xnn`: skips the next instruction if `Vx` differs from `nn`.
    pub fn skip_next_instruction_if_not_equal(&mut self, decoded: Decoded)
        ensures
            final(self)@ == skip_not_equal_spec(old(self)@, decoded@),
    {
        if self.reg.v[decoded.x() as usize] != decoded.nn() {
            self.reg.pc = self.reg.pc.wrapping_add(2);
        }
    }

    /// `5xy0`: skips the next instruction if `Vx` equals `Vy`. A low nibble
    /// other than zero is a fault.
    pub fn skip_next_instruction_if_equal_register(&mut self, decoded: Decoded) -> (r: Result<
        (),
        Fault,
    >)
        ensures
            ends_as(skip_equal_register_spec(old(self)@, decoded@), old(self)@, final(self)@, r),
    {
        if decoded.n() != 0 {
            return Err(Fault::Decode { opcode: decoded.opcode() });
        }
        if self.reg.v[decoded.x() as usize] == self.reg.v[decoded.y() as usize] {
            self.reg.pc = self.reg.pc.wrapping_add(2);
        }
        Ok(())
    }

    /// `9xy0`: skips the next instruction if `Vx` differs from `Vy`. A low
    /// nibble other than zero is a fault.
    pub fn skip_next_instruction_if_not_equal_register(&mut self, decoded: Decoded) -> (r: Result<
        (),
        Fault,
    >)
        ensures
            ends_as(
                skip_not_equal_register_spec(old(self)@, decoded@),
                old(self)@,
                final(self)@,
                r,
            ),
    {
        if decoded.n() != 0 {
            return Err(Fault::Decode { opcode: decoded.opcode() });
        }
        if self.reg.v[decoded.x() as usize] != self.reg.v[decoded.y() as usize] {
            self.reg.pc = self.reg.pc.wrapping_add(2);
        }
        Ok(())
    }

    /// `6xnn`: sets `Vx` to `nn`.
    pub fn set_register(&mut self, decoded: Decoded)
        ensures
            final(self)@ == set_register_spec(old(self)@, decoded@),
    {
        self.reg.v[decoded.x() as usize] = decoded.nn();
    }

    /// `7xnn`: adds `nn` to `Vx` modulo 256 and leaves the flag alone.
    pub fn add_to_register(&mut self, decoded: Decoded)
        ensures
            final(self)@ == add_to_register_spec(old(self)@, decoded@),
    {
        let x: usize = decoded.x() as usize;
        self.reg.v[x] = self.reg.v[x].wrapping_add(decoded.nn());
    }

    /// `8xyn`: applies to `Vx` and `Vy` the operation that `n` selects. A
    /// selector without an operation is a fault.
    pub fn apply_op(&mut self, decoded: Decoded) -> (r: Result<(), Fault>)
        ensures
            ends_as(apply_op_spec(old(self)@, decoded@), old(self)@, final(self)@, r),
    {
        match decoded.n() {
            0x0 => self.copy_registers(decoded),
            0x1 => self.or_registers(decoded),
            0x2 => self.and_registers(decoded),
            0x3 => self.xor_registers(decoded),
            0x4 => self.add_registers(decoded),
            0x5 => self.sub_registers(decoded),
            0x6 => self.shift_registers_right(decoded),
            0x7 => self.subn_registers(decoded),
            0xE => self.shift_registers_left(decoded),
            _ => {
                return Err(Fault::Decode { opcode: decoded.opcode() });
            },
        }
        Ok(())
    }

    /// `8xy0`: copies `Vy` to `Vx`.
    pub fn copy_registers(&mut self, decoded: Decoded)
        ensures
            final(self)@ == copy_registers_spec(old(self)@, decoded@),
    {
        self.reg.v[decoded.x() as usize] = self.reg.v[decoded.y() as usize];
    }

    /// `8xy1`: sets `Vx` to `Vx | Vy`.
    pub fn or_registers(&mut self, decoded: Decoded)
        ensures
            final(self)@ == or_registers_spec(old(self)@, decoded@),
    {
        let x: usize = decoded.x() as usize;
        self.reg.v[x] = self.reg.v[x] | self.reg.v[decoded.y() as usize];
    }

    /// `8xy2`: sets `Vx` to `Vx & Vy`.
    pub fn and_registers(&mut self, decoded: Decoded)
        ensures
            final(self)@ == and_registers_spec(old(self)@, decoded@),
    {
        let x: usize = decoded.x() as usize;
        self.reg.v[x] = self.reg.v[x] & self.reg.v[decoded.y() as usize];
    }

    /// `8xy3`: sets `Vx` to `Vx ^ Vy`.
    pub fn xor_registers(&mut self, decoded: Decoded)
        ensures
            final(self)@ == xor_registers_spec(old(self)@, decoded@),
    {
        let x: usize = decoded.x() as usize;
        self.reg.v[x] = self.reg.v[x] ^ self.reg.v[decoded.y() as usize];
    }

    /// `8xy4`: adds `Vy` to `Vx` modulo 256, then sets `VF` to the carry.
    pub fn add_registers(&mut self, decoded: Decoded)
        ensures
            final(self)@ == add_registers_spec(old(self)@, decoded@),
    {
        let x: usize = decoded.x() as usize;
        let a: u8 = self.reg.v[x];
        let b: u8 = self.reg.v[decoded.y() as usize];
        self.reg.v[x] = a.wrapping_add(b);
        if a as u16 + b as u16 > 255 {
            self.reg.v[0xF] = 1;
        } else {
            self.reg.v[0xF] = 0;
        }
    }

    /// `8xy5`: subtracts `Vy` from `Vx` modulo 256, then sets `VF` to one if
    /// `Vx` was greater than `Vy` and to zero if not.
    pub fn sub_registers(&mut self, decoded: Decoded)
        ensures
            final(self)@ == sub_registers_spec(old(self)@, decoded@),
    {
        let x: usize = decoded.x() as usize;
        let a: u8 = self.reg.v[x];
        let b: u8 = self.reg.v[decoded.y() as usize];
        self.reg.v[x] = a.wrapping_sub(b);
        if a > b {
            self.reg.v[0xF] = 1;
        } else {
            self.reg.v[0xF] = 0;
        }
    }

    /// `8xy6`: shifts `Vx` right by one, then sets `VF` to the bit shifted
    /// out.
    pub fn shift_registers_right(&mut self, decoded: Decoded)
        ensures
            final(self)@ == shift_registers_right_spec(old(self)@, decoded@),
            final(self)@.v[0xF] == old(self)@.v[field_x(decoded@) as int] % 2,
    {
        let x: usize = decoded.x() as usize;
        let a: u8 = self.reg.v[x];
        assert(a >> 1 == a / 2) by (bit_vector);
        assert((a & 0x1 == 1) == (a % 2 == 1)) by (bit_vector);
        self.reg.v[x] = a >> 1;
        if a & 0x1 == 1 {
            self.reg.v[0xF] = 1;
        } else {
            self.reg.v[0xF] = 0;
        }
    }

    /// `8xyE`: shifts `Vx` left by one, then sets `VF` to the bit shifted
    /// out.
    pub fn shift_registers_left(&mut self, decoded: Decoded)
        ensures
            final(self)@ == shift_registers_left_spec(old(self)@, decoded@),
            final(self)@.v[0xF] == old(self)@.v[field_x(decoded@) as int] / 128,
    {
        let x: usize = decoded.x() as usize;
        let a: u8 = self.reg.v[x];
        assert(a << 1 == (a * 2) % 0x100) by (bit_vector);
        assert((a & 0x80 == 0x80) == (a >= 128)) by (bit_vector);
        self.reg.v[x] = a << 1;
        if a & 0x80 == 0x80 {
            self.reg.v[0xF] = 1;
        } else {
            self.reg.v[0xF] = 0;
        }
    }

    /// `8xy7`: sets `Vx` to `Vy - Vx` modulo 256, then sets `VF` to one if
    /// `Vy` was greater than `Vx` and to zero if not.
    pub fn subn_registers(&mut self, decoded: Decoded)
        ensures
            final(self)@ == subn_registers_spec(old(self)@, decoded@),
    {
        let x: usize = decoded.x() as usize;
        let a: u8 = self.reg.v[x];
        let b: u8 = self.reg.v[decoded.y() as usize];
        self.reg.v[x] = b.wrapping_sub(a);
        if b > a {
            self.reg.v[0xF] = 1;
        } else {
            self.reg.v[0xF] = 0;
        }
    }

    /// `Annn`: sets `I` to `nnn`.
    pub fn set_memory_addr(&mut self, decoded: Decoded)
        ensures
            final(self)@ == set_memory_addr_spec(old(self)@, decoded@),
    {
        self.reg.i = decoded.nnn();
    }

    /// `Bnnn`: jumps to `nnn + V0`.
    pub fn jump_to_address_with_offset(&mut self, decoded: Decoded)
        ensures
            final(self)@ == jump_with_offset_spec(old(self)@, decoded@),
    {
        self.reg.pc = decoded.nnn() + (self.reg.v[0] as u16);
    }

    /// `Cxnn`: sets `Vx` to a byte drawn from the random source, masked by
    /// `nn`.
    pub fn rnd_and(&mut self, decoded: Decoded)
        ensures
            exists|random: u8| final(self)@ == rnd_and_spec(old(self)@, decoded@, random),
    {
        let random: u8 = random_byte();
        self.rnd_and_with(decoded, random);
    }

    /// `Cxnn` for a given draw: sets `Vx` to `random` masked by `nn`.
    pub fn rnd_and_with(&mut self, decoded: Decoded, random: u8)
        ensures
            final(self)@ == rnd_and_spec(old(self)@, decoded@, random),
    {
        self.reg.v[decoded.x() as usize] = random & decoded.nn();
    }

    /// `Fxnn`: performs the timer, key or memory operation that `nn` selects.
    /// A selector without an operation is a fault.
    pub fn misc_op(&mut self, decoded: Decoded) -> (r: Result<(), Fault>)
        ensures
            ends_as(misc_op_spec(old(self)@, decoded@), old(self)@, final(self)@, r),
    {
        match decoded.nn() {
            0x07 => self.ld_delay_timer(decoded),
            0x0A => self.ld_register_key(decoded),
            0x15 => self.ld_delay_timer_register(decoded),
            0x18 => self.ld_sound_timer_register(decoded),
            0x1E => self.add_i_register(decoded),
            0x29 => self.ld_font_char(decoded),
            0x33 => {
                return self.ld_bcd_register(decoded);
            },
            0x55 => {
                return self.sv_registers_to_mem(decoded);
            },
            0x65 => {
                return self.ld_registers_from_mem(decoded);
            },
            _ => {
                return Err(Fault::Decode { opcode: decoded.opcode() });
            },
        }
        Ok(())
    }

    /// `Fx07`: sets `Vx` to the delay timer.
    pub fn ld_delay_timer(&mut self, decoded: Decoded)
        ensures
            final(self)@ == ld_delay_timer_spec(old(self)@, decoded@),
    {
        self.reg.v[decoded.x() as usize] = self.reg.delay_timer;
    }

    /// `Fx15`: sets the delay timer to `Vx`.
    pub fn ld_delay_timer_register(&mut self, decoded: Decoded)
        ensures
            final(self)@ == ld_delay_timer_register_spec(old(self)@, decoded@),
    {
        self.reg.delay_timer = self.reg.v[decoded.x() as usize];
    }

    /// `Fx18`: sets the sound timer to `Vx`.
    pub fn ld_sound_timer_register(&mut self, decoded: Decoded)
        ensures
            final(self)@ == ld_sound_timer_register_spec(old(self)@, decoded@),
    {
        self.reg.sound_time = self.reg.v[decoded.x() as usize];
    }

    /// `Fx1E`: adds `Vx` to `I` modulo 65536.
    pub fn add_i_register(&mut self, decoded: Decoded)
        ensures
            final(self)@ == add_i_register_spec(old(self)@, decoded@),
    {
        self.reg.i = self.reg.i.wrapping_add(self.reg.v[decoded.x() as usize] as u16);
    }

    /// `Fx33`: writes the three decimal digits of `Vx` to the addresses from
    /// `I` on, unless one of them is not readable.
    pub fn ld_bcd_register(&mut self, decoded: Decoded) -> (r: Result<(), Fault>)
        ensures
            ends_as(ld_bcd_register_spec(old(self)@, decoded@), old(self)@, final(self)@, r),
    {
        let num: u8 = self.reg.v[decoded.x() as usize];
        let start: usize = self.reg.i as usize;
        match self.check_readable(start, 3) {
            Ok(()) => {},
            Err(fault) => {
                return Err(fault);
            },
        }
        self.store(start, num / 100);
        self.store(start + 1, (num / 10) % 10);
        self.store(start + 2, num % 10);
        Ok(())
    }

    /// `Fx55`: writes `V0` to `Vx` to the addresses from `I` on, unless one of
    /// them is not readable.
    pub fn sv_registers_to_mem(&mut self, decoded: Decoded) -> (r: Result<(), Fault>)
        ensures
            ends_as(sv_registers_to_mem_spec(old(self)@, decoded@), old(self)@, final(self)@, r),
    {
        let count: usize = decoded.x() as usize + 1;
        let start: usize = self.reg.i as usize;
        match self.check_readable(start, count) {
            Ok(()) => {},
            Err(fault) => {
                return Err(fault);
            },
        }
        let mut k: usize = 0;
        while k < count
            invariant
                k <= count <= 16,
                start == old(self)@.i,
                old(self)@.readable(start as int, count as int),
                self@ == (MachineState { memory: self@.memory, ..old(self)@ }),
                self@.memory.len() == old(self)@.memory.len(),
                forall|a: int|
                    0 <= a < self@.memory.len() ==> self@.memory[a] == if start <= a < start + k {
                        old(self)@.v[a - start]
                    } else {
                        old(self)@.memory[a]
                    },
            decreases count - k,
        {
            self.store(start + k, self.reg.v[k]);
            k += 1;
        }
        assert(self@.memory =~= sv_registers_to_mem_spec(old(self)@, decoded@)->Ok_0.memory);
        Ok(())
    }

    /// `Fx65`: reads `V0` to `Vx` from the addresses from `I` on, unless one
    /// of them is not readable.
    pub fn ld_registers_from_mem(&mut self, decoded: Decoded) -> (r: Result<(), Fault>)
        ensures
            ends_as(
                ld_registers_from_mem_spec(old(self)@, decoded@),
                old(self)@,
                final(self)@,
                r,
            ),
    {
        let count: usize = decoded.x() as usize + 1;
        let start: usize = self.reg.i as usize;
        match self.check_readable(start, count) {
            Ok(()) => {},
            Err(fault) => {
                return Err(fault);
            },
        }
        let mut k: usize = 0;
        while k < count
            invariant
                k <= count <= 16,
                start == old(self)@.i,
                old(self)@.readable(start as int, count as int),
                self@ == (MachineState { v: self@.v, ..old(self)@ }),
                forall|j: int|
                    0 <= j < 16 ==> self@.v[j] == if j < k {
                        old(self)@.memory[start + j]
                    } else {
                        old(self)@.v[j]
                    },
            decreases count - k,
        {
            self.reg.v[k] = self.load_byte(start + k);
            k += 1;
        }
        assert(self@.v =~= ld_registers_from_mem_spec(old(self)@, decoded@)->Ok_0.v);
        Ok(())
    }

    /// `00E0`: darkens every pixel.
    pub fn clear_screen(&mut self)
        ensures
            final(self)@ == clear_screen_spec(old(self)@),
    {
        self.display.pixel_mat = [[false; 64]; 32];
        assert(self@.display.pixels =~~= blank_pixels());
    }

    /// `Dxyn`: draws the `n`-row sprite at `I` at column `Vx mod 64` and row
    /// `Vy mod 32`, clipped at the right and bottom edges, then sets `VF` to
    /// one if a pixel was lit where the sprite went and to zero if not. Draws
    /// nothing if a row to be drawn is not readable.
    pub fn disp_sprite(&mut self, decoded: Decoded) -> (r: Result<(), Fault>)
        ensures
            ends_as(disp_sprite_spec(old(self)@, decoded@), old(self)@, final(self)@, r),
    {
        let start_x: usize = (self.reg.v[decoded.x() as usize] % 64) as usize;
        let start_y: usize = (self.reg.v[decoded.y() as usize] % 32) as usize;
        let n: usize = decoded.n() as usize;
        let rows: usize = if start_y + n <= 32 {
            n
        } else {
            32 - start_y
        };
        let start: usize = self.reg.i as usize;
        if rows > 0 {
            match self.check_readable(start, rows) {
                Ok(()) => {},
                Err(fault) => {
                    return Err(fault);
                },
            }
        }
        let ghost before = self@.display.pixels;
        let ghost sprite = Seq::new(rows as nat, |k: int| self@.memory[start + k]);
        let ghost x0 = start_x as int;
        let ghost y0 = start_y as int;
        let mut collision = false;
        let mut row: usize = 0;
        while row < rows
            invariant
                row <= rows,
                x0 == start_x < 64,
                y0 == start_y,
                y0 + rows <= 32,
                start == old(self)@.i,
                rows == 0 || old(self)@.readable(start as int, rows as int),
                before == old(self)@.display.pixels,
                sprite == Seq::new(rows as nat, |k: int| old(self)@.memory[start + k]),
                self@ == (MachineState {
                    display: DisplayState { pixels: self@.display.pixels, ..old(self)@.display },
                    ..old(self)@
                }),
                forall|y: int, x: int|
                    0 <= y < 32 && 0 <= x < 64 ==> #[trigger] self@.display.pixels[y][x] == if y
                        < y0 + row {
                        before[y][x] != sprite_covers(sprite, x0, y0, x, y)
                    } else {
                        before[y][x]
                    },
                collision == meets_lit_pixel(before, row as int, x0, y0),
            decreases rows - row,
        {
            let bits: u8 = self.load_byte(start + row);
            let ghost shown = self@.display.pixels;
            let mut line: [bool; 64] = self.display.pixel_mat[start_y + row];
            let ghost old_line = line@;
            let hit: bool = draw_row(&mut line, bits, start_x);
            self.display.pixel_mat[start_y + row] = line;
            proof {
                assert(sprite[row as int] == bits);
                assert forall|x: int| 0 <= x < 64 implies old_line[x] == before[y0 + row][x] by {
                    assert(shown[y0 + row][x] == before[y0 + row][x]);
                }
                assert forall|y: int, x: int| 0 <= y < 32 && 0 <= x < 64 implies (
                #[trigger] self@.display.pixels[y][x]) == if y < y0 + row + 1 {
                    before[y][x] != sprite_covers(sprite, x0, y0, x, y)
                } else {
                    before[y][x]
                } by {
                    if y == y0 + row {
                        assert(self@.display.pixels[y] == line@);
                    } else {
                        assert(self@.display.pixels[y][x] == shown[y][x]);
                    }
                }
                if meets_lit_pixel(before, row + 1, x0, y0) {
                    let (x, y) = choose|x: int, y: int|
                        y0 <= y < y0 + row + 1 && y < 32 && x0 <= x < x0 + 8 && x < 64
                            && #[trigger] before[y][x];
                    if y == y0 + row {
                        assert(old_line[x]);
                    }
                }
            }
            collision = collision || hit;
            row += 1;
        }
        if collision {
            self.reg.v[0xF] = 1;
        } else {
            self.reg.v[0xF] = 0;
        }
        assert(self@.display.pixels =~~= drawn(before, sprite, x0, y0));
        Ok(())
    }

    /// `Fx29`: sets `I` to the address of the font glyph for `Vx`.
    pub fn ld_font_char(&mut self, decoded: Decoded)
        ensures
            final(self)@ == ld_font_char_spec(old(self)@, decoded@),
    {
        self.reg.i = self.reg.v[decoded.x() as usize] as u16 * 5 + 0x50;
    }

    /// `Fx0A`: waits for a key to go down and a key to come up, one poll of
    /// the transition cells at a time; while waiting it moves the program
    /// counter back onto itself.
    pub fn ld_register_key(&mut self, decoded: Decoded)
        ensures
            final(self)@ == ld_register_key_spec(old(self)@, decoded@),
    {
        match self.key_wait {
            KeyWait::KeyLatched(_) => {
                if let Some(k) = self.display.last_key_up {
                    self.reg.v[decoded.x() as usize] = k;
                    self.key_wait = KeyWait::Idle;
                } else {
                    self.reg.pc = self.reg.pc.wrapping_sub(2);
                }
            },
            KeyWait::Idle => {
                if let Some(k) = self.display.last_key_down {
                    self.key_wait = KeyWait::KeyLatched(k);
                }
                self.reg.pc = self.reg.pc.wrapping_sub(2);
            },
        }
    }

    /// `Exnn`: performs the key query that `nn` selects. A selector without
    /// a query is a fault.
    pub fn skip_next_instruction_cond(&mut self, decoded: Decoded) -> (r: Result<(), Fault>)
        ensures
            ends_as(skip_cond_spec(old(self)@, decoded@), old(self)@, final(self)@, r),
    {
        match decoded.nn() {
            0x9E => self.skip_next_instruction_if_key_pressed(decoded),
            0xA1 => self.skip_next_instruction_if_key_not_pressed(decoded),
            _ => Err(Fault::Decode { opcode: decoded.opcode() }),
        }
    }

    /// `Ex9E`: skips the next instruction if key `Vx` is held down. A `Vx`
    /// that names no key is a fault.
    pub fn skip_next_instruction_if_key_pressed(&mut self, decoded: Decoded) -> (r: Result<
        (),
        Fault,
    >)
        ensures
            ends_as(skip_if_key_pressed_spec(old(self)@, decoded@), old(self)@, final(self)@, r),
    {
        let key: u8 = self.reg.v[decoded.x() as usize];
        if key >= 16 {
            return Err(Fault::KeyIndex { key });
        }
        if self.display.keys_pressed[key as usize] {
            self.reg.pc = self.reg.pc.wrapping_add(2);
        }
        Ok(())
    }

    /// `ExA1`: skips the next instruction if key `Vx` is not held down. A
    /// `Vx` that names no key is a fault.
    pub fn skip_next_instruction_if_key_not_pressed(&mut self, decoded: Decoded) -> (r: Result<
        (),
        Fault,
    >)
        ensures
            ends_as(
                skip_if_key_not_pressed_spec(old(self)@, decoded@),
                old(self)@,
                final(self)@,
                r,
            ),
    {
        let key: u8 = self.reg.v[decoded.x() as usize];
        if key >= 16 {
            return Err(Fault::KeyIndex { key });
        }
        if !self.display.keys_pressed[key as usize] {
            self.reg.pc = self.reg.pc.wrapping_add(2);
        }
        Ok(())
    }

    /// One tick of the timers.
    pub fn update_timers(&mut self)
        ensures
            final(self)@ == update_timers_spec(old(self)@),
    {
        if self.reg.delay_timer > 0 {
            self.reg.delay_timer -= 1;
        }
        if self.reg.sound_time > 0 {
            self.reg.sound_time -= 1;
        }
    }

    /// Whether the tone is to sound: whether the sound timer is running.
    pub fn should_beep(&self) -> (beep: bool)
        ensures
            beep == (self@.sound_timer > 0),
    {
        self.reg.sound_time > 0
    }

    /// Tells whether the `count` addresses from `start` on are all readable,
    /// and if not names the first that is not.
    fn check_readable(&self, start: usize, count: usize) -> (r: Result<(), Fault>)
        requires
            start + count <= usize::MAX,
        ensures
            r == if self@.readable(start as int, count as int) {
                Ok::<(), Fault>(())
            } else {
                Err::<(), Fault>(self@.bounds_fault(start as int))
            },
    {
        let size: usize = self.memory.loaded_size();
        if start + count <= size {
            Ok(())
        } else if start < size {
            Err(Fault::MemoryBounds { address: size })
        } else {
            Err(Fault::MemoryBounds { address: start })
        }
    }

    /// Stores `value` at the readable address `address`.
    fn store(&mut self, address: usize, value: u8)
        requires
            address < old(self)@.memory.len(),
        ensures
            final(self)@ == (MachineState {
                memory: old(self)@.memory.update(address as int, value),
                ..old(self)@
            }),
    {
        let _ = self.memory.write(address, value);
    }

    /// The byte at the readable address `address`.
    fn load_byte(&self, address: usize) -> (value: u8)
        requires
            address < self@.memory.len(),
        ensures
            value == self@.memory[address as int],
    {
        match self.memory.read(address) {
            Ok(value) => value,
            Err(_) => 0,
        }
    }
}

} // verus!
