//! What holds of the machine in every state: statements that relate several
//! instructions, or an instruction and the step around it.

use crate::display::{after_input, DisplayState, InputEvent, DISPLAY_HEIGHT, DISPLAY_WIDTH};
use crate::machine::{
    add_registers_spec, call_spec, drawn, execute_spec, fetch_spec, field_n, field_nn, field_nnn,
    field_upper, field_x, field_y, ld_register_key_spec, misc_op_spec, return_spec,
    shift_registers_left_spec, shift_registers_right_spec, skip_equal_spec, step_spec,
    sub_registers_spec, subn_registers_spec, wrap16, wrap8, Fault, KeyWait, MachineState,
};
use crate::stack::STACK_CAPACITY;
use vstd::prelude::*;

verus! {

/// The fields of an opcode are its hexadecimal digits: the class is the
/// first, `nnn` the other three, `x` and `nn` make up `nnn`, and `y` and `n`
/// make up `nn`.
pub proof fn lemma_fields_compose(opcode: u16)
    ensures
        opcode == field_upper(opcode) * 0x1000 + field_nnn(opcode),
        field_nnn(opcode) == field_x(opcode) * 0x100 + field_nn(opcode),
        field_nn(opcode) == field_y(opcode) * 0x10 + field_n(opcode),
        field_upper(opcode) < 16,
        field_x(opcode) < 16,
        field_y(opcode) < 16,
        field_n(opcode) < 16,
{
}

/// Addition, the two subtractions and the two shifts leave zero or one in
/// the flag register, whatever it held before.
pub proof fn lemma_flag_is_zero_or_one(s: MachineState, opcode: u16)
    requires
        s.well_formed(),
    ensures
        add_registers_spec(s, opcode).v[0xF] <= 1,
        sub_registers_spec(s, opcode).v[0xF] <= 1,
        subn_registers_spec(s, opcode).v[0xF] <= 1,
        shift_registers_right_spec(s, opcode).v[0xF] <= 1,
        shift_registers_left_spec(s, opcode).v[0xF] <= 1,
{
}

/// The flag that an addition leaves is the carry: together with the new
/// `Vx` it makes up the sum of the old `Vx` and `Vy`. (Where `Vx` is the flag
/// register itself, the flag takes the place of the sum.)
pub proof fn lemma_carry_completes_the_sum(s: MachineState, opcode: u16)
    requires
        s.well_formed(),
        field_x(opcode) != 0xF,
    ensures
        ({
            let after = add_registers_spec(s, opcode);
            after.v[field_x(opcode) as int] + 256 * after.v[0xF] == s.v[field_x(opcode) as int]
                + s.v[field_y(opcode) as int]
        }),
{
}

/// The flag that a subtraction leaves is set when `Vx` was greater than
/// `Vy`, and then the new `Vx` is the difference. When it is clear the new
/// `Vx` is the difference plus 256, or zero where the two were equal.
pub proof fn lemma_borrow_completes_the_difference(s: MachineState, opcode: u16)
    requires
        s.well_formed(),
        field_x(opcode) != 0xF,
    ensures
        ({
            let a = s.v[field_x(opcode) as int];
            let b = s.v[field_y(opcode) as int];
            let after = sub_registers_spec(s, opcode);
            &&& after.v[0xF] == 1 <==> a > b
            &&& a > b ==> after.v[field_x(opcode) as int] == a - b
            &&& a < b ==> after.v[field_x(opcode) as int] == a - b + 256
            &&& a == b ==> after.v[field_x(opcode) as int] == 0
        }),
{
}

/// After a shift the flag register holds the bit that `Vx` had at the end
/// that the shift pushes out: the lowest bit for a shift to the right, the
/// highest for a shift to the left. This holds whatever bits the shifted
/// value has, and also where `Vx` is the flag register itself.
pub proof fn lemma_shift_flag_is_lost_bit(s: MachineState, opcode: u16)
    requires
        s.well_formed(),
    ensures
        shift_registers_right_spec(s, opcode).v[0xF] == s.v[field_x(opcode) as int] % 2,
        shift_registers_left_spec(s, opcode).v[0xF] == s.v[field_x(opcode) as int] / 128,
{
}

/// What `push` adds to the call stack is what `pop` takes from it, and the
/// stack is then as it was: addresses come back last in, first out.
pub proof fn lemma_pop_undoes_push(stack: Seq<u16>, address: u16)
    ensures
        stack.push(address).last() == address,
        stack.push(address).drop_last() == stack,
{
}

/// After the addresses `pushed` have been pushed one after the other, a pop
/// gives the last of them and leaves the stack as it is after pushing the
/// others. So as many pops as pushes give the addresses back in reverse
/// order and leave the stack as it was.
pub proof fn lemma_last_in_first_out(stack: Seq<u16>, pushed: Seq<u16>)
    requires
        pushed.len() > 0,
    ensures
        stack + pushed == (stack + pushed.drop_last()).push(pushed.last()),
        (stack + pushed).last() == pushed.last(),
        (stack + pushed).drop_last() == stack + pushed.drop_last(),
{
}

/// A return that follows a call goes back to the instruction after the call
/// and leaves the call stack and the count of calls as they were before the
/// call.
pub proof fn lemma_call_then_return(s: MachineState, opcode: u16)
    requires
        s.well_formed(),
        s.stack.len() < STACK_CAPACITY,
    ensures
        call_spec(s, opcode) is Ok,
        return_spec(call_spec(s, opcode)->Ok_0) == Ok::<MachineState, Fault>(s),
{
    let called = call_spec(s, opcode)->Ok_0;
    assert(called.stack.drop_last() =~= s.stack);
    assert(wrap8(wrap8(s.sp + 1) - 1) == s.sp);
}

/// While the count of calls equals the depth of the call stack, calls and
/// returns keep it so.
pub proof fn lemma_call_count_tracks_depth(s: MachineState, opcode: u16)
    requires
        s.well_formed(),
        s.sp == s.stack.len(),
    ensures
        call_spec(s, opcode) matches Ok(t) ==> t.sp == t.stack.len(),
        return_spec(s) matches Ok(t) ==> t.sp == t.stack.len(),
{
}

/// Only `Cxnn` uses the random byte: what any other opcode does is the same
/// whatever byte the random source gives.
pub proof fn lemma_only_cxnn_is_random(s: MachineState, opcode: u16, first: u8, second: u8)
    requires
        field_upper(opcode) != 0xC,
    ensures
        execute_spec(s, opcode, first) == execute_spec(s, opcode, second),
{
}

/// A step that does not fetch a `Cxnn` ends the same whatever byte the
/// random source gives.
pub proof fn lemma_step_is_determined(s: MachineState, first: u8, second: u8)
    requires
        fetch_spec(s) matches Ok(opcode) ==> field_upper(opcode) != 0xC,
    ensures
        step_spec(s, first) == step_spec(s, second),
{
    if let Ok(opcode) = fetch_spec(s) {
        lemma_only_cxnn_is_random(s.move_pc(2), opcode, first, second);
    }
}

/// No instruction makes a well-formed state ill-formed, and none changes how
/// much of memory is readable.
pub proof fn lemma_execute_keeps_well_formed(s: MachineState, opcode: u16, random: u8)
    requires
        s.well_formed(),
        execute_spec(s, opcode, random) is Ok,
    ensures
        execute_spec(s, opcode, random)->Ok_0.well_formed(),
        execute_spec(s, opcode, random)->Ok_0.memory.len() == s.memory.len(),
{
}

/// The engine only reads the keypad: no instruction changes which keys are
/// held down or which transitions are pending.
pub proof fn lemma_execute_leaves_keypad(s: MachineState, opcode: u16, random: u8)
    requires
        execute_spec(s, opcode, random) is Ok,
    ensures
        ({
            let t = execute_spec(s, opcode, random)->Ok_0;
            &&& t.display.keys_pressed == s.display.keys_pressed
            &&& t.display.last_key_down == s.display.last_key_down
            &&& t.display.last_key_up == s.display.last_key_up
        }),
{
}

/// Pixels change only where a sprite is drawn or the screen is cleared:
/// every other instruction leaves the grid as it was.
pub proof fn lemma_only_draw_and_clear_change_pixels(s: MachineState, opcode: u16, random: u8)
    requires
        execute_spec(s, opcode, random) is Ok,
        opcode != 0x00E0,
        field_upper(opcode) != 0xD,
    ensures
        execute_spec(s, opcode, random)->Ok_0.display.pixels == s.display.pixels,
{
}

/// The timers do not count down as instructions execute: an instruction
/// changes a timer only by loading it from a register.
pub proof fn lemma_execute_leaves_timers(s: MachineState, opcode: u16, random: u8)
    requires
        execute_spec(s, opcode, random) is Ok,
    ensures
        ({
            let t = execute_spec(s, opcode, random)->Ok_0;
            &&& !(field_upper(opcode) == 0xF && field_nn(opcode) == 0x15) ==> t.delay_timer
                == s.delay_timer
            &&& !(field_upper(opcode) == 0xF && field_nn(opcode) == 0x18) ==> t.sound_timer
                == s.sound_timer
        }),
{
}

/// Moving the program counter forth by two twice moves it forth by four.
proof fn lemma_two_and_two(s: MachineState)
    ensures
        s.move_pc(2).move_pc(2) == s.move_pc(4),
{
    assert(wrap16(wrap16(s.pc + 2) + 2) == wrap16(s.pc + 4));
}

/// An opcode of class `3` is executed as the comparison of `Vx` with `nn`.
proof fn lemma_skip_equal_dispatch(t: MachineState, opcode: u16, random: u8)
    requires
        field_upper(opcode) == 0x3,
    ensures
        execute_spec(t, opcode, random) == Ok::<MachineState, Fault>(skip_equal_spec(t, opcode)),
{
    assert(opcode != 0x00E0 && opcode != 0x00EE);
}

/// A step that executes `3xnn` while `Vx` equals `nn` leaves the program
/// counter four past where it was and changes nothing else; while `Vx`
/// differs from `nn` it leaves the program counter two past where it was.
pub proof fn lemma_skip_equal_step(s: MachineState, opcode: u16, random: u8)
    requires
        s.well_formed(),
        fetch_spec(s) == Ok::<u16, Fault>(opcode),
        field_upper(opcode) == 0x3,
    ensures
        s.v[field_x(opcode) as int] == field_nn(opcode) ==> step_spec(s, random) == Ok::<
            MachineState,
            Fault,
        >(s.move_pc(4)),
        s.v[field_x(opcode) as int] != field_nn(opcode) ==> step_spec(s, random) == Ok::<
            MachineState,
            Fault,
        >(s.move_pc(2)),
{
    let t = s.move_pc(2);
    lemma_skip_equal_dispatch(t, opcode, random);
    lemma_two_and_two(s);
}

/// A sprite changes no pixel outside the eight columns from `x0` on and the
/// rows from `y0` on that it has: nothing appears at the left of the grid for
/// what is lost at the right, nor at the top for what is lost at the bottom.
pub proof fn lemma_draw_stays_in_place(
    pixels: Seq<Seq<bool>>,
    sprite: Seq<u8>,
    x0: int,
    y0: int,
    x: int,
    y: int,
)
    requires
        0 <= x < DISPLAY_WIDTH,
        0 <= y < DISPLAY_HEIGHT,
        !(x0 <= x < x0 + 8 && y0 <= y < y0 + sprite.len()),
    ensures
        drawn(pixels, sprite, x0, y0)[y][x] == pixels[y][x],
{
}

/// Drawing the same sprite twice at the same place gives back the grid.
pub proof fn lemma_draw_twice_restores(pixels: Seq<Seq<bool>>, sprite: Seq<u8>, x0: int, y0: int)
    requires
        pixels.len() == DISPLAY_HEIGHT,
        forall|y: int| 0 <= y < DISPLAY_HEIGHT ==> (#[trigger] pixels[y]).len() == DISPLAY_WIDTH,
    ensures
        drawn(drawn(pixels, sprite, x0, y0), sprite, x0, y0) == pixels,
{
    assert(drawn(drawn(pixels, sprite, x0, y0), sprite, x0, y0) =~~= pixels);
}

/// An input event never touches a pixel, and after any event at most one of
/// the two key transitions is pending.
pub proof fn lemma_input_keeps_pixels_and_one_transition(
    d: DisplayState,
    event: InputEvent,
    key: Option<u8>,
)
    ensures
        after_input(d, event, key).pixels == d.pixels,
        after_input(d, event, key).last_key_down is None || after_input(
            d,
            event,
            key,
        ).last_key_up is None,
{
}

/// Moving the program counter forth by two and back by two leaves it where
/// it was.
proof fn lemma_forth_and_back(s: MachineState)
    ensures
        s.move_pc(2).move_pc(-2) == s,
{
    assert(wrap16(wrap16(s.pc + 2) - 2) == s.pc);
}

/// An opcode of class `F` with `0A` as its low byte is executed as the key
/// wait.
proof fn lemma_key_wait_dispatch(t: MachineState, opcode: u16, random: u8)
    requires
        field_upper(opcode) == 0xF,
        field_nn(opcode) == 0x0A,
    ensures
        execute_spec(t, opcode, random) == Ok::<MachineState, Fault>(
            ld_register_key_spec(t, opcode),
        ),
{
    assert(opcode != 0x00E0 && opcode != 0x00EE);
    assert(execute_spec(t, opcode, random) == misc_op_spec(t, opcode));
}

/// A step that fetches an `Fx0A` executes the key wait on the state with
/// the program counter moved past the instruction.
proof fn lemma_key_wait_step(s: MachineState, opcode: u16, random: u8)
    requires
        fetch_spec(s) == Ok::<u16, Fault>(opcode),
        field_upper(opcode) == 0xF,
        field_nn(opcode) == 0x0A,
    ensures
        step_spec(s, random) == Ok::<MachineState, Fault>(
            ld_register_key_spec(s.move_pc(2), opcode),
        ),
        s.move_pc(2).move_pc(-2) == s,
{
    lemma_forth_and_back(s);
    lemma_key_wait_dispatch(s.move_pc(2), opcode, random);
}

/// A step that executes `Fx0A` while no key is latched and no key went
/// down leaves the machine exactly as it was: the program stands still.
pub proof fn lemma_key_wait_idles(s: MachineState, opcode: u16, random: u8)
    requires
        s.well_formed(),
        fetch_spec(s) == Ok::<u16, Fault>(opcode),
        field_upper(opcode) == 0xF,
        field_nn(opcode) == 0x0A,
        s.key_wait == KeyWait::Idle,
        s.display.last_key_down is None,
    ensures
        step_spec(s, random) == Ok::<MachineState, Fault>(s),
{
    lemma_key_wait_step(s, opcode, random);
}

/// A step that executes `Fx0A` while no key is latched and key `k` went
/// down latches `k` and changes nothing else: the program stands still.
pub proof fn lemma_key_wait_latches(s: MachineState, opcode: u16, random: u8, k: u8)
    requires
        s.well_formed(),
        fetch_spec(s) == Ok::<u16, Fault>(opcode),
        field_upper(opcode) == 0xF,
        field_nn(opcode) == 0x0A,
        s.key_wait == KeyWait::Idle,
        s.display.last_key_down == Some(k),
    ensures
        step_spec(s, random) == Ok::<MachineState, Fault>(
            MachineState { key_wait: KeyWait::KeyLatched(k), ..s },
        ),
{
    lemma_key_wait_step(s, opcode, random);
}

/// A step that executes `Fx0A` while a key is latched and no key came up
/// leaves the machine exactly as it was: the program stands still.
pub proof fn lemma_key_wait_holds(s: MachineState, opcode: u16, random: u8)
    requires
        s.well_formed(),
        fetch_spec(s) == Ok::<u16, Fault>(opcode),
        field_upper(opcode) == 0xF,
        field_nn(opcode) == 0x0A,
        s.key_wait is KeyLatched,
        s.display.last_key_up is None,
    ensures
        step_spec(s, random) == Ok::<MachineState, Fault>(s),
{
    lemma_key_wait_step(s, opcode, random);
}

/// A step that executes `Fx0A` while a key is latched and key `k` came up
/// puts `k` into `Vx`, whichever key was latched, clears the latch and goes
/// on to the next instruction.
pub proof fn lemma_key_wait_commits(s: MachineState, opcode: u16, random: u8, k: u8)
    requires
        s.well_formed(),
        fetch_spec(s) == Ok::<u16, Fault>(opcode),
        field_upper(opcode) == 0xF,
        field_nn(opcode) == 0x0A,
        s.key_wait is KeyLatched,
        s.display.last_key_up == Some(k),
    ensures
        step_spec(s, random) == Ok::<MachineState, Fault>(
            MachineState { key_wait: KeyWait::Idle, ..s.set_v(field_x(opcode) as int, k).move_pc(2) },
        ),
{
    lemma_key_wait_step(s, opcode, random);
}

} // verus!
