//! The register file.

use vstd::prelude::*;

verus! {

/// The registers of the machine.
///
/// `v` holds the sixteen general registers `V0` to `VF`; `VF` doubles as the
/// flag register. `i` is the address register and `pc` the program counter:
/// both are plain 16-bit registers. `sp` counts the subroutine calls in
/// progress and is never used for addressing. `delay_timer` and `sound_time`
/// count down towards zero on every timer tick.
#[derive(Debug)]
pub struct Reg {
    pub v: [u8; 16],
    pub i: u16,
    pub delay_timer: u8,
    pub sound_time: u8,
    pub pc: u16,
    pub sp: u8,
}

/// Sixteen general registers that all hold zero.
pub open spec fn zeroed_registers() -> Seq<u8> {
    Seq::new(16, |i: int| 0u8)
}

impl Default for Reg {
    /// A register file with every register zero.
    fn default() -> (r: Self)
        ensures
            r.v@ == zeroed_registers(),
            r.i == 0,
            r.delay_timer == 0,
            r.sound_time == 0,
            r.pc == 0,
            r.sp == 0,
    {
        Reg { v: [0; 16], i: 0, delay_timer: 0, sound_time: 0, pc: 0, sp: 0 }
    }
}

} // verus!
