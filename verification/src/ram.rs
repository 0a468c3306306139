//! Main memory: a flat byte store whose readable part is fixed when a program
//! is loaded.

use vstd::prelude::*;

verus! {

/// Number of byte cells in main memory.
pub const MEMORY_SIZE: usize = 4096;

/// Address at which a loaded program begins.
pub const PROGRAM_START: usize = 0x200;

/// The machine's byte-addressable memory.
///
/// Only the addresses below the loaded size can be read or written. The view
/// of a memory is the sequence of those readable bytes: it is empty until a
/// program is loaded, and afterwards holds the `PROGRAM_START` bytes of the
/// system area followed by the program.
pub struct RAM {
    cart: [u8; 4096],
    cart_size: usize,
}

impl View for RAM {
    type V = Seq<u8>;

    // No memory has a loaded size above its size; the second case only makes
    // the bound on the length hold of every value that a proof can name.
    closed spec fn view(&self) -> Seq<u8> {
        if self.cart_size <= MEMORY_SIZE {
            self.cart@.take(self.cart_size as int)
        } else {
            self.cart@
        }
    }
}

/// The system area of a memory into which nothing has been written yet.
pub open spec fn blank_system_area() -> Seq<u8> {
    Seq::new(PROGRAM_START as nat, |i: int| 0u8)
}

/// The readable bytes after loading `program` into a memory whose readable
/// bytes were `before`: the system area as it was, then the program.
pub open spec fn loaded_image(before: Seq<u8>, program: Seq<u8>) -> Seq<u8> {
    if before.len() == 0 {
        blank_system_area() + program
    } else {
        before.take(PROGRAM_START as int) + program
    }
}

impl RAM {
    #[verifier::type_invariant]
    spec fn inv(self) -> bool {
        &&& self.cart_size <= MEMORY_SIZE
        &&& self.cart_size == 0 || self.cart_size >= PROGRAM_START
        &&& self.cart_size == 0 ==> forall|i: int| 0 <= i < PROGRAM_START ==> self.cart@[i] == 0
    }

    /// No memory has more than [`MEMORY_SIZE`] readable bytes.
    pub proof fn lemma_bounded(self)
        ensures
            self@.len() <= MEMORY_SIZE,
    {
    }

    /// A memory with nothing loaded: no address is readable.
    pub fn default() -> (ram: Self)
        ensures
            ram@ == Seq::<u8>::empty(),
    {
        RAM { cart: [0; 4096], cart_size: 0 }
    }

    /// Copies `bytes` to [`PROGRAM_START`] and onwards and makes exactly the
    /// addresses below the end of the copy readable. Returns the loaded size.
    pub fn load(&mut self, bytes: &[u8]) -> (loaded: usize)
        requires
            bytes@.len() <= MEMORY_SIZE - PROGRAM_START,
        ensures
            loaded == PROGRAM_START + bytes@.len(),
            final(self)@ == loaded_image(old(self)@, bytes@),
    {
        proof {
            use_type_invariant(&*self);
        }
        let n: usize = bytes.len();
        let ghost before = self.cart@;
        let ghost prior = self@;
        self.cart_size = PROGRAM_START + n;
        let mut i: usize = 0;
        while i < n
            invariant
                i <= n,
                n == bytes@.len(),
                n <= MEMORY_SIZE - PROGRAM_START,
                before.len() == MEMORY_SIZE,
                prior == old(self)@,
                prior.len() == 0 ==> forall|j: int| 0 <= j < PROGRAM_START ==> before[j] == 0,
                prior.len() != 0 ==> prior.len() >= PROGRAM_START && forall|j: int|
                    0 <= j < PROGRAM_START ==> prior[j] == before[j],
                self.cart_size == PROGRAM_START + n,
                forall|j: int| 0 <= j < i ==> self.cart@[PROGRAM_START + j] == bytes@[j],
                forall|j: int| 0 <= j < PROGRAM_START ==> self.cart@[j] == before[j],
            decreases n - i,
        {
            self.cart[PROGRAM_START + i] = bytes[i];
            i += 1;
        }
        proof {
            assert forall|a: int| 0 <= a < PROGRAM_START + n implies self@[a] == loaded_image(
                prior,
                bytes@,
            )[a] by {
                if a >= PROGRAM_START {
                    assert(self.cart@[PROGRAM_START + (a - PROGRAM_START)] == bytes@[a
                        - PROGRAM_START]);
                } else if prior.len() == 0 {
                    assert(before[a] == 0);
                } else {
                    assert(prior[a] == before[a]);
                }
            }
        }
        PROGRAM_START + n
    }

    /// The byte at `address`, if that address is readable.
    pub fn read(&self, address: usize) -> (r: Result<u8, &'static str>)
        ensures
            address < self@.len() ==> r == Ok::<u8, &'static str>(self@[address as int]),
            address >= self@.len() ==> r is Err && r->Err_0@ == "Address out of bounds"@,
    {
        proof {
            use_type_invariant(self);
        }
        if address >= self.cart_size {
            return Err("Address out of bounds");
        }
        Ok(self.cart[address])
    }

    /// Stores `value` at `address`, if that address is readable.
    pub fn write(&mut self, address: usize, value: u8) -> (r: Result<(), &'static str>)
        ensures
            address < old(self)@.len() ==> r is Ok && final(self)@ == old(self)@.update(
                address as int,
                value,
            ),
            address >= old(self)@.len() ==> r is Err && r->Err_0@ == "Address out of bounds"@
                && final(self)@ == old(self)@,
    {
        proof {
            use_type_invariant(&*self);
        }
        if address >= self.cart_size {
            return Err("Address out of bounds");
        }
        self.cart[address] = value;
        assert(self@ =~= old(self)@.update(address as int, value));
        Ok(())
    }

    /// The number of readable bytes: zero before a program is loaded, then
    /// [`PROGRAM_START`] plus the program's length.
    pub fn loaded_size(&self) -> (n: usize)
        ensures
            n == self@.len(),
    {
        proof {
            use_type_invariant(self);
        }
        self.cart_size
    }
}

} // verus!
