//! The call stack: a fixed-capacity LIFO of return addresses.

use vstd::prelude::*;

verus! {

/// Number of return addresses the call stack can hold.
pub const STACK_CAPACITY: usize = 16;

/// A last-in, first-out store of at most [`STACK_CAPACITY`] 16-bit addresses.
///
/// Its view is the sequence of the addresses it holds, oldest first; the cells
/// of the backing array above the top are not part of the value.
pub struct Stack {
    items: [u16; 16],
    top: usize,
}

impl View for Stack {
    type V = Seq<u16>;

    // No stack has its top above the capacity; the second case only makes
    // the bound on the length hold of every value that a proof can name.
    closed spec fn view(&self) -> Seq<u16> {
        if self.top <= STACK_CAPACITY {
            self.items@.take(self.top as int)
        } else {
            self.items@
        }
    }
}

impl Stack {
    #[verifier::type_invariant]
    spec fn inv(self) -> bool {
        self.top <= STACK_CAPACITY
    }

    /// Every stack holds at most [`STACK_CAPACITY`] addresses.
    pub proof fn lemma_bounded(self)
        ensures
            self@.len() <= STACK_CAPACITY,
    {
    }

    /// An empty stack.
    pub fn default() -> (s: Self)
        ensures
            s@ == Seq::<u16>::empty(),
    {
        Stack { items: [0; 16], top: 0 }
    }

    /// Pushes `value` unless the stack is full.
    pub fn push(&mut self, value: u16) -> (r: Result<(), &'static str>)
        ensures
            old(self)@.len() < STACK_CAPACITY ==> r is Ok && final(self)@ == old(self)@.push(value),
            old(self)@.len() >= STACK_CAPACITY ==> r is Err && r->Err_0@ == "Stack overflow"@
                && final(self)@ == old(self)@,
    {
        proof {
            use_type_invariant(&*self);
        }
        if self.top < STACK_CAPACITY {
            self.items[self.top] = value;
            self.top += 1;
            Ok(())
        } else {
            Err("Stack overflow")
        }
    }

    /// Pops the most recently pushed address unless the stack is empty.
    pub fn pop(&mut self) -> (r: Result<u16, &'static str>)
        ensures
            old(self)@.len() > 0 ==> r == Ok::<u16, &'static str>(old(self)@.last())
                && final(self)@ == old(self)@.drop_last(),
            old(self)@.len() == 0 ==> r is Err && r->Err_0@ == "Stack underflow"@
                && final(self)@ == old(self)@,
    {
        proof {
            use_type_invariant(&*self);
        }
        if self.top > 0 {
            self.top -= 1;
            Ok(self.items[self.top])
        } else {
            Err("Stack underflow")
        }
    }

    /// Whether the stack holds no address.
    pub fn is_empty(&self) -> (b: bool)
        ensures
            b == (self@.len() == 0),
    {
        proof {
            use_type_invariant(self);
        }
        self.top == 0
    }

    /// The number of addresses held.
    pub fn size(&self) -> (n: usize)
        ensures
            n == self@.len(),
    {
        proof {
            use_type_invariant(self);
        }
        self.top
    }

    /// The address at `index`, counted from the oldest, if there is one.
    pub fn get(&self, index: usize) -> (r: Option<u16>)
        ensures
            r == if index < self@.len() { Some(self@[index as int]) } else { None },
    {
        proof {
            use_type_invariant(self);
        }
        if index < self.top {
            Some(self.items[index])
        } else {
            None
        }
    }
}

} // verus!
