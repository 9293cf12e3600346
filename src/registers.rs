use vstd::prelude::*;

verus! {

/// Number of general-purpose registers.
pub const NUM_REGISTERS: usize = 16;

/// Index of the register that doubles as the carry, borrow and collision flag.
pub const FLAG: u8 = 0xF;

/// The sixteen 8-bit general-purpose registers `V0` to `VF`.
#[derive(Debug, Clone, PartialEq, Eq, Hash)]
pub struct Registers(pub [u8; 16]);

impl View for Registers {
    type V = Seq<u8>;

    open spec fn view(&self) -> Seq<u8> {
        self.0@
    }
}

impl Registers {
    /// All registers zeroed.
    pub fn new() -> (r: Self)
        ensures
            r@.len() == NUM_REGISTERS,
            forall|k: int| 0 <= k < NUM_REGISTERS ==> r@[k] == 0,
    {
        Self([0;16])
    }

    pub fn get(&self, x: u8) -> (r: u8)
        requires
            x < NUM_REGISTERS,
        ensures
            r == self@[x as int],
    {
        self.0[x as usize]
    }

    pub fn get_mut(&mut self, x: u8) -> (r: &mut u8)
        requires
            x < NUM_REGISTERS,
        ensures
            *r == old(self)@[x as int],
            final(self)@ == old(self)@.update(x as int, *final(r)),
    {
        &mut self.0[x as usize]
    }

    pub fn set(&mut self, x: u8, v: u8)
        requires
            x < NUM_REGISTERS,
        ensures
            final(self)@ == old(self)@.update(x as int, v),
    {
        self.0[x as usize] = v;
    }
}

} // verus!
