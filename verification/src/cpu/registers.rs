use vstd::prelude::*;

use crate::cpu::status_register::StatusRegister;

verus! {

pub type ProgramCounter = u16;

/// The 6502 register file: accumulator, the two index registers, the stack
/// pointer, the status flags, and the program counter.
#[derive(Clone, Copy, Debug, PartialEq, Eq, Structural)]
pub struct Registers {
    pub a: u8,
    pub x: u8,
    pub y: u8,
    pub s: u8,
    pub p: StatusRegister,
    pub pc: ProgramCounter,
}

impl Registers {
    /// The power-on register state: all registers zero, flags initial.
    pub open spec fn spec_initial() -> Registers {
        Registers {
            a: 0,
            x: 0,
            y: 0,
            s: 0,
            p: StatusRegister::spec_initial(),
            pc: 0,
        }
    }

    pub fn new() -> (r: Self)
        ensures
            r == Self::spec_initial(),
    {
        Self {
            a: 0,
            x: 0,
            y: 0,
            s: 0,
            p: StatusRegister::new(),
            pc: 0,
        }
    }

    pub fn reset(&mut self)
        ensures
            *final(self) == Self::spec_initial(),
    {
        self.a = 0;
        self.x = 0;
        self.y = 0;
        self.s = 0;
        self.p.reset();
        self.pc = 0;
    }

    /// Increments the program counter by one, wrapping at `0xFFFF`.
    pub fn advance_pc(&mut self)
        ensures
            *final(self) == (Registers { pc: old(self).pc.wrapping_add(1), ..*old(self) }),
    {
        self.pc = self.pc.wrapping_add(1);
    }

    pub fn set_pc(&mut self, value: ProgramCounter)
        ensures
            *final(self) == (Registers { pc: value, ..*old(self) }),
    {
        self.pc = value;
    }
}

} // verus!
