use vstd::prelude::*;

verus! {

/// The eight processor status flags of the 6502.
///
/// `reserved` is the hardware bit that always reads as one; every reset
/// forces it true. All other flags change only as explicit side effects of
/// instruction execution.
#[derive(Clone, Copy, Debug, PartialEq, Eq, Structural)]
pub struct StatusRegister {
    pub negative: bool,
    pub overflow: bool,
    pub reserved: bool,
    pub break_mode: bool,
    pub decimal_mode: bool,
    pub irq_disable: bool,
    pub zero: bool,
    pub carry: bool,
}

impl StatusRegister {
    /// The power-on flag state: everything clear but the reserved bit.
    pub open spec fn spec_initial() -> StatusRegister {
        StatusRegister {
            negative: false,
            overflow: false,
            reserved: true,
            break_mode: false,
            decimal_mode: false,
            irq_disable: false,
            zero: false,
            carry: false,
        }
    }

    pub fn new() -> (r: Self)
        ensures
            r == Self::spec_initial(),
    {
        Self {
            negative: false,
            overflow: false,
            reserved: true,
            break_mode: false,
            decimal_mode: false,
            irq_disable: false,
            zero: false,
            carry: false,
        }
    }

    /// Clears every flag except `reserved`, which is forced true.
    pub fn reset(&mut self)
        ensures
            *final(self) == Self::spec_initial(),
    {
        self.negative = false;
        self.overflow = false;
        self.reserved = true;
        self.break_mode = false;
        self.decimal_mode = false;
        self.irq_disable = false;
        self.zero = false;
        self.carry = false;
    }

    pub fn negative(&self) -> (r: bool)
        ensures
            r == self.negative,
    {
        self.negative
    }

    pub fn set_negative(&mut self, value: bool)
        ensures
            *final(self) == (StatusRegister { negative: value, ..*old(self) }),
    {
        self.negative = value;
    }

    pub fn overflow(&self) -> (r: bool)
        ensures
            r == self.overflow,
    {
        self.overflow
    }

    pub fn set_overflow(&mut self, value: bool)
        ensures
            *final(self) == (StatusRegister { overflow: value, ..*old(self) }),
    {
        self.overflow = value;
    }

    pub fn reserved(&self) -> (r: bool)
        ensures
            r == self.reserved,
    {
        self.reserved
    }

    pub fn break_mode(&self) -> (r: bool)
        ensures
            r == self.break_mode,
    {
        self.break_mode
    }

    pub fn set_break_mode(&mut self, value: bool)
        ensures
            *final(self) == (StatusRegister { break_mode: value, ..*old(self) }),
    {
        self.break_mode = value;
    }

    pub fn decimal_mode(&self) -> (r: bool)
        ensures
            r == self.decimal_mode,
    {
        self.decimal_mode
    }

    pub fn set_decimal_mode(&mut self, value: bool)
        ensures
            *final(self) == (StatusRegister { decimal_mode: value, ..*old(self) }),
    {
        self.decimal_mode = value;
    }

    pub fn irq_disable(&self) -> (r: bool)
        ensures
            r == self.irq_disable,
    {
        self.irq_disable
    }

    pub fn set_irq_disable(&mut self, value: bool)
        ensures
            *final(self) == (StatusRegister { irq_disable: value, ..*old(self) }),
    {
        self.irq_disable = value;
    }

    pub fn zero(&self) -> (r: bool)
        ensures
            r == self.zero,
    {
        self.zero
    }

    pub fn set_zero(&mut self, value: bool)
        ensures
            *final(self) == (StatusRegister { zero: value, ..*old(self) }),
    {
        self.zero = value;
    }

    pub fn carry(&self) -> (r: bool)
        ensures
            r == self.carry,
    {
        self.carry
    }

    pub fn set_carry(&mut self, value: bool)
        ensures
            *final(self) == (StatusRegister { carry: value, ..*old(self) }),
    {
        self.carry = value;
    }
}

} // verus!
