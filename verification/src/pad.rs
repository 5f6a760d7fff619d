use vstd::prelude::*;

use crate::bus::{BusAddr, ByteReadable, ByteWritable};

verus! {

/// The controller pad. Input encoding is outside this core, so the device is
/// a stateless stub: reads return zero and writes are discarded.
pub struct Pad;

impl Pad {
    pub fn new() -> Self {
        Self
    }
}

impl ByteReadable for Pad {
    open spec fn read_model(&self, addr: BusAddr) -> u8 {
        0
    }

    fn read_byte(&self, addr: BusAddr) -> (r: u8)
        ensures
            r == self.read_model(addr),
    {
        0
    }
}

impl ByteWritable for Pad {
    open spec fn write_model(&self, post: &Self, addr: BusAddr, value: u8) -> bool {
        *post == *self
    }

    fn write_byte(&mut self, addr: BusAddr, value: u8)
        ensures
            old(self).write_model(final(self), addr, value),
    {
    }
}

} // verus!
