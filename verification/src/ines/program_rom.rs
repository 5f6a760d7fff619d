use vstd::prelude::*;

use crate::bus::{BusAddr, ByteReadable};

verus! {

/// The flat program-byte array extracted from a cartridge image. Read-only;
/// the view is the byte contents.
pub struct ProgramROM {
    data: Vec<u8>,
}

impl View for ProgramROM {
    type V = Seq<u8>;

    closed spec fn view(&self) -> Seq<u8> {
        self.data@
    }
}

impl ProgramROM {
    pub fn new(data: &[u8]) -> (r: ProgramROM)
        ensures
            r@ == data@,
    {
        ProgramROM { data: vstd::slice::slice_to_vec(data) }
    }

    /// The image size in bytes; the bus uses it to pick the 16KB bank
    /// mirroring rule.
    pub fn len(&self) -> (r: usize)
        ensures
            r == self@.len(),
    {
        self.data.len()
    }
}

impl ByteReadable for ProgramROM {
    open spec fn read_model(&self, addr: BusAddr) -> u8 {
        crate::bus::spec_flat_read(self@, addr)
    }

    /// Reads the byte at a local offset the bus has already rebased; an
    /// offset past the end of the image reads as zero.
    fn read_byte(&self, addr: BusAddr) -> (r: u8)
        ensures
            r == self.read_model(addr),
    {
        if (addr as usize) < self.data.len() {
            self.data[addr as usize]
        } else {
            0
        }
    }
}

} // verus!
