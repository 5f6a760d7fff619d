use vstd::prelude::*;

use crate::bus::{BusAddr, ByteReadable, ByteWritable};

verus! {

pub const RAM_SIZE: usize = 0x800;

/// The console's 2KB work RAM. The view is the byte contents.
pub struct RAM {
    data: Vec<u8>,
}

impl View for RAM {
    type V = Seq<u8>;

    closed spec fn view(&self) -> Seq<u8> {
        self.data@
    }
}

impl RAM {
    /// Fresh RAM: `0x800` bytes, all zero.
    pub fn new() -> (r: RAM)
        ensures
            r@.len() == RAM_SIZE,
            forall|i: int| 0 <= i < r@.len() ==> r@[i] == 0,
    {
        let mut data: Vec<u8> = Vec::new();
        let mut i: usize = 0;
        while i < RAM_SIZE
            invariant
                i <= RAM_SIZE,
                data@.len() == i,
                forall|j: int| 0 <= j < i ==> data@[j] == 0,
            decreases RAM_SIZE - i,
        {
            data.push(0);
            i = i + 1;
        }
        RAM { data }
    }
}

impl ByteReadable for RAM {
    open spec fn read_model(&self, addr: BusAddr) -> u8 {
        crate::bus::spec_flat_read(self@, addr)
    }

    /// Reads the byte at a local offset the bus has already rebased; an
    /// offset past the end reads as zero.
    fn read_byte(&self, addr: BusAddr) -> (r: u8)
        ensures
            r == self.read_model(addr),
    {
        if (addr as usize) < self.data.len() {
            self.data[addr as usize]
        } else {
            0
        }
    }
}

impl ByteWritable for RAM {
    open spec fn write_model(&self, post: &Self, addr: BusAddr, value: u8) -> bool {
        post@ == if addr < self@.len() {
            self@.update(addr as int, value)
        } else {
            self@
        }
    }

    /// Writes the byte at a local offset the bus has already rebased; a
    /// write past the end is discarded.
    fn write_byte(&mut self, addr: BusAddr, value: u8)
        ensures
            old(self).write_model(final(self), addr, value),
    {
        if (addr as usize) < self.data.len() {
            self.data.set(addr as usize, value);
        }
    }
}

} // verus!
