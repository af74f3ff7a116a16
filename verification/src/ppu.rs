use crate::bus::Bus;
use vstd::prelude::*;

verus! {

/// The picture processing unit, as far as the processor's bus needs it: a
/// register window behind which nothing happens yet.
#[derive(Debug, Clone)]
pub struct Ppu<B: Bus> {
    pub bus: B,
}

impl<B: Bus> Ppu<B> {
    pub fn new(bus: B) -> (ppu: Ppu<B>)
        ensures
            ppu.bus == bus,
    {
        Ppu { bus }
    }

    pub fn reset(&mut self)
        ensures
            *final(self) == *old(self),
    {
    }

    pub fn step(&mut self)
        ensures
            *final(self) == *old(self),
    {
    }

    /// Reads a register: every register reads 0.
    pub fn read(&mut self, address: u16) -> (data: u8)
        ensures
            data == 0,
            *final(self) == *old(self),
    {
        0
    }

    /// Writes a register: the byte is dropped.
    pub fn write(&mut self, address: u16, data: u8)
        ensures
            *final(self) == *old(self),
    {
    }
}

} // verus!
