use vstd::prelude::*;

verus! {

/// A byte-addressed 16-bit bus.
///
/// Every access may change the device behind the bus, so the trait describes
/// a bus as a state machine over an abstract `Model`: what a read returns in a
/// given state, and the state that a read or a write leaves behind.
pub trait Bus {
    /// The abstract state of the device behind the bus.
    type Model;

    /// The abstract state of this bus.
    spec fn model(&self) -> Self::Model;

    /// What the implementation needs to hold of itself between calls.
    spec fn wf(&self) -> bool;

    /// The byte that a read of `address` returns in state `m`.
    spec fn read_value(m: Self::Model, address: u16) -> u8;

    /// The state that a read of `address` in state `m` leaves behind.
    spec fn after_read(m: Self::Model, address: u16) -> Self::Model;

    /// The state that a write of `data` to `address` in state `m` leaves behind.
    spec fn after_write(m: Self::Model, address: u16, data: u8) -> Self::Model;

    fn read(&mut self, address: u16) -> (data: u8)
        requires
            old(self).wf(),
        ensures
            final(self).wf(),
            data == Self::read_value(old(self).model(), address),
            final(self).model() == Self::after_read(old(self).model(), address),
    ;

    fn write(&mut self, address: u16, data: u8)
        requires
            old(self).wf(),
        ensures
            final(self).wf(),
            final(self).model() == Self::after_write(old(self).model(), address, data),
    ;

    /// Looks at the byte a read of `address` would return, without touching
    /// the device.
    fn peek(&self, address: u16) -> (data: u8)
        requires
            self.wf(),
        ensures
            data == Self::read_value(self.model(), address),
    ;
}

/// How many addresses `start..=end` holds.
pub open spec fn range_len(start: u16, end: u16) -> nat {
    if start > end {
        0
    } else {
        (end - start + 1) as nat
    }
}

/// The state and the bytes after reading `count` consecutive addresses from
/// `start` upwards, starting in state `m`.
pub open spec fn reads_of<B: Bus>(m: B::Model, start: u16, count: nat) -> (B::Model, Seq<u8>)
    decreases count,
{
    if count == 0 {
        (m, Seq::empty())
    } else {
        let before = reads_of::<B>(m, start, (count - 1) as nat);
        let address = (start + count - 1) as u16;
        (B::after_read(before.0, address), before.1.push(B::read_value(before.0, address)))
    }
}

/// Reads the addresses `start..=end` in ascending order, one bus read each,
/// and returns the bytes in that order; nothing is read when `start > end`.
pub fn read_range<B: Bus>(bus: &mut B, start: u16, end: u16) -> (bytes: Vec<u8>)
    requires
        old(bus).wf(),
    ensures
        final(bus).wf(),
        bytes@ == reads_of::<B>(old(bus).model(), start, range_len(start, end)).1,
        final(bus).model() == reads_of::<B>(old(bus).model(), start, range_len(start, end)).0,
{
    let mut bytes: Vec<u8> = Vec::new();
    if start > end {
        return bytes;
    }
    let count: u32 = (end - start) as u32 + 1;
    let mut done: u32 = 0;
    while done < count
        invariant
            bus.wf(),
            start <= end,
            count == end - start + 1,
            done <= count,
            bytes@ == reads_of::<B>(old(bus).model(), start, done as nat).1,
            bus.model() == reads_of::<B>(old(bus).model(), start, done as nat).0,
        decreases count - done,
    {
        let address: u16 = (start as u32 + done) as u16;
        let data = bus.read(address);
        bytes.push(data);
        done = done + 1;
    }
    bytes
}

} // verus!
