//! A bus that keeps a record of the accesses made through it, to make them
//! once more later.

use vstd::prelude::*;
use crate::addressable::{
    read8_pure,
    read8_side_effects,
    spec_read8_side_effects,
    Address,
    Addressable,
    CartridgeAddressable,
    Result,
};
use crate::cpu_memory_layout::{CpuBusState, NesCpuMemoryLayout};

verus! {

/// A write that was asked for.
#[derive(Debug, Clone, Copy, PartialEq, Eq)]
pub struct MemoryWrite {
    pub address: Address,
    pub data: u8,
}

/// A small bus together with the reads that were made through it and the
/// writes that were asked of it.
pub struct NesCpuMemoryLayoutBuffer<C: CartridgeAddressable> {
    pub memory: NesCpuMemoryLayout<C>,
    pub writes: Vec<MemoryWrite>,
    pub reads: Vec<Address>,
}

/// The bus and the two records.
pub struct BufferState<S> {
    pub memory: CpuBusState<S>,
    /// The writes that wait, oldest first.
    pub writes: Seq<MemoryWrite>,
    /// The addresses that were read, oldest first.
    pub reads: Seq<Address>,
}

impl<C: CartridgeAddressable> View for NesCpuMemoryLayoutBuffer<C> {
    type V = BufferState<C::V>;

    open spec fn view(&self) -> BufferState<C::V> {
        BufferState { memory: self.memory@, writes: self.writes@, reads: self.reads@ }
    }
}

impl<C: CartridgeAddressable> NesCpuMemoryLayoutBuffer<C> {
    pub fn new(memory: NesCpuMemoryLayout<C>, writes: Vec<MemoryWrite>, reads: Vec<Address>) -> (r:
        Self)
        ensures
            r.memory == memory,
            r.writes == writes,
            r.reads == reads,
    {
        NesCpuMemoryLayoutBuffer { memory, writes, reads }
    }

    /// The bus after the recorded reads from number `from` on have been made
    /// once more, in order, or the first refusal.
    pub open spec fn spec_replay_reads(
        memory: CpuBusState<C::V>,
        reads: Seq<Address>,
        from: int,
    ) -> (Result<()>, CpuBusState<C::V>)
        decreases reads.len() - from,
    {
        if from >= reads.len() || from < 0 {
            (Ok(()), memory)
        } else {
            let read = spec_read8_side_effects::<NesCpuMemoryLayout<C>>(memory, reads[from]);
            if read.0 is Err {
                read
            } else {
                Self::spec_replay_reads(read.1, reads, from + 1)
            }
        }
    }

    /// The bus after the waiting writes from number `from` on have been made,
    /// in order, or the first refusal.
    pub open spec fn spec_replay_writes(
        memory: CpuBusState<C::V>,
        writes: Seq<MemoryWrite>,
        from: int,
    ) -> (Result<()>, CpuBusState<C::V>)
        decreases writes.len() - from,
    {
        if from >= writes.len() || from < 0 {
            (Ok(()), memory)
        } else {
            let written = NesCpuMemoryLayout::<C>::spec_write8(
                memory,
                writes[from].address,
                writes[from].data,
            );
            if written.0 is Err {
                written
            } else {
                Self::spec_replay_writes(written.1, writes, from + 1)
            }
        }
    }

    /// Applying the records: the reads are made once more, then the writes
    /// are made. The record of reads is empty afterwards; so is the record of
    /// writes unless a read was refused.
    pub open spec fn spec_apply(s: BufferState<C::V>) -> (Result<()>, BufferState<C::V>) {
        let read = Self::spec_replay_reads(s.memory, s.reads, 0);
        if read.0 is Err {
            (read.0, BufferState { memory: read.1, writes: s.writes, reads: Seq::empty() })
        } else {
            let written = Self::spec_replay_writes(read.1, s.writes, 0);
            (
                written.0,
                BufferState { memory: written.1, writes: Seq::empty(), reads: Seq::empty() },
            )
        }
    }

    fn replay_reads(&mut self) -> (r: Result<()>)
        ensures
            (r, final(self).memory@) == Self::spec_replay_reads(
                old(self).memory@,
                old(self).reads@,
                0,
            ),
            final(self).writes == old(self).writes,
            final(self).reads == old(self).reads,
    {
        let mut done: usize = 0;
        while done < self.reads.len()
            invariant
                done <= self.reads.len(),
                self.writes == old(self).writes,
                self.reads == old(self).reads,
                Self::spec_replay_reads(self.memory@, self.reads@, done as int)
                    == Self::spec_replay_reads(old(self).memory@, old(self).reads@, 0),
            decreases self.reads.len() - done,
        {
            let address = self.reads[done];
            read8_side_effects(&mut self.memory, address)?;
            done += 1;
        }
        Ok(())
    }

    fn replay_writes(&mut self) -> (r: Result<()>)
        ensures
            (r, final(self).memory@) == Self::spec_replay_writes(
                old(self).memory@,
                old(self).writes@,
                0,
            ),
            final(self).writes == old(self).writes,
            final(self).reads == old(self).reads,
    {
        let mut done: usize = 0;
        while done < self.writes.len()
            invariant
                done <= self.writes.len(),
                self.writes == old(self).writes,
                self.reads == old(self).reads,
                Self::spec_replay_writes(self.memory@, self.writes@, done as int)
                    == Self::spec_replay_writes(old(self).memory@, old(self).writes@, 0),
            decreases self.writes.len() - done,
        {
            let write = self.writes[done];
            self.memory.write8(write.address, write.data)?;
            done += 1;
        }
        Ok(())
    }

    /// Makes the recorded reads once more and the waiting writes for the
    /// first time, and empties the records.
    pub fn apply(&mut self) -> (r: Result<()>)
        ensures
            (r, final(self)@) == Self::spec_apply(old(self)@),
    {
        let read = self.replay_reads();
        self.reads.clear();
        read?;
        let written = self.replay_writes();
        self.writes.clear();
        written
    }
}

impl<C: CartridgeAddressable> Addressable for NesCpuMemoryLayoutBuffer<C> {
    /// A read is served by the bus and recorded.
    open spec fn spec_read8(s: BufferState<C::V>, address: Address) -> (
        Result<u8>,
        BufferState<C::V>,
    ) {
        let read = NesCpuMemoryLayout::<C>::spec_read8(s.memory, address);
        (read.0, BufferState { memory: read.1, reads: s.reads.push(address), ..s })
    }

    /// A write is not made but recorded.
    open spec fn spec_write8(s: BufferState<C::V>, address: Address, data: u8) -> (
        Result<()>,
        BufferState<C::V>,
    ) {
        (Ok(()), BufferState { writes: s.writes.push(MemoryWrite { address, data }), ..s })
    }

    fn write8(&mut self, address: Address, data: u8) -> (r: Result<()>) {
        self.writes.push(MemoryWrite { address: address, data: data });
        Ok(())
    }

    fn read8(&mut self, address: Address) -> (r: Result<u8>) {
        self.reads.push(address);
        read8_pure(&mut self.memory, address)
    }
}

} // verus!
