use vstd::prelude::*;

verus! {

/// One volatile access to a memory-mapped device register.
///
/// Every interaction with live hardware state is one of these records; a
/// driver is specified by the exact sequence of records it emits. The shell
/// around the library performs each record as an actual volatile load or
/// store, in order, without elision.
#[allow(inconsistent_fields)]
#[derive(Debug, Clone, Copy, PartialEq, Eq, Structural)]
pub enum MmioOp {
    /// A volatile byte load, together with the value the device returned.
    ReadU8 { addr: usize, value: u8 },
    /// A volatile byte store.
    WriteU8 { addr: usize, value: u8 },
    /// A volatile 32-bit store.
    WriteU32 { addr: usize, value: u32 },
}

/// The device-access channel: records every volatile access a driver makes,
/// and yields scripted values for volatile loads.
///
/// `ops` is the trace so far, oldest first. `input` holds the bytes the
/// hardware will hand back on successive byte loads, starting at `cursor`;
/// once the script is exhausted, loads return zero.
pub struct MmioBus {
    pub ops: Vec<MmioOp>,
    pub input: Vec<u8>,
    pub cursor: usize,
}

impl MmioBus {
    /// The value the `k`-th next byte load will return.
    pub open spec fn nth_value(&self, k: nat) -> u8 {
        if self.cursor + k < self.input@.len() {
            self.input@[self.cursor + k]
        } else {
            0
        }
    }

    /// The cursor position after `k` further byte loads.
    pub open spec fn cursor_after(&self, k: nat) -> int {
        if self.cursor + k <= self.input@.len() {
            self.cursor + k
        } else if self.cursor < self.input@.len() {
            self.input@.len() as int
        } else {
            self.cursor as int
        }
    }

    /// A bus with an empty trace and no scripted input.
    pub fn new() -> (r: Self)
        ensures
            r.ops@ == Seq::<MmioOp>::empty(),
            r.input@ == Seq::<u8>::empty(),
            r.cursor == 0,
    {
        MmioBus { ops: Vec::new(), input: Vec::new(), cursor: 0 }
    }

    /// A bus whose byte loads will return the bytes of `input` in order.
    pub fn with_input(input: Vec<u8>) -> (r: Self)
        ensures
            r.ops@ == Seq::<MmioOp>::empty(),
            r.input@ == input@,
            r.cursor == 0,
    {
        MmioBus { ops: Vec::new(), input, cursor: 0 }
    }

    /// One volatile byte load from `addr`: returns the next scripted value
    /// and records the access.
    pub fn read_u8(&mut self, addr: usize) -> (v: u8)
        ensures
            v == old(self).nth_value(0),
            final(self).ops@ == old(self).ops@.push(MmioOp::ReadU8 { addr, value: v }),
            final(self).input@ == old(self).input@,
            final(self).cursor == old(self).cursor_after(1),
    {
        let v: u8 = if self.cursor < self.input.len() {
            let b: u8 = self.input[self.cursor];
            self.cursor = self.cursor + 1;
            b
        } else {
            0
        };
        self.ops.push(MmioOp::ReadU8 { addr, value: v });
        v
    }

    /// One volatile byte store to `addr`: records the access.
    pub fn write_u8(&mut self, addr: usize, value: u8)
        ensures
            final(self).ops@ == old(self).ops@.push(MmioOp::WriteU8 { addr, value }),
            final(self).input@ == old(self).input@,
            final(self).cursor == old(self).cursor,
    {
        self.ops.push(MmioOp::WriteU8 { addr, value });
    }

    /// One volatile 32-bit store to `addr`: records the access.
    pub fn write_u32(&mut self, addr: usize, value: u32)
        ensures
            final(self).ops@ == old(self).ops@.push(MmioOp::WriteU32 { addr, value }),
            final(self).input@ == old(self).input@,
            final(self).cursor == old(self).cursor,
    {
        self.ops.push(MmioOp::WriteU32 { addr, value });
    }
}

} // verus!
