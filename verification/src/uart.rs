use vstd::prelude::*;
use vstd::string::StringSliceAdditionalSpecFns;

use crate::device_tree::Register;
use crate::mmio::MmioBus;
use crate::mmio::MmioOp;

verus! {

/// Byte offset of the "data ready" flag register from the serial
/// controller's base: offset 5, bit 0, read-only, polled.
pub const LINE_STATUS_OFFSET: usize = 5;

/// Whether a line-status byte reports a received byte waiting: its
/// lowest bit is set.
pub open spec fn data_ready_spec(flag: u8) -> bool {
    flag % 2 == 1
}

/// Decides from a line-status byte whether the data register holds a
/// received byte: tests bit 0.
pub fn data_ready(flag: u8) -> (r: bool)
    ensures
        r == data_ready_spec(flag),
{
    proof {
        assert((flag & 1 != 0) == (flag % 2 == 1)) by (bit_vector);
    }
    flag & 1 != 0
}

/// The volatile byte stores that transmitting `bytes` through the data
/// register at `addr` performs, in order.
pub open spec fn byte_writes(addr: usize, bytes: Seq<u8>) -> Seq<MmioOp> {
    Seq::new(bytes.len(), |i: int| MmioOp::WriteU8 { addr, value: bytes[i] })
}

/// A handle on the serial controller: the validated base address of its
/// register window. Obtainable only from a bound register slot.
#[derive(Debug, Clone, Copy)]
pub struct Uart {
    base: usize,
}

impl Uart {
    /// The base address of the controller's register window.
    pub closed spec fn base(&self) -> usize {
        self.base
    }

    /// Builds a console handle from the register slot: nothing when the
    /// slot is unbound, so an unbound slot is never dereferenced.
    pub fn new(reg: &Register) -> (r: Option<Uart>)
        ensures
            r is Some <==> reg.bound() is Some,
            r is Some ==> r->0.base() == reg.bound()->0,
    {
        match reg.cast() {
            Some(base) => Some(Uart { base }),
            None => None,
        }
    }

    /// Transmits one byte: exactly one volatile store to the data
    /// register. The device model has no backpressure, so the controller
    /// is assumed ready to accept the byte.
    pub fn write_byte(&self, byte: u8, bus: &mut MmioBus)
        ensures
            final(bus).ops@ == old(bus).ops@.push(
                MmioOp::WriteU8 { addr: self.base(), value: byte },
            ),
            final(bus).input@ == old(bus).input@,
            final(bus).cursor == old(bus).cursor,
    {
        bus.write_u8(self.base, byte);
    }

    /// Non-blocking receive: polls the "data ready" flag once; when it is
    /// clear, returns nothing without touching the data register; when it
    /// is set, reads the data register exactly once, without re-checking
    /// the flag, and returns that byte.
    pub fn read_byte(&self, bus: &mut MmioBus) -> (r: Option<u8>)
        requires
            self.base() + LINE_STATUS_OFFSET <= usize::MAX,
        ensures
            ({
                let flag = old(bus).nth_value(0);
                if data_ready_spec(flag) {
                    &&& r == Some(old(bus).nth_value(1))
                    &&& final(bus).ops@ == old(bus).ops@ + seq![
                        MmioOp::ReadU8 { addr: (self.base() + LINE_STATUS_OFFSET) as usize, value: flag },
                        MmioOp::ReadU8 { addr: self.base(), value: old(bus).nth_value(1) },
                    ]
                    &&& final(bus).cursor == old(bus).cursor_after(2)
                } else {
                    &&& r is None
                    &&& final(bus).ops@ == old(bus).ops@.push(
                        MmioOp::ReadU8 { addr: (self.base() + LINE_STATUS_OFFSET) as usize, value: flag },
                    )
                    &&& final(bus).cursor == old(bus).cursor_after(1)
                }
            }),
            final(bus).input@ == old(bus).input@,
    {
        let flag = bus.read_u8(self.base + LINE_STATUS_OFFSET);
        if data_ready(flag) {
            Some(bus.read_u8(self.base))
        } else {
            None
        }
    }

    /// Transmits the bytes of `s` in order, one volatile store each, with
    /// no line-ending translation.
    pub fn write_str(&self, s: &str, bus: &mut MmioBus)
        ensures
            final(bus).ops@ == old(bus).ops@ + byte_writes(self.base(), s.spec_bytes()),
            final(bus).input@ == old(bus).input@,
            final(bus).cursor == old(bus).cursor,
    {
        let bytes: &[u8] = s.as_bytes();
        let n: usize = bytes.len();
        let mut i: usize = 0;
        while i < n
            invariant
                n == bytes@.len(),
                0 <= i <= n,
                bytes@ == s.spec_bytes(),
                bus.ops@ == old(bus).ops@ + byte_writes(self.base(), bytes@.take(i as int)),
                bus.input@ == old(bus).input@,
                bus.cursor == old(bus).cursor,
            decreases n - i,
        {
            self.write_byte(bytes[i], bus);
            proof {
                assert(bytes@.take(i + 1) == bytes@.take(i as int).push(bytes@[i as int]));
                assert(byte_writes(self.base(), bytes@.take(i + 1)) =~= byte_writes(
                    self.base(),
                    bytes@.take(i as int),
                ).push(MmioOp::WriteU8 { addr: self.base(), value: bytes@[i as int] }));
            }
            i = i + 1;
        }
        proof {
            assert(bytes@.take(n as int) =~= bytes@);
        }
    }
}

} // verus!
