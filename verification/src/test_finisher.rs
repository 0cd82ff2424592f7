use vstd::prelude::*;

use crate::device_tree::Register;
use crate::mmio::MmioBus;
use crate::mmio::MmioOp;

verus! {

/// The signature the machine-exit device expects in the low half of the
/// written register value.
pub const EXIT_SIGNATURE: u32 = 0x3333;

/// The 32-bit register value that terminates the virtual machine with
/// `exit_code`: the code in the upper half, the fixed signature in the
/// lower. Code zero signals success, any other code failure.
pub open spec fn exit_value_spec(exit_code: u16) -> u32 {
    ((exit_code as u32) << 16) | 0x3333
}

/// Computes the value written to the machine-exit device for `exit_code`.
pub fn exit_value(exit_code: u16) -> (r: u32)
    ensures
        r == exit_value_spec(exit_code),
{
    ((exit_code as u32) << 16) | EXIT_SIGNATURE
}

/// The volatile stores that signalling exit through a slot bound to
/// `bound` performs: one 32-bit store of the exit value when the device
/// is bound, none at all when it is not.
pub open spec fn shutdown_writes(bound: Option<usize>, exit_code: u16) -> Seq<MmioOp> {
    match bound {
        Option::Some(addr) => seq![MmioOp::WriteU32 { addr, value: exit_value_spec(exit_code) }],
        Option::None => Seq::empty(),
    }
}

/// Signals the virtual machine to terminate with `exit_code` through the
/// bound exit device: exactly one volatile 32-bit store of the exit value
/// to the bound address, or no store at all while the slot is unbound.
///
/// The operation is terminal by contract: after the store nothing further
/// may run, so the shell parks execution in an infinite loop whether or
/// not the store was honoured.
pub fn qemu_shutdown(reg: &Register, exit_code: u16, bus: &mut MmioBus)
    ensures
        final(bus).ops@ == old(bus).ops@ + shutdown_writes(reg.bound(), exit_code),
        final(bus).input@ == old(bus).input@,
        final(bus).cursor == old(bus).cursor,
{
    match reg.cast() {
        Some(addr) => {
            bus.write_u32(addr, exit_value(exit_code));
            proof {
                assert(old(bus).ops@.push(
                    MmioOp::WriteU32 { addr, value: exit_value_spec(exit_code) },
                ) =~= old(bus).ops@ + shutdown_writes(reg.bound(), exit_code));
            }
        },
        None => {
            proof {
                assert(old(bus).ops@ =~= old(bus).ops@ + shutdown_writes(reg.bound(), exit_code));
            }
        },
    }
}

} // verus!
