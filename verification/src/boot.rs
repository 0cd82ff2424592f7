use vstd::prelude::*;
use vstd::string::StringSliceAdditionalSpecFns;

use crate::device_tree::DeviceTree;
use crate::device_tree::Register;
use crate::device_tree::resolved_addr;
use crate::mmio::MmioBus;
use crate::mmio::MmioOp;
use crate::test_finisher::qemu_shutdown;
use crate::test_finisher::shutdown_writes;
use crate::uart::Uart;
use crate::uart::byte_writes;

verus! {

/// End-of-text control byte (interrupt): stops the echo loop.
pub const ETX: u8 = 0x03;

/// End-of-transmission control byte: stops the echo loop.
pub const EOT: u8 = 0x04;

/// The volatile stores that the unrecoverable-fault handler performs: the
/// diagnostic bytes to the console when one is bound (skipped silently
/// otherwise), then the exit signal with a nonzero code through the exit
/// slot, when that is bound.
pub open spec fn fault_writes(console: Option<usize>, exit: Option<usize>, msg: Seq<u8>) -> Seq<
    MmioOp,
> {
    (match console {
        Option::Some(addr) => byte_writes(addr, msg),
        Option::None => Seq::empty(),
    }) + shutdown_writes(exit, 1)
}

/// The single funnel for unrecoverable faults: best-effort diagnostic to
/// the console if one is bound, then the exit signal with a nonzero code.
/// There is no secondary reporting channel and no retry; the shell parks
/// execution afterwards.
pub fn fatal_error(console: &Register, exit: &Register, msg: &str, bus: &mut MmioBus)
    ensures
        final(bus).ops@ == old(bus).ops@ + fault_writes(
            console.bound(),
            exit.bound(),
            msg.spec_bytes(),
        ),
        final(bus).input@ == old(bus).input@,
        final(bus).cursor == old(bus).cursor,
{
    match Uart::new(console) {
        Some(uart) => uart.write_str(msg, bus),
        None => (),
    }
    qemu_shutdown(exit, 1, bus);
    proof {
        assert(bus.ops@ =~= old(bus).ops@ + fault_writes(
            console.bound(),
            exit.bound(),
            msg.spec_bytes(),
        ));
    }
}

/// The volatile stores that echoing one received byte performs: nothing
/// for a stop byte; the byte itself otherwise, with a carriage return
/// echoed as carriage-return-plus-linefeed.
pub open spec fn echo_writes(base: usize, byte: u8) -> Seq<MmioOp> {
    if byte == ETX || byte == EOT {
        Seq::empty()
    } else if byte == 0x0d {
        seq![
            MmioOp::WriteU8 { addr: base, value: byte },
            MmioOp::WriteU8 { addr: base, value: 0x0a },
        ]
    } else {
        seq![MmioOp::WriteU8 { addr: base, value: byte }]
    }
}

/// One step of the line-editing echo loop: echoes the received byte
/// (translating a carriage return to carriage-return-plus-linefeed) and
/// says whether the loop goes on. An end-of-transmission or interrupt
/// byte stops it without an echo.
pub fn echo_byte(uart: &Uart, byte: u8, bus: &mut MmioBus) -> (cont: bool)
    ensures
        cont == !(byte == ETX || byte == EOT),
        final(bus).ops@ == old(bus).ops@ + echo_writes(uart.base(), byte),
        final(bus).input@ == old(bus).input@,
        final(bus).cursor == old(bus).cursor,
{
    if byte == ETX || byte == EOT {
        proof {
            assert(old(bus).ops@ =~= old(bus).ops@ + echo_writes(uart.base(), byte));
        }
        return false;
    }
    uart.write_byte(byte, bus);
    if byte == 0x0d {
        uart.write_byte(0x0a, bus);
    }
    proof {
        assert(bus.ops@ =~= old(bus).ops@ + echo_writes(uart.base(), byte));
    }
    true
}

/// The volatile stores of a successful boot: the greeting's bytes in
/// order through the console's data register, then exactly one exit-device
/// store signalling success.
pub open spec fn boot_writes(console: usize, exit: usize, greeting: Seq<u8>) -> Seq<MmioOp> {
    byte_writes(console, greeting) + seq![
        MmioOp::WriteU32 { addr: exit, value: 0x3333u32 },
    ]
}

/// The boot sequence over the mandatory devices: binds the console and
/// the exit device from the description, transmits the greeting
/// byte-by-byte, and signals a successful exit. When either mandatory
/// device is missing, that is an unrecoverable fault: the diagnostic goes
/// to whichever console could be bound, the exit signal carries a nonzero
/// code, and the sequence reports failure.
pub fn boot_sequence(fdt: &DeviceTree, greeting: &str, bus: &mut MmioBus) -> (ok: bool)
    ensures
        ok == (resolved_addr(*fdt, "ns16550a"@) is Some && resolved_addr(
            *fdt,
            "sifive,test0"@,
        ) is Some),
        ok ==> final(bus).ops@ == old(bus).ops@ + boot_writes(
            resolved_addr(*fdt, "ns16550a"@)->0,
            resolved_addr(*fdt, "sifive,test0"@)->0,
            greeting.spec_bytes(),
        ),
        !ok ==> final(bus).ops@ == old(bus).ops@ + fault_writes(
            resolved_addr(*fdt, "ns16550a"@),
            resolved_addr(*fdt, "sifive,test0"@),
            "boot: a mandatory device is missing\n".spec_bytes(),
        ),
        final(bus).input@ == old(bus).input@,
        final(bus).cursor == old(bus).cursor,
{
    let mut console_reg = Register::new();
    let mut exit_reg = Register::new();
    let console_ok = console_reg.find_compatible("ns16550a", fdt);
    let exit_ok = exit_reg.find_compatible("sifive,test0", fdt);
    if !(console_ok && exit_ok) {
        fatal_error(&console_reg, &exit_reg, "boot: a mandatory device is missing\n", bus);
        return false;
    }
    let uart = Uart::new(&console_reg).unwrap();
    uart.write_str(greeting, bus);
    qemu_shutdown(&exit_reg, 0, bus);
    proof {
        assert((((0u16 as u32) << 16) | 0x3333u32) == 0x3333u32) by (bit_vector);
        assert(bus.ops@ =~= old(bus).ops@ + boot_writes(
            resolved_addr(*fdt, "ns16550a"@)->0,
            resolved_addr(*fdt, "sifive,test0"@)->0,
            greeting.spec_bytes(),
        ));
    }
    true
}

} // verus!
