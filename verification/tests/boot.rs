use rvfw::boot::EOT;
use rvfw::boot::ETX;
use rvfw::boot::boot_sequence;
use rvfw::boot::echo_byte;
use rvfw::boot::fatal_error;
use rvfw::device_tree::DeviceNode;
use rvfw::device_tree::DeviceTree;
use rvfw::device_tree::MemoryRegion;
use rvfw::device_tree::Register;
use rvfw::mmio::MmioBus;
use rvfw::mmio::MmioOp;
use rvfw::uart::Uart;

const CONSOLE_BASE: usize = 0x1000_0000;
const EXIT_BASE: usize = 0x10_0000;

fn serial_node() -> DeviceNode {
    DeviceNode {
        compatible: vec!["ns16550a".to_string()],
        reg: vec![MemoryRegion { starting_address: CONSOLE_BASE, size: Some(0x100) }],
    }
}

fn exit_node() -> DeviceNode {
    DeviceNode {
        compatible: vec!["sifive,test0".to_string()],
        reg: vec![MemoryRegion { starting_address: EXIT_BASE, size: Some(0x1000) }],
    }
}

fn console_uart() -> Uart {
    let tree = DeviceTree { nodes: vec![serial_node()] };
    let mut slot = Register::new();
    assert!(slot.find_compatible("ns16550a", &tree));
    Uart::new(&slot).unwrap()
}

#[test]
fn boot_emits_greeting_then_one_success_exit_write() {
    let tree = DeviceTree { nodes: vec![serial_node(), exit_node()] };
    let mut bus = MmioBus::new();
    let greeting = "Hello from Rust RISC-V!\n";
    assert!(boot_sequence(&tree, greeting, &mut bus));

    let mut expected: Vec<MmioOp> = greeting
        .bytes()
        .map(|b| MmioOp::WriteU8 { addr: CONSOLE_BASE, value: b })
        .collect();
    expected.push(MmioOp::WriteU32 { addr: EXIT_BASE, value: 0x0000_3333 });
    assert_eq!(bus.ops, expected);
}

#[test]
fn boot_without_console_signals_failure_exit_silently() {
    let tree = DeviceTree { nodes: vec![exit_node()] };
    let mut bus = MmioBus::new();
    assert!(!boot_sequence(&tree, "hello", &mut bus));
    assert_eq!(bus.ops, vec![MmioOp::WriteU32 { addr: EXIT_BASE, value: 0x0001_3333 }]);
}

#[test]
fn boot_without_exit_device_reports_on_console_only() {
    let tree = DeviceTree { nodes: vec![serial_node()] };
    let mut bus = MmioBus::new();
    assert!(!boot_sequence(&tree, "hello", &mut bus));
    let expected: Vec<MmioOp> = "boot: a mandatory device is missing\n"
        .bytes()
        .map(|b| MmioOp::WriteU8 { addr: CONSOLE_BASE, value: b })
        .collect();
    assert_eq!(bus.ops, expected);
}

#[test]
fn fatal_error_writes_diagnostic_then_failure_exit() {
    let console_tree = DeviceTree { nodes: vec![serial_node()] };
    let mut console_slot = Register::new();
    assert!(console_slot.find_compatible("ns16550a", &console_tree));
    let exit_tree = DeviceTree { nodes: vec![exit_node()] };
    let mut exit_slot = Register::new();
    assert!(exit_slot.find_compatible("sifive,test0", &exit_tree));

    let mut bus = MmioBus::new();
    fatal_error(&console_slot, &exit_slot, "oops", &mut bus);
    let mut expected: Vec<MmioOp> = "oops"
        .bytes()
        .map(|b| MmioOp::WriteU8 { addr: CONSOLE_BASE, value: b })
        .collect();
    expected.push(MmioOp::WriteU32 { addr: EXIT_BASE, value: 0x0001_3333 });
    assert_eq!(bus.ops, expected);
}

#[test]
fn echo_forwards_ordinary_bytes() {
    let uart = console_uart();
    let mut bus = MmioBus::new();
    assert!(echo_byte(&uart, b'x', &mut bus));
    assert_eq!(bus.ops, vec![MmioOp::WriteU8 { addr: CONSOLE_BASE, value: b'x' }]);
}

#[test]
fn echo_translates_carriage_return() {
    let uart = console_uart();
    let mut bus = MmioBus::new();
    assert!(echo_byte(&uart, b'\r', &mut bus));
    assert_eq!(
        bus.ops,
        vec![
            MmioOp::WriteU8 { addr: CONSOLE_BASE, value: b'\r' },
            MmioOp::WriteU8 { addr: CONSOLE_BASE, value: b'\n' },
        ],
    );
}

#[test]
fn echo_stops_on_control_bytes_without_echo() {
    let uart = console_uart();
    let mut bus = MmioBus::new();
    assert!(!echo_byte(&uart, ETX, &mut bus));
    assert!(!echo_byte(&uart, EOT, &mut bus));
    assert!(bus.ops.is_empty());
}
