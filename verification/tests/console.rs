use rvfw::device_tree::DeviceNode;
use rvfw::device_tree::DeviceTree;
use rvfw::device_tree::MemoryRegion;
use rvfw::device_tree::Register;
use rvfw::mmio::MmioBus;
use rvfw::mmio::MmioOp;
use rvfw::uart::Uart;
use rvfw::uart::data_ready;

const BASE: usize = 0x1000_0000;

fn console_uart() -> Uart {
    let tree = DeviceTree {
        nodes: vec![DeviceNode {
            compatible: vec!["ns16550a".to_string()],
            reg: vec![MemoryRegion { starting_address: BASE, size: Some(0x100) }],
        }],
    };
    let mut slot = Register::new();
    assert!(slot.find_compatible("ns16550a", &tree));
    Uart::new(&slot).unwrap()
}

#[test]
fn data_ready_tests_bit_zero() {
    assert!(!data_ready(0));
    assert!(data_ready(1));
    assert!(!data_ready(0xfe));
    assert!(data_ready(0xff));
}

#[test]
fn transmit_is_one_data_register_store() {
    let uart = console_uart();
    let mut bus = MmioBus::new();
    uart.write_byte(b'H', &mut bus);
    assert_eq!(bus.ops, vec![MmioOp::WriteU8 { addr: BASE, value: b'H' }]);
}

#[test]
fn receive_with_flag_clear_reads_no_data() {
    let uart = console_uart();
    let mut bus = MmioBus::with_input(vec![0x00]);
    assert_eq!(uart.read_byte(&mut bus), None);
    assert_eq!(bus.ops, vec![MmioOp::ReadU8 { addr: BASE + 5, value: 0x00 }]);
}

#[test]
fn receive_with_flag_set_reads_one_byte() {
    let uart = console_uart();
    let mut bus = MmioBus::with_input(vec![0x01, b'A']);
    assert_eq!(uart.read_byte(&mut bus), Some(b'A'));
    assert_eq!(
        bus.ops,
        vec![
            MmioOp::ReadU8 { addr: BASE + 5, value: 0x01 },
            MmioOp::ReadU8 { addr: BASE, value: b'A' },
        ],
    );
}

#[test]
fn receive_on_exhausted_script_sees_idle_device() {
    let uart = console_uart();
    let mut bus = MmioBus::new();
    assert_eq!(uart.read_byte(&mut bus), None);
    assert_eq!(bus.ops, vec![MmioOp::ReadU8 { addr: BASE + 5, value: 0 }]);
}

#[test]
fn write_str_transmits_bytes_in_order() {
    let uart = console_uart();
    let mut bus = MmioBus::new();
    uart.write_str("Hi\n", &mut bus);
    assert_eq!(
        bus.ops,
        vec![
            MmioOp::WriteU8 { addr: BASE, value: b'H' },
            MmioOp::WriteU8 { addr: BASE, value: b'i' },
            MmioOp::WriteU8 { addr: BASE, value: b'\n' },
        ],
    );
}

#[test]
fn write_str_performs_no_line_ending_translation() {
    let uart = console_uart();
    let mut bus = MmioBus::new();
    uart.write_str("\r", &mut bus);
    assert_eq!(bus.ops, vec![MmioOp::WriteU8 { addr: BASE, value: b'\r' }]);
}
