use rvfw::device_tree::DeviceNode;
use rvfw::device_tree::DeviceTree;
use rvfw::device_tree::MemoryRegion;
use rvfw::device_tree::Register;
use rvfw::mmio::MmioBus;
use rvfw::mmio::MmioOp;
use rvfw::test_finisher::exit_value;
use rvfw::test_finisher::qemu_shutdown;

const EXIT_BASE: usize = 0x10_0000;

fn bound_exit_register() -> Register {
    let tree = DeviceTree {
        nodes: vec![DeviceNode {
            compatible: vec!["sifive,test0".to_string()],
            reg: vec![MemoryRegion { starting_address: EXIT_BASE, size: Some(0x1000) }],
        }],
    };
    let mut slot = Register::new();
    assert!(slot.find_compatible("sifive,test0", &tree));
    slot
}

#[test]
fn exit_value_puts_code_above_signature() {
    assert_eq!(exit_value(0), 0x0000_3333);
    assert_eq!(exit_value(5), 0x0005_3333);
    assert_eq!(exit_value(1), 0x0001_3333);
    assert_eq!(exit_value(0xffff), 0xffff_3333);
}

#[test]
fn shutdown_writes_exit_value_once() {
    let slot = bound_exit_register();
    let mut bus = MmioBus::new();
    qemu_shutdown(&slot, 5, &mut bus);
    assert_eq!(bus.ops, vec![MmioOp::WriteU32 { addr: EXIT_BASE, value: 0x0005_3333 }]);
}

#[test]
fn shutdown_with_code_zero_writes_signature_only() {
    let slot = bound_exit_register();
    let mut bus = MmioBus::new();
    qemu_shutdown(&slot, 0, &mut bus);
    assert_eq!(bus.ops, vec![MmioOp::WriteU32 { addr: EXIT_BASE, value: 0x0000_3333 }]);
}

#[test]
fn shutdown_on_unbound_slot_touches_no_register() {
    let slot = Register::new();
    let mut bus = MmioBus::new();
    qemu_shutdown(&slot, 7, &mut bus);
    assert!(bus.ops.is_empty());
}
