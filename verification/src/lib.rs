//! Firmware core for a virtual RISC-V machine: hardware discovery over a
//! parsed device description, register binding, a polling serial console,
//! the machine-exit protocol, and the framebuffer configuration protocol.
//!
//! Device registers are reached only through explicit volatile-access
//! records (see [`mmio`]); the drivers are specified by the exact access
//! sequences they emit.

pub mod boot;
pub mod device_tree;
pub mod mmio;
pub mod ramfb;
pub mod test_finisher;
pub mod uart;
