//! Register-level logic of the firmware of the small RISC-V core of the Duo 256:
//! the PLIC, CLINT timer, GPIO, pin multiplexer and mailbox drivers, trap
//! classification and the mailbox message queue.
//!
//! Every operation on a device is described here as plain data (`mmio::RegAccess`,
//! `mmio::ByteAccess`, `mmio::BitTest`, `csr::CsrOp`): which register is read or
//! written, and with which value.  The program that runs on the hardware carries
//! out those accesses; what they mean is stated and proved here.
pub mod config;
pub mod mmio;
pub mod csr;
pub mod arch;
pub mod common;
pub mod device;
pub mod res_table;
