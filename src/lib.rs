//! A single-hart RV64IMA interpreter: memory bus, devices, control and
//! status registers, Sv39 translation and the trap pipeline.

pub mod param;
pub mod exception;
pub mod dram;
pub mod clint;
pub mod plic;
pub mod uart;
pub mod virtio;
pub mod bus;
pub mod csr;
pub mod alu;
pub mod decode;
pub mod interrupt;
pub mod cpu;
pub mod execute;
pub mod disk;
pub mod trap;
pub mod step;
pub mod inspect;
