//! Address map, device register offsets and interrupt request numbers.

use vstd::prelude::*;

verus! {

// DRAM
pub const DRAM_SIZE: u64 = 1024 * 1024 * 128;
pub const DRAM_BASE: u64 = 0x8000_0000;
/// Last byte address of DRAM (inclusive).
pub const DRAM_END: u64 = DRAM_SIZE + DRAM_BASE - 1;

/// Loaded code placed in `[LOW_BASE, LOW_END)` is reached through DRAM at
/// `addr + DRAM_BASE`.
pub const LOW_BASE: u64 = 0x1000;
pub const LOW_END: u64 = 0xFFFF;

// CLINT
pub const CLINT_BASE: u64 = 0x200_0000;
pub const CLINT_SIZE: u64 = 0x10000;
pub const CLINT_END: u64 = CLINT_BASE + CLINT_SIZE - 1;
pub const CLINT_MTIMECMP: u64 = CLINT_BASE + 0x4000;
pub const CLINT_MTIME: u64 = CLINT_BASE + 0xbff8;

// PLIC
pub const PLIC_BASE: u64 = 0xc00_0000;
pub const PLIC_SIZE: u64 = 0x400_0000;
pub const PLIC_END: u64 = PLIC_BASE + PLIC_SIZE - 1;
pub const PLIC_PENDING: u64 = PLIC_BASE + 0x1000;
pub const PLIC_SENABLE: u64 = PLIC_BASE + 0x2080;
pub const PLIC_SPRIORITY: u64 = PLIC_BASE + 0x20_1000;
pub const PLIC_SCLAIM: u64 = PLIC_BASE + 0x20_1004;

// UART
pub const UART_BASE: u64 = 0x1000_0000;
pub const UART_SIZE: u64 = 0x100;
/// Last byte address of the UART window (inclusive).
pub const UART_END: u64 = UART_BASE + UART_SIZE - 1;
/// UART interrupt request number.
pub const UART_IRQ: u64 = 10;
/// Receive holding register (input bytes).
pub const UART_RHR: u64 = 0;
/// Transmit holding register (output bytes).
pub const UART_THR: u64 = 0;
/// Line control register.
pub const UART_LCR: u64 = 3;
/// Line status register. Bit 0: a received byte waits in RHR.
/// Bit 5: the transmitter is empty and takes the next byte.
pub const UART_LSR: u64 = 5;
/// The receiver (RX) bit of LSR.
pub const MASK_UART_LSR_RX: u8 = 1;
/// The transmitter (TX) bit of LSR.
pub const MASK_UART_LSR_TX: u8 = 0x20;

// VIRTIO
pub const VIRTIO_BASE: u64 = 0x1000_1000;
pub const VIRTIO_SIZE: u64 = 0x1000;
pub const VIRTIO_END: u64 = VIRTIO_BASE + VIRTIO_SIZE - 1;
/// Virtio interrupt request number.
pub const VIRTIO_IRQ: u64 = 1;
pub const VIRTIO_MAGIC: u64 = VIRTIO_BASE + 0x000;
pub const VIRTIO_VERSION: u64 = VIRTIO_BASE + 0x004;
pub const VIRTIO_DEVICE_ID: u64 = VIRTIO_BASE + 0x008;
pub const VIRTIO_VENDOR_ID: u64 = VIRTIO_BASE + 0x00c;
pub const VIRTIO_DEVICE_FEATURES: u64 = VIRTIO_BASE + 0x010;
pub const VIRTIO_DRIVER_FEATURES: u64 = VIRTIO_BASE + 0x020;
pub const VIRTIO_GUEST_PAGE_SIZE: u64 = VIRTIO_BASE + 0x028;
pub const VIRTIO_QUEUE_SEL: u64 = VIRTIO_BASE + 0x030;
pub const VIRTIO_QUEUE_NUM_MAX: u64 = VIRTIO_BASE + 0x034;
pub const VIRTIO_QUEUE_NUM: u64 = VIRTIO_BASE + 0x038;
pub const VIRTIO_QUEUE_PFN: u64 = VIRTIO_BASE + 0x040;
pub const VIRTIO_QUEUE_NOTIFY: u64 = VIRTIO_BASE + 0x050;
pub const VIRTIO_STATUS: u64 = VIRTIO_BASE + 0x070;
/// Number of entries of the single virtqueue.
pub const DESC_NUM: u64 = 8;
/// Size in bytes of one virtqueue descriptor.
pub const DESC_SIZE: u64 = 16;
pub const VIRTIO_BLK_T_IN: u64 = 0;
pub const VIRTIO_BLK_T_OUT: u64 = 1;
pub const SECTOR_SIZE: u64 = 512;
pub const PAGE_SIZE: u64 = 4096;

} // verus!
