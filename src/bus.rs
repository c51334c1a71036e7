//! The memory bus: routes each access by address to DRAM or a device.

use vstd::prelude::*;
use crate::clint::Clint;
use crate::dram::{
    dram_access_ok, dram_load, dram_store, dram_store_result, le_bytes, lemma_le_round_trip,
    lemma_le_value_bound, pow256, Dram,
};
use crate::exception::Exception;
use crate::param::{
    CLINT_BASE, CLINT_END, DRAM_BASE, DRAM_END, DRAM_SIZE, LOW_BASE, LOW_END, MASK_UART_LSR_TX,
    PLIC_BASE, PLIC_END, UART_BASE, UART_END, UART_LSR, VIRTIO_BASE, VIRTIO_END,
};
use crate::plic::Plic;
use crate::uart::{Uart, UartModel};
use crate::virtio::{VirtioBlock, VirtioModel, VirtioRegs};

verus! {

pub struct BusModel {
    pub dram: Seq<u8>,
    pub clint: Clint,
    pub plic: Plic,
    pub uart: UartModel,
    pub virtio: VirtioModel,
}

pub open spec fn in_clint(addr: u64) -> bool {
    CLINT_BASE <= addr <= CLINT_END
}

pub open spec fn in_plic(addr: u64) -> bool {
    PLIC_BASE <= addr <= PLIC_END
}

pub open spec fn in_virtio(addr: u64) -> bool {
    VIRTIO_BASE <= addr <= VIRTIO_END
}

pub open spec fn in_dram(addr: u64) -> bool {
    DRAM_BASE <= addr <= DRAM_END
}

pub open spec fn in_uart(addr: u64) -> bool {
    UART_BASE <= addr <= UART_END
}

pub open spec fn in_low(addr: u64) -> bool {
    LOW_BASE <= addr < LOW_END
}

impl BusModel {
    /// A load of `size` bits at physical `addr`: the state after it and the value.
    pub open spec fn load(self, addr: u64, size: u64) -> (BusModel, Result<u64, Exception>) {
        if in_clint(addr) {
            (self, self.clint.load_spec(addr, size))
        } else if in_plic(addr) {
            (self, self.plic.load_spec(addr, size))
        } else if in_virtio(addr) {
            (self, self.virtio.regs.load_spec(addr, size))
        } else if in_dram(addr) {
            (self, dram_load(self.dram, addr, size))
        } else if in_uart(addr) {
            let (u, r) = self.uart.load(addr, size);
            (BusModel { uart: u, ..self }, r)
        } else if in_low(addr) {
            (self, dram_load(self.dram, (addr + DRAM_BASE) as u64, size))
        } else {
            (self, Err(Exception::LoadAccessFault(addr)))
        }
    }

    /// A store of `size` bits of `value` at physical `addr`.
    pub open spec fn store(self, addr: u64, size: u64, value: u64) -> (BusModel, Result<(), Exception>) {
        if in_clint(addr) {
            (BusModel { clint: self.clint.store_spec(addr, size, value), ..self }, Clint::store_result(addr, size))
        } else if in_plic(addr) {
            (BusModel { plic: self.plic.store_spec(addr, size, value), ..self }, Plic::store_result(addr, size))
        } else if in_virtio(addr) {
            (
                BusModel {
                    virtio: VirtioModel { regs: self.virtio.regs.store_spec(addr, size, value), ..self.virtio },
                    ..self
                },
                VirtioRegs::store_result(addr, size),
            )
        } else if in_dram(addr) {
            (BusModel { dram: dram_store(self.dram, addr, size, value), ..self }, dram_store_result(addr, size))
        } else if in_uart(addr) {
            let (u, r) = self.uart.store(addr, size, value);
            (BusModel { uart: u, ..self }, r)
        } else if in_low(addr) {
            let a = (addr + DRAM_BASE) as u64;
            (BusModel { dram: dram_store(self.dram, a, size, value), ..self }, dram_store_result(a, size))
        } else {
            (self, Err(Exception::StoreAMOAccessFault(addr)))
        }
    }
}

/// Only a byte read of the UART's RHR changes state: any other load leaves
/// the bus as it was.
pub proof fn lemma_wide_load_is_pure(b: BusModel, addr: u64, size: u64)
    requires
        size != 8,
    ensures
        b.load(addr, size).0 == b,
{
}

/// A store to DRAM followed by a load of the same width at the same address
/// returns the value stored, cut to that width; a value that fits the width
/// comes back unchanged.
pub proof fn lemma_dram_round_trip(b: BusModel, addr: u64, size: u64, value: u64)
    requires
        b.dram.len() == DRAM_SIZE,
        dram_access_ok(addr, size),
    ensures
        b.store(addr, size, value).1 == Ok::<(), Exception>(()),
        b.store(addr, size, value).0.load(addr, size).1 == Ok::<u64, Exception>(
            (value as nat % pow256((size / 8) as nat)) as u64,
        ),
        value < pow256((size / 8) as nat) ==> b.store(addr, size, value).0.load(addr, size).1 == Ok::<
            u64,
            Exception,
        >(value),
{
    let n = (size / 8) as nat;
    let off = addr - DRAM_BASE;
    let after = b.store(addr, size, value).0;
    assert(after.dram.subrange(off, off + n) =~= le_bytes(value as nat, n));
    lemma_le_round_trip(value as nat, n);
    if value < pow256(n) {
        vstd::arithmetic::div_mod::lemma_small_mod(value as nat, pow256(n));
    }
}

/// A DRAM load of fewer than 64 bits is zero-extended: it never reaches
/// `256` to the number of bytes read.
pub proof fn lemma_dram_load_zero_extends(b: BusModel, addr: u64, size: u64)
    requires
        dram_access_ok(addr, size),
        b.dram.len() == DRAM_SIZE,
    ensures
        b.load(addr, size).1 is Ok,
        (b.load(addr, size).1->Ok_0 as nat) < pow256((size / 8) as nat),
{
    let off = addr - DRAM_BASE;
    lemma_le_value_bound(b.dram.subrange(off, off + size / 8));
}

pub struct Bus {
    pub dram: Dram,
    pub clint: Clint,
    pub plic: Plic,
    pub uart: Uart,
    pub virtio_blk: VirtioBlock,
}

impl View for Bus {
    type V = BusModel;

    open spec fn view(&self) -> BusModel {
        BusModel {
            dram: self.dram@,
            clint: self.clint,
            plic: self.plic,
            uart: self.uart@,
            virtio: self.virtio_blk@,
        }
    }
}

impl Bus {
    pub open spec fn wf(&self) -> bool {
        self.dram.wf()
    }

    pub fn new(code: Vec<u8>, disk_image: Vec<u8>) -> (r: Bus)
        requires
            code.len() <= DRAM_SIZE,
        ensures
            r.wf(),
            forall|i: int| 0 <= i < code.len() ==> #[trigger] r@.dram[i] == code@[i],
            forall|i: int| code.len() <= i < DRAM_SIZE ==> #[trigger] r@.dram[i] == 0,
            r@.virtio.disk == disk_image@,
            !r@.virtio.regs.interrupting && r@.virtio.regs.queue_pfn == 0 && r@.virtio.regs.id == 0,
            r.clint.mtime == 0 && r.clint.mtimecmp == 0,
            r.plic.pending == 0 && r.plic.senable == 0 && r.plic.spriority == 0 && r.plic.sclaim == 0,
            r@.uart.regs[UART_LSR as int] == MASK_UART_LSR_TX,
            !r@.uart.interrupting && r@.uart.output.len() == 0,
    {
        Bus {
            dram: Dram::new(code),
            clint: Clint::new(),
            plic: Plic::new(),
            uart: Uart::new(),
            virtio_blk: VirtioBlock::new(disk_image),
        }
    }

    pub fn load(&mut self, addr: u64, size: u64) -> (r: Result<u64, Exception>)
        requires
            old(self).wf(),
        ensures
            final(self).wf(),
            (final(self)@, r) == old(self)@.load(addr, size),
    {
        if CLINT_BASE <= addr && addr <= CLINT_END {
            self.clint.load(addr, size)
        } else if PLIC_BASE <= addr && addr <= PLIC_END {
            self.plic.load(addr, size)
        } else if VIRTIO_BASE <= addr && addr <= VIRTIO_END {
            self.virtio_blk.load(addr, size)
        } else if DRAM_BASE <= addr && addr <= DRAM_END {
            self.dram.load(addr, size)
        } else if UART_BASE <= addr && addr <= UART_END {
            self.uart.load(addr, size)
        } else if LOW_BASE <= addr && addr < LOW_END {
            self.dram.load(addr + DRAM_BASE, size)
        } else {
            Err(Exception::LoadAccessFault(addr))
        }
    }

    pub fn store(&mut self, addr: u64, size: u64, value: u64) -> (r: Result<(), Exception>)
        requires
            old(self).wf(),
        ensures
            final(self).wf(),
            (final(self)@, r) == old(self)@.store(addr, size, value),
    {
        if CLINT_BASE <= addr && addr <= CLINT_END {
            self.clint.store(addr, size, value)
        } else if PLIC_BASE <= addr && addr <= PLIC_END {
            self.plic.store(addr, size, value)
        } else if VIRTIO_BASE <= addr && addr <= VIRTIO_END {
            self.virtio_blk.store(addr, size, value)
        } else if DRAM_BASE <= addr && addr <= DRAM_END {
            self.dram.store(addr, size, value)
        } else if UART_BASE <= addr && addr <= UART_END {
            self.uart.store(addr, size, value)
        } else if LOW_BASE <= addr && addr < LOW_END {
            self.dram.store(addr + DRAM_BASE, size, value)
        } else {
            Err(Exception::StoreAMOAccessFault(addr))
        }
    }
}

} // verus!
