//! The virtio block transaction: one descriptor chain read from guest memory,
//! one transfer between the disk image and guest memory.

use vstd::prelude::*;
use crate::alu::{mul_low, wadd};
use crate::bus::{lemma_wide_load_is_pure, Bus, BusModel};
use crate::cpu::Cpu;
use crate::exception::Exception;
use crate::param::{DESC_NUM, DESC_SIZE, PAGE_SIZE, SECTOR_SIZE, VIRTIO_BLK_T_IN, VIRTIO_BLK_T_OUT};
use crate::virtio::{VirtioModel, VirtioRegs};

verus! {

/// Offset of `idx` in the available and in the used ring.
pub const RING_IDX: u64 = 2;
/// Offset of the first slot of the available ring.
pub const RING_SLOTS: u64 = 4;
/// Offsets of the fields of a descriptor.
pub const DESC_LEN: u64 = 8;
pub const DESC_NEXT: u64 = 14;
/// Offset of `sector` in a block request header.
pub const REQ_SECTOR: u64 = 8;

/// A block request as the driver queued it.
pub struct DiskRequest {
    pub iotype: u64,
    pub sector: u64,
    pub addr: u64,
    pub len: u64,
}

impl BusModel {
    /// Reads the request at the head of the available ring.
    pub open spec fn disk_request(self) -> Result<DiskRequest, Exception> {
        let desc = self.virtio.regs.desc_addr_spec();
        let avail = wadd(desc, (DESC_NUM * DESC_SIZE) as u64);
        match self.load(wadd(avail, RING_IDX), 16).1 {
            Err(e) => Err(e),
            Ok(idx) => match self.load(wadd(avail, (RING_SLOTS + (idx % DESC_NUM) * 2) as u64), 16).1 {
                Err(e) => Err(e),
                Ok(head) => {
                    let desc0 = wadd(desc, mul_low(DESC_SIZE, head));
                    match self.load(desc0, 64).1 {
                        Err(e) => Err(e),
                        Ok(req) => match self.load(wadd(req, REQ_SECTOR), 64).1 {
                            Err(e) => Err(e),
                            Ok(sector) => match self.load(req, 32).1 {
                                Err(e) => Err(e),
                                Ok(iotype) => match self.load(wadd(desc0, DESC_NEXT), 16).1 {
                                    Err(e) => Err(e),
                                    Ok(next) => {
                                        let desc1 = wadd(desc, mul_low(DESC_SIZE, next));
                                        match self.load(desc1, 64).1 {
                                            Err(e) => Err(e),
                                            Ok(addr) => match self.load(wadd(desc1, DESC_LEN), 32).1 {
                                                Err(e) => Err(e),
                                                Ok(len) => Ok(DiskRequest { iotype, sector, addr, len }),
                                            },
                                        }
                                    },
                                },
                            },
                        },
                    }
                },
            },
        }
    }

    /// Copies `n` bytes of guest memory from `src` to the disk at `off`,
    /// stopping at the first faulting load.
    pub open spec fn copy_to_disk(self, src: u64, off: u64, n: nat) -> (BusModel, Result<(), Exception>)
        decreases n,
    {
        if n == 0 {
            (self, Ok(()))
        } else {
            let (b, r) = self.load(src, 8);
            match r {
                Err(e) => (b, Err(e)),
                Ok(d) => BusModel { virtio: b.virtio.write_disk(off, d as u8), ..b }.copy_to_disk(
                    wadd(src, 1),
                    wadd(off, 1),
                    (n - 1) as nat,
                ),
            }
        }
    }

    /// Copies `n` disk bytes at `off` to guest memory at `dst`, stopping at
    /// the first faulting store.
    pub open spec fn copy_from_disk(self, dst: u64, off: u64, n: nat) -> (BusModel, Result<(), Exception>)
        decreases n,
    {
        if n == 0 {
            (self, Ok(()))
        } else {
            let (b, r) = self.store(dst, 8, self.virtio.read_disk(off) as u64);
            match r {
                Err(e) => (b, Err(e)),
                Ok(_) => b.copy_from_disk(wadd(dst, 1), wadd(off, 1), (n - 1) as nat),
            }
        }
    }

    /// Serves one request: the transfer, then the used ring's `idx` advanced
    /// to the new request id modulo `DESC_NUM`.
    pub open spec fn disk_access(self) -> (BusModel, Result<(), Exception>) {
        match self.disk_request() {
            Err(e) => (self, Err(e)),
            Ok(req) => {
                let off = mul_low(req.sector, SECTOR_SIZE);
                let (b1, r1) = if req.iotype == VIRTIO_BLK_T_OUT {
                    self.copy_to_disk(req.addr, off, req.len as nat)
                } else if req.iotype == VIRTIO_BLK_T_IN {
                    self.copy_from_disk(req.addr, off, req.len as nat)
                } else {
                    (self, Ok(()))
                };
                match r1 {
                    Err(e) => (b1, Err(e)),
                    Ok(_) => {
                        let id = wadd(b1.virtio.regs.id, 1);
                        let b2 = BusModel {
                            virtio: VirtioModel { regs: VirtioRegs { id, ..b1.virtio.regs }, ..b1.virtio },
                            ..b1
                        };
                        let used = wadd(self.virtio.regs.desc_addr_spec(), PAGE_SIZE);
                        b2.store(wadd(used, RING_IDX), 16, id % DESC_NUM)
                    },
                }
            },
        }
    }
}

impl Bus {
    /// A load that leaves the bus as it was.
    fn peek(&mut self, addr: u64, size: u64) -> (r: Result<u64, Exception>)
        requires
            old(self).wf(),
            size != 8,
        ensures
            final(self).wf(),
            final(self)@ == old(self)@,
            r == old(self)@.load(addr, size).1,
    {
        proof {
            lemma_wide_load_is_pure(self@, addr, size);
        }
        self.load(addr, size)
    }

    fn read_request(&mut self) -> (r: Result<DiskRequest, Exception>)
        requires
            old(self).wf(),
        ensures
            final(self).wf(),
            final(self)@ == old(self)@,
            r == old(self)@.disk_request(),
    {
        let desc = self.virtio_blk.desc_addr();
        let avail = desc.wrapping_add(DESC_NUM * DESC_SIZE);
        let idx = self.peek(avail.wrapping_add(RING_IDX), 16)?;
        let head = self.peek(avail.wrapping_add(RING_SLOTS + (idx % DESC_NUM) * 2), 16)?;
        let desc0 = desc.wrapping_add(DESC_SIZE.wrapping_mul(head));
        let req = self.peek(desc0, 64)?;
        let sector = self.peek(req.wrapping_add(REQ_SECTOR), 64)?;
        let iotype = self.peek(req, 32)?;
        let next = self.peek(desc0.wrapping_add(DESC_NEXT), 16)?;
        let desc1 = desc.wrapping_add(DESC_SIZE.wrapping_mul(next));
        let addr = self.peek(desc1, 64)?;
        let len = self.peek(desc1.wrapping_add(DESC_LEN), 32)?;
        Ok(DiskRequest { iotype, sector, addr, len })
    }

    fn copy_to_disk(&mut self, src: u64, off: u64, len: u64) -> (r: Result<(), Exception>)
        requires
            old(self).wf(),
        ensures
            final(self).wf(),
            (final(self)@, r) == old(self)@.copy_to_disk(src, off, len as nat),
    {
        let mut i: u64 = 0;
        let mut s = src;
        let mut o = off;
        while i < len
            invariant
                self.wf(),
                i <= len,
                self@.copy_to_disk(s, o, (len - i) as nat) == old(self)@.copy_to_disk(src, off, len as nat),
            decreases len - i,
        {
            let d = self.load(s, 8)?;
            self.virtio_blk.write_disk(o, d as u8);
            s = s.wrapping_add(1);
            o = o.wrapping_add(1);
            i = i + 1;
        }
        Ok(())
    }

    fn copy_from_disk(&mut self, dst: u64, off: u64, len: u64) -> (r: Result<(), Exception>)
        requires
            old(self).wf(),
        ensures
            final(self).wf(),
            (final(self)@, r) == old(self)@.copy_from_disk(dst, off, len as nat),
    {
        let mut i: u64 = 0;
        let mut d = dst;
        let mut o = off;
        while i < len
            invariant
                self.wf(),
                i <= len,
                self@.copy_from_disk(d, o, (len - i) as nat) == old(self)@.copy_from_disk(dst, off, len as nat),
            decreases len - i,
        {
            let byte = self.virtio_blk.read_disk(o);
            self.store(d, 8, byte as u64)?;
            d = d.wrapping_add(1);
            o = o.wrapping_add(1);
            i = i + 1;
        }
        Ok(())
    }

    pub fn disk_access(&mut self) -> (r: Result<(), Exception>)
        requires
            old(self).wf(),
        ensures
            final(self).wf(),
            (final(self)@, r) == old(self)@.disk_access(),
    {
        let desc = self.virtio_blk.desc_addr();
        let req = self.read_request()?;
        let off = req.sector.wrapping_mul(SECTOR_SIZE);
        if req.iotype == VIRTIO_BLK_T_OUT {
            self.copy_to_disk(req.addr, off, req.len)?;
        } else if req.iotype == VIRTIO_BLK_T_IN {
            self.copy_from_disk(req.addr, off, req.len)?;
        }
        let new_id = self.virtio_blk.get_new_id();
        let used = desc.wrapping_add(PAGE_SIZE);
        self.store(used.wrapping_add(RING_IDX), 16, new_id % DESC_NUM)
    }
}

impl Cpu {
    /// Serves the virtio request at the head of the queue; guest memory is
    /// accessed by physical address.
    pub fn disk_access(&mut self) -> (r: Result<(), Exception>)
        requires
            old(self).wf(),
        ensures
            final(self).wf(),
            (final(self)@.bus, r) == old(self)@.bus.disk_access(),
            final(self)@ == old(self)@.with_bus(final(self)@.bus),
    {
        self.bus.disk_access()
    }
}

} // verus!
