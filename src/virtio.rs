//! A virtio-mmio block device: its register file, the disk image and the
//! queue-notify interrupt flag.

use vstd::prelude::*;
use crate::alu::mul_low;
use crate::exception::Exception;
use crate::param::{
    DESC_NUM, VIRTIO_DEVICE_ID, VIRTIO_DRIVER_FEATURES, VIRTIO_GUEST_PAGE_SIZE, VIRTIO_MAGIC,
    VIRTIO_QUEUE_NOTIFY, VIRTIO_QUEUE_NUM, VIRTIO_QUEUE_NUM_MAX, VIRTIO_QUEUE_PFN, VIRTIO_QUEUE_SEL,
    VIRTIO_STATUS, VIRTIO_VENDOR_ID, VIRTIO_VERSION,
};

verus! {

#[derive(Clone, Copy)]
pub struct VirtioRegs {
    pub id: u64,
    pub driver_features: u64,
    pub page_size: u64,
    pub queue_sel: u64,
    pub queue_num: u64,
    pub queue_pfn: u64,
    pub queue_notify: u64,
    pub status: u64,
    pub interrupting: bool,
}

impl VirtioRegs {
    /// What a load returns: 32-bit accesses only; unmapped offsets read as zero.
    pub open spec fn load_spec(self, addr: u64, size: u64) -> Result<u64, Exception> {
        if size != 32 {
            Err(Exception::LoadAccessFault(addr))
        } else if addr == VIRTIO_MAGIC {
            Ok(0x7472_6976)
        } else if addr == VIRTIO_VERSION {
            Ok(1)
        } else if addr == VIRTIO_DEVICE_ID {
            Ok(2)
        } else if addr == VIRTIO_VENDOR_ID {
            Ok(0x554d_4551)
        } else if addr == VIRTIO_DRIVER_FEATURES {
            Ok(self.driver_features)
        } else if addr == VIRTIO_QUEUE_NUM_MAX {
            Ok(DESC_NUM)
        } else if addr == VIRTIO_QUEUE_PFN {
            Ok(self.queue_pfn)
        } else if addr == VIRTIO_STATUS {
            Ok(self.status)
        } else {
            Ok(0)
        }
    }

    /// The registers after a store; a write to QUEUE_NOTIFY raises the interrupt flag.
    pub open spec fn store_spec(self, addr: u64, size: u64, value: u64) -> VirtioRegs {
        if size != 32 {
            self
        } else if addr == VIRTIO_DRIVER_FEATURES {
            VirtioRegs { driver_features: value, ..self }
        } else if addr == VIRTIO_GUEST_PAGE_SIZE {
            VirtioRegs { page_size: value, ..self }
        } else if addr == VIRTIO_QUEUE_SEL {
            VirtioRegs { queue_sel: value, ..self }
        } else if addr == VIRTIO_QUEUE_NUM {
            VirtioRegs { queue_num: value, ..self }
        } else if addr == VIRTIO_QUEUE_PFN {
            VirtioRegs { queue_pfn: value, ..self }
        } else if addr == VIRTIO_QUEUE_NOTIFY {
            VirtioRegs { queue_notify: value, interrupting: true, ..self }
        } else if addr == VIRTIO_STATUS {
            VirtioRegs { status: value, ..self }
        } else {
            self
        }
    }

    pub open spec fn store_result(addr: u64, size: u64) -> Result<(), Exception> {
        if size != 32 {
            Err(Exception::StoreAMOAccessFault(addr))
        } else {
            Ok(())
        }
    }

    /// Guest-physical address of the descriptor table.
    pub open spec fn desc_addr_spec(self) -> u64 {
        mul_low(self.queue_pfn, self.page_size)
    }
}

pub struct VirtioModel {
    pub regs: VirtioRegs,
    pub disk: Seq<u8>,
}

impl VirtioModel {
    /// A disk byte; past the end of the image the disk reads as zero.
    pub open spec fn read_disk(self, offset: u64) -> u8 {
        if offset < self.disk.len() {
            self.disk[offset as int]
        } else {
            0
        }
    }

    /// The device after a disk byte is written; writes past the end are dropped.
    pub open spec fn write_disk(self, offset: u64, value: u8) -> VirtioModel {
        if offset < self.disk.len() {
            VirtioModel { disk: self.disk.update(offset as int, value), ..self }
        } else {
            self
        }
    }
}

pub struct VirtioBlock {
    pub regs: VirtioRegs,
    pub disk: Vec<u8>,
}

impl View for VirtioBlock {
    type V = VirtioModel;

    open spec fn view(&self) -> VirtioModel {
        VirtioModel { regs: self.regs, disk: self.disk@ }
    }
}

impl VirtioBlock {
    pub fn new(disk_image: Vec<u8>) -> (r: Self)
        ensures
            r@.disk == disk_image@,
            r@.regs == (VirtioRegs {
                id: 0,
                driver_features: 0,
                page_size: 0,
                queue_sel: 0,
                queue_num: 0,
                queue_pfn: 0,
                queue_notify: 0,
                status: 0,
                interrupting: false,
            }),
    {
        VirtioBlock {
            regs: VirtioRegs {
                id: 0,
                driver_features: 0,
                page_size: 0,
                queue_sel: 0,
                queue_num: 0,
                queue_pfn: 0,
                queue_notify: 0,
                status: 0,
                interrupting: false,
            },
            disk: disk_image,
        }
    }

    pub fn load(&self, addr: u64, size: u64) -> (r: Result<u64, Exception>)
        ensures
            r == self.regs.load_spec(addr, size),
    {
        if size != 32 {
            return Err(Exception::LoadAccessFault(addr));
        }
        if addr == VIRTIO_MAGIC {
            Ok(0x7472_6976)
        } else if addr == VIRTIO_VERSION {
            Ok(1)
        } else if addr == VIRTIO_DEVICE_ID {
            Ok(2)
        } else if addr == VIRTIO_VENDOR_ID {
            Ok(0x554d_4551)
        } else if addr == VIRTIO_DRIVER_FEATURES {
            Ok(self.regs.driver_features)
        } else if addr == VIRTIO_QUEUE_NUM_MAX {
            Ok(DESC_NUM)
        } else if addr == VIRTIO_QUEUE_PFN {
            Ok(self.regs.queue_pfn)
        } else if addr == VIRTIO_STATUS {
            Ok(self.regs.status)
        } else {
            Ok(0)
        }
    }

    pub fn store(&mut self, addr: u64, size: u64, value: u64) -> (r: Result<(), Exception>)
        ensures
            final(self).regs == old(self).regs.store_spec(addr, size, value),
            final(self).disk@ == old(self).disk@,
            r == VirtioRegs::store_result(addr, size),
    {
        if size != 32 {
            return Err(Exception::StoreAMOAccessFault(addr));
        }
        if addr == VIRTIO_DRIVER_FEATURES {
            self.regs.driver_features = value;
        } else if addr == VIRTIO_GUEST_PAGE_SIZE {
            self.regs.page_size = value;
        } else if addr == VIRTIO_QUEUE_SEL {
            self.regs.queue_sel = value;
        } else if addr == VIRTIO_QUEUE_NUM {
            self.regs.queue_num = value;
        } else if addr == VIRTIO_QUEUE_PFN {
            self.regs.queue_pfn = value;
        } else if addr == VIRTIO_QUEUE_NOTIFY {
            self.regs.queue_notify = value;
            self.regs.interrupting = true;
        } else if addr == VIRTIO_STATUS {
            self.regs.status = value;
        }
        Ok(())
    }

    /// Takes the interrupt flag and clears it.
    pub fn is_interrupting(&mut self) -> (r: bool)
        ensures
            r == old(self).regs.interrupting,
            final(self)@ == (VirtioModel {
                regs: VirtioRegs { interrupting: false, ..old(self).regs },
                ..old(self)@
            }),
    {
        let r = self.regs.interrupting;
        self.regs.interrupting = false;
        r
    }

    pub fn desc_addr(&self) -> (r: u64)
        ensures
            r == self.regs.desc_addr_spec(),
    {
        self.regs.queue_pfn.wrapping_mul(self.regs.page_size)
    }

    pub fn read_disk(&self, offset: u64) -> (r: u8)
        ensures
            r == self@.read_disk(offset),
    {
        if offset < self.disk.len() as u64 {
            self.disk[offset as usize]
        } else {
            0
        }
    }

    pub fn write_disk(&mut self, offset: u64, value: u8)
        ensures
            final(self)@ == old(self)@.write_disk(offset, value),
    {
        if offset < self.disk.len() as u64 {
            self.disk[offset as usize] = value;
        }
    }

    /// Advances the request counter and returns its new value.
    pub fn get_new_id(&mut self) -> (r: u64)
        ensures
            r == old(self).regs.id.wrapping_add(1),
            final(self)@ == (VirtioModel { regs: VirtioRegs { id: r, ..old(self).regs }, ..old(self)@ }),
    {
        self.regs.id = self.regs.id.wrapping_add(1);
        self.regs.id
    }
}

} // verus!
