//! Platform-level interrupt controller: pending, enable, priority and claim.

use vstd::prelude::*;
use crate::exception::Exception;
use crate::param::{PLIC_PENDING, PLIC_SCLAIM, PLIC_SENABLE, PLIC_SPRIORITY};

verus! {

#[derive(Clone, Copy)]
pub struct Plic {
    pub pending: u64,
    pub senable: u64,
    pub spriority: u64,
    pub sclaim: u64,
}

impl Plic {
    /// What a load returns: 32-bit accesses only; unmapped offsets read as zero.
    pub open spec fn load_spec(self, addr: u64, size: u64) -> Result<u64, Exception> {
        if size != 32 {
            Err(Exception::LoadAccessFault(addr))
        } else if addr == PLIC_PENDING {
            Ok(self.pending)
        } else if addr == PLIC_SENABLE {
            Ok(self.senable)
        } else if addr == PLIC_SPRIORITY {
            Ok(self.spriority)
        } else if addr == PLIC_SCLAIM {
            Ok(self.sclaim)
        } else {
            Ok(0)
        }
    }

    /// The registers after a store; unmapped offsets ignore the value.
    pub open spec fn store_spec(self, addr: u64, size: u64, value: u64) -> Plic {
        if size != 32 {
            self
        } else if addr == PLIC_PENDING {
            Plic { pending: value, ..self }
        } else if addr == PLIC_SENABLE {
            Plic { senable: value, ..self }
        } else if addr == PLIC_SPRIORITY {
            Plic { spriority: value, ..self }
        } else if addr == PLIC_SCLAIM {
            Plic { sclaim: value, ..self }
        } else {
            self
        }
    }

    pub open spec fn store_result(addr: u64, size: u64) -> Result<(), Exception> {
        if size != 32 {
            Err(Exception::StoreAMOAccessFault(addr))
        } else {
            Ok(())
        }
    }

    pub fn new() -> (r: Self)
        ensures
            r.pending == 0 && r.senable == 0 && r.spriority == 0 && r.sclaim == 0,
    {
        Plic { pending: 0, senable: 0, spriority: 0, sclaim: 0 }
    }

    pub fn load(&self, addr: u64, size: u64) -> (r: Result<u64, Exception>)
        ensures
            r == self.load_spec(addr, size),
    {
        if size != 32 {
            return Err(Exception::LoadAccessFault(addr));
        }
        if addr == PLIC_PENDING {
            Ok(self.pending)
        } else if addr == PLIC_SENABLE {
            Ok(self.senable)
        } else if addr == PLIC_SPRIORITY {
            Ok(self.spriority)
        } else if addr == PLIC_SCLAIM {
            Ok(self.sclaim)
        } else {
            Ok(0)
        }
    }

    pub fn store(&mut self, addr: u64, size: u64, value: u64) -> (r: Result<(), Exception>)
        ensures
            *final(self) == old(self).store_spec(addr, size, value),
            r == Plic::store_result(addr, size),
    {
        if size != 32 {
            return Err(Exception::StoreAMOAccessFault(addr));
        }
        if addr == PLIC_PENDING {
            self.pending = value;
        } else if addr == PLIC_SENABLE {
            self.senable = value;
        } else if addr == PLIC_SPRIORITY {
            self.spriority = value;
        } else if addr == PLIC_SCLAIM {
            self.sclaim = value;
        }
        Ok(())
    }
}

} // verus!
