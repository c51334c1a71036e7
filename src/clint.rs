//! Core-local interruptor: the `mtime` and `mtimecmp` counters.

use vstd::prelude::*;
use crate::exception::Exception;
use crate::param::{CLINT_MTIME, CLINT_MTIMECMP};

verus! {

#[derive(Clone, Copy)]
pub struct Clint {
    pub mtime: u64,
    pub mtimecmp: u64,
}

impl Clint {
    /// What a load returns: 64-bit accesses only; unmapped offsets read as zero.
    pub open spec fn load_spec(self, addr: u64, size: u64) -> Result<u64, Exception> {
        if size != 64 {
            Err(Exception::LoadAccessFault(addr))
        } else if addr == CLINT_MTIME {
            Ok(self.mtime)
        } else if addr == CLINT_MTIMECMP {
            Ok(self.mtimecmp)
        } else {
            Ok(0)
        }
    }

    /// The counters after a store; unmapped offsets ignore the value.
    pub open spec fn store_spec(self, addr: u64, size: u64, value: u64) -> Clint {
        if size != 64 {
            self
        } else if addr == CLINT_MTIME {
            Clint { mtime: value, ..self }
        } else if addr == CLINT_MTIMECMP {
            Clint { mtimecmp: value, ..self }
        } else {
            self
        }
    }

    pub open spec fn store_result(addr: u64, size: u64) -> Result<(), Exception> {
        if size != 64 {
            Err(Exception::StoreAMOAccessFault(addr))
        } else {
            Ok(())
        }
    }

    pub fn new() -> (r: Self)
        ensures
            r.mtime == 0 && r.mtimecmp == 0,
    {
        Clint { mtime: 0, mtimecmp: 0 }
    }

    pub fn load(&self, addr: u64, size: u64) -> (r: Result<u64, Exception>)
        ensures
            r == self.load_spec(addr, size),
    {
        if size != 64 {
            return Err(Exception::LoadAccessFault(addr));
        }
        if addr == CLINT_MTIME {
            Ok(self.mtime)
        } else if addr == CLINT_MTIMECMP {
            Ok(self.mtimecmp)
        } else {
            Ok(0)
        }
    }

    pub fn store(&mut self, addr: u64, size: u64, value: u64) -> (r: Result<(), Exception>)
        ensures
            *final(self) == old(self).store_spec(addr, size, value),
            r == Clint::store_result(addr, size),
    {
        if size != 64 {
            return Err(Exception::StoreAMOAccessFault(addr));
        }
        if addr == CLINT_MTIME {
            self.mtime = value;
        } else if addr == CLINT_MTIMECMP {
            self.mtimecmp = value;
        }
        Ok(())
    }
}

} // verus!
