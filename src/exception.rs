//! Synchronous trap causes, each carrying its fault value.

use vstd::prelude::*;

verus! {

#[derive(Debug, Clone, Copy, PartialEq, Eq, Structural)]
pub enum Exception {
    InstructionAddrMisaligned(u64),
    InstructionAccessFault(u64),
    IllegalInstruction(u64),
    Breakpoint(u64),
    LoadAccessMisaligned(u64),
    LoadAccessFault(u64),
    StoreAMOAddrMisaligned(u64),
    StoreAMOAccessFault(u64),
    EnvironmentCallFromUMode(u64),
    EnvironmentCallFromSMode(u64),
    EnvironmentCallFromMMode(u64),
    InstructionPageFault(u64),
    LoadPageFault(u64),
    StoreAMOPageFault(u64),
}

impl Exception {
    /// The fault value: an address, the instruction word, or the pc.
    pub open spec fn spec_value(self) -> u64 {
        match self {
            Exception::InstructionAddrMisaligned(v) => v,
            Exception::InstructionAccessFault(v) => v,
            Exception::IllegalInstruction(v) => v,
            Exception::Breakpoint(v) => v,
            Exception::LoadAccessMisaligned(v) => v,
            Exception::LoadAccessFault(v) => v,
            Exception::StoreAMOAddrMisaligned(v) => v,
            Exception::StoreAMOAccessFault(v) => v,
            Exception::EnvironmentCallFromUMode(v) => v,
            Exception::EnvironmentCallFromSMode(v) => v,
            Exception::EnvironmentCallFromMMode(v) => v,
            Exception::InstructionPageFault(v) => v,
            Exception::LoadPageFault(v) => v,
            Exception::StoreAMOPageFault(v) => v,
        }
    }

    /// The standard RISC-V exception code.
    pub open spec fn spec_code(self) -> u64 {
        match self {
            Exception::InstructionAddrMisaligned(_) => 0,
            Exception::InstructionAccessFault(_) => 1,
            Exception::IllegalInstruction(_) => 2,
            Exception::Breakpoint(_) => 3,
            Exception::LoadAccessMisaligned(_) => 4,
            Exception::LoadAccessFault(_) => 5,
            Exception::StoreAMOAddrMisaligned(_) => 6,
            Exception::StoreAMOAccessFault(_) => 7,
            Exception::EnvironmentCallFromUMode(_) => 8,
            Exception::EnvironmentCallFromSMode(_) => 9,
            Exception::EnvironmentCallFromMMode(_) => 11,
            Exception::InstructionPageFault(_) => 12,
            Exception::LoadPageFault(_) => 13,
            Exception::StoreAMOPageFault(_) => 14,
        }
    }

    /// Whether the trap ends the run once it has been handled.
    pub open spec fn spec_is_fatal(self) -> bool {
        match self {
            Exception::InstructionAddrMisaligned(_)
            | Exception::InstructionAccessFault(_)
            | Exception::LoadAccessFault(_)
            | Exception::StoreAMOAddrMisaligned(_)
            | Exception::StoreAMOAccessFault(_)
            | Exception::IllegalInstruction(_) => true,
            _ => false,
        }
    }

    pub fn value(self) -> (r: u64)
        ensures
            r == self.spec_value(),
    {
        match self {
            Exception::InstructionAddrMisaligned(v) => v,
            Exception::InstructionAccessFault(v) => v,
            Exception::IllegalInstruction(v) => v,
            Exception::Breakpoint(v) => v,
            Exception::LoadAccessMisaligned(v) => v,
            Exception::LoadAccessFault(v) => v,
            Exception::StoreAMOAddrMisaligned(v) => v,
            Exception::StoreAMOAccessFault(v) => v,
            Exception::EnvironmentCallFromUMode(v) => v,
            Exception::EnvironmentCallFromSMode(v) => v,
            Exception::EnvironmentCallFromMMode(v) => v,
            Exception::InstructionPageFault(v) => v,
            Exception::LoadPageFault(v) => v,
            Exception::StoreAMOPageFault(v) => v,
        }
    }

    pub fn code(self) -> (r: u64)
        ensures
            r == self.spec_code(),
    {
        match self {
            Exception::InstructionAddrMisaligned(_) => 0,
            Exception::InstructionAccessFault(_) => 1,
            Exception::IllegalInstruction(_) => 2,
            Exception::Breakpoint(_) => 3,
            Exception::LoadAccessMisaligned(_) => 4,
            Exception::LoadAccessFault(_) => 5,
            Exception::StoreAMOAddrMisaligned(_) => 6,
            Exception::StoreAMOAccessFault(_) => 7,
            Exception::EnvironmentCallFromUMode(_) => 8,
            Exception::EnvironmentCallFromSMode(_) => 9,
            Exception::EnvironmentCallFromMMode(_) => 11,
            Exception::InstructionPageFault(_) => 12,
            Exception::LoadPageFault(_) => 13,
            Exception::StoreAMOPageFault(_) => 14,
        }
    }

    pub fn is_fatal(self) -> (r: bool)
        ensures
            r == self.spec_is_fatal(),
    {
        match self {
            Exception::InstructionAddrMisaligned(_)
            | Exception::InstructionAccessFault(_)
            | Exception::LoadAccessFault(_)
            | Exception::StoreAMOAddrMisaligned(_)
            | Exception::StoreAMOAccessFault(_)
            | Exception::IllegalInstruction(_) => true,
            _ => false,
        }
    }
}

} // verus!
