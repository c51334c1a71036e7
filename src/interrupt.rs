//! Asynchronous trap causes.

use vstd::prelude::*;

verus! {

/// The bit that marks an interrupt in MCAUSE / SCAUSE.
pub const MASK_INTERRUPT_BIT: u64 = 0x8000_0000_0000_0000;

#[derive(Debug, Clone, Copy, PartialEq, Eq, Structural)]
pub enum Interrupt {
    SupervisorSoftwareInterrupt,
    MachineSoftwareInterrupt,
    SupervisorTimerInterrupt,
    MachineTimerInterrupt,
    SupervisorExternalInterrupt,
    MachineExternalInterrupt,
}

impl Interrupt {
    /// The interrupt's number: its bit in MIP, MIE and MIDELEG, and its slot
    /// in a vectored trap table.
    pub open spec fn spec_number(self) -> u64 {
        match self {
            Interrupt::SupervisorSoftwareInterrupt => 1,
            Interrupt::MachineSoftwareInterrupt => 3,
            Interrupt::SupervisorTimerInterrupt => 5,
            Interrupt::MachineTimerInterrupt => 7,
            Interrupt::SupervisorExternalInterrupt => 9,
            Interrupt::MachineExternalInterrupt => 11,
        }
    }

    /// The value written to MCAUSE / SCAUSE: the interrupt bit and the number.
    pub open spec fn spec_code(self) -> u64 {
        MASK_INTERRUPT_BIT | self.spec_number()
    }

    pub fn code(self) -> (r: u64)
        ensures
            r == self.spec_code(),
    {
        match self {
            Interrupt::SupervisorSoftwareInterrupt => MASK_INTERRUPT_BIT | 1,
            Interrupt::MachineSoftwareInterrupt => MASK_INTERRUPT_BIT | 3,
            Interrupt::SupervisorTimerInterrupt => MASK_INTERRUPT_BIT | 5,
            Interrupt::MachineTimerInterrupt => MASK_INTERRUPT_BIT | 7,
            Interrupt::SupervisorExternalInterrupt => MASK_INTERRUPT_BIT | 9,
            Interrupt::MachineExternalInterrupt => MASK_INTERRUPT_BIT | 11,
        }
    }
}

/// The cause code selects the same MIDELEG bit as the number, and four
/// times the code, wrapped to 64 bits, is four times the number.
pub proof fn lemma_code_and_number(i: Interrupt)
    ensures
        i.spec_code() % 64 == i.spec_number(),
        ((i.spec_code() as nat * 4) % 0x1_0000_0000_0000_0000) as u64 == 4 * i.spec_number(),
        i.spec_code() & !MASK_INTERRUPT_BIT == i.spec_number(),
{
    let n = i.spec_number();
    let c = i.spec_code();
    assert(n < 64);
    assert(c == MASK_INTERRUPT_BIT + n && c % 64 == n && c & !MASK_INTERRUPT_BIT == n) by (bit_vector)
        requires
            n < 64,
            c == MASK_INTERRUPT_BIT | n,
    ;
    let m: int = 0x1_0000_0000_0000_0000;
    assert(c as nat * 4 == m * 2 + 4 * n);
    vstd::arithmetic::div_mod::lemma_mod_multiples_vanish(2, 4 * n as int, m);
    vstd::arithmetic::div_mod::lemma_small_mod((4 * n) as nat, m as nat);
}

} // verus!
