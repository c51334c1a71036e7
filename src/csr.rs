//! The control and status register file, with the supervisor registers
//! SSTATUS, SIE and SIP as masked views of their machine counterparts.

use vstd::prelude::*;

verus! {

pub const NUM_CSRS: usize = 4096;

pub const MHARTID: usize = 0xf14;
/// Machine status register.
pub const MSTATUS: usize = 0x300;
/// Machine exception delegation register.
pub const MEDELEG: usize = 0x302;
/// Machine interrupt delegation register.
pub const MIDELEG: usize = 0x303;
/// Machine interrupt-enable register.
pub const MIE: usize = 0x304;
/// Machine trap-handler base address.
pub const MTVEC: usize = 0x305;
/// Machine counter enable.
pub const MCOUNTEREN: usize = 0x306;
/// Scratch register for machine trap handlers.
pub const MSCRATCH: usize = 0x340;
/// Machine exception program counter.
pub const MEPC: usize = 0x341;
/// Machine trap cause.
pub const MCAUSE: usize = 0x342;
/// Machine bad address or instruction.
pub const MTVAL: usize = 0x343;
/// Machine interrupt pending.
pub const MIP: usize = 0x344;

/// Supervisor status register.
pub const SSTATUS: usize = 0x100;
/// Supervisor interrupt-enable register.
pub const SIE: usize = 0x104;
/// Supervisor trap handler base address.
pub const STVEC: usize = 0x105;
/// Scratch register for supervisor trap handlers.
pub const SSCRATCH: usize = 0x140;
/// Supervisor exception program counter.
pub const SEPC: usize = 0x141;
/// Supervisor trap cause.
pub const SCAUSE: usize = 0x142;
/// Supervisor bad address or instruction.
pub const STVAL: usize = 0x143;
/// Supervisor interrupt pending.
pub const SIP: usize = 0x144;
/// Supervisor address translation and protection.
pub const SATP: usize = 0x180;

pub const MASK_PPN: u64 = 0xfff_ffff_ffff;

pub const MASK_SIE: u64 = 1 << 1;
pub const MASK_MIE: u64 = 1 << 3;
pub const MASK_SPIE: u64 = 1 << 5;
pub const MASK_UBE: u64 = 1 << 6;
pub const MASK_MPIE: u64 = 1 << 7;
pub const MASK_SPP: u64 = 1 << 8;
pub const MASK_VS: u64 = 0b11 << 9;
pub const MASK_MPP: u64 = 0b11 << 11;
pub const MASK_FS: u64 = 0b11 << 13;
pub const MASK_XS: u64 = 0b11 << 15;
pub const MASK_MPRV: u64 = 1 << 17;
pub const MASK_SUM: u64 = 1 << 18;
pub const MASK_MXR: u64 = 1 << 19;
pub const MASK_TVM: u64 = 1 << 20;
pub const MASK_TW: u64 = 1 << 21;
pub const MASK_TSR: u64 = 1 << 22;
pub const MASK_UXL: u64 = 0b11 << 32;
pub const MASK_SXL: u64 = 0b11 << 34;
pub const MASK_SBE: u64 = 1 << 36;
pub const MASK_MBE: u64 = 1 << 37;
pub const MASK_SD: u64 = 1 << 63;
/// The MSTATUS bits that SSTATUS shows.
pub const MASK_SSTATUS: u64 = MASK_SIE | MASK_SPIE | MASK_UBE | MASK_SPP | MASK_FS | MASK_XS
    | MASK_SUM | MASK_MXR | MASK_UXL | MASK_SD;

// MIP / SIP fields
pub const MASK_SSIP: u64 = 1 << 1;
pub const MASK_MSIP: u64 = 1 << 3;
pub const MASK_STIP: u64 = 1 << 5;
pub const MASK_MTIP: u64 = 1 << 7;
pub const MASK_SEIP: u64 = 1 << 9;
pub const MASK_MEIP: u64 = 1 << 11;

/// What a read of CSR `addr` returns from the register file `c`.
pub open spec fn csr_read(c: Seq<u64>, addr: int) -> u64 {
    if addr == SIE {
        c[MIE as int] & c[MIDELEG as int]
    } else if addr == SIP {
        c[MIP as int] & c[MIDELEG as int]
    } else if addr == SSTATUS {
        c[MSTATUS as int] & MASK_SSTATUS
    } else {
        c[addr]
    }
}

/// The register file after `value` is written to CSR `addr`.
pub open spec fn csr_write(c: Seq<u64>, addr: int, value: u64) -> Seq<u64> {
    if addr == SIE {
        c.update(MIE as int, (c[MIE as int] & !c[MIDELEG as int]) | (value & c[MIDELEG as int]))
    } else if addr == SIP {
        c.update(MIP as int, (c[MIP as int] & !c[MIDELEG as int]) | (value & c[MIDELEG as int]))
    } else if addr == SSTATUS {
        c.update(MSTATUS as int, (c[MSTATUS as int] & !MASK_SSTATUS) | (value & MASK_SSTATUS))
    } else {
        c.update(addr, value)
    }
}

/// Bit `cause` of `deleg`.
pub open spec fn bit_set(deleg: u64, cause: u64) -> bool {
    (deleg >> (cause % 64)) & 1 == 1
}

pub struct Csr {
    pub csrs: [u64; 4096],
}

impl View for Csr {
    type V = Seq<u64>;

    open spec fn view(&self) -> Seq<u64> {
        self.csrs@
    }
}

impl Csr {
    pub fn new() -> (r: Csr)
        ensures
            r@.len() == NUM_CSRS,
            forall|i: int| 0 <= i < NUM_CSRS ==> #[trigger] r@[i] == 0,
    {
        Csr { csrs: [0u64; 4096] }
    }

    pub fn load(&self, addr: usize) -> (r: u64)
        requires
            addr < NUM_CSRS,
        ensures
            r == csr_read(self@, addr as int),
    {
        if addr == SIE {
            self.csrs[MIE] & self.csrs[MIDELEG]
        } else if addr == SIP {
            self.csrs[MIP] & self.csrs[MIDELEG]
        } else if addr == SSTATUS {
            self.csrs[MSTATUS] & MASK_SSTATUS
        } else {
            self.csrs[addr]
        }
    }

    pub fn store(&mut self, addr: usize, value: u64)
        requires
            addr < NUM_CSRS,
        ensures
            final(self)@ == csr_write(old(self)@, addr as int, value),
    {
        if addr == SIE {
            self.csrs[MIE] = (self.csrs[MIE] & !self.csrs[MIDELEG]) | (value & self.csrs[MIDELEG]);
        } else if addr == SIP {
            self.csrs[MIP] = (self.csrs[MIP] & !self.csrs[MIDELEG]) | (value & self.csrs[MIDELEG]);
        } else if addr == SSTATUS {
            self.csrs[MSTATUS] = (self.csrs[MSTATUS] & !MASK_SSTATUS) | (value & MASK_SSTATUS);
        } else {
            self.csrs[addr] = value;
        }
    }

    /// Whether exceptions of code `cause` are delegated to supervisor mode.
    pub fn is_medelegated(&self, cause: u64) -> (r: bool)
        ensures
            r == bit_set(self@[MEDELEG as int], cause),
    {
        (self.csrs[MEDELEG] >> ((cause % 64) as u32)) & 1 == 1
    }

    /// Whether interrupts of code `cause` are delegated to supervisor mode.
    pub fn is_midelegated(&self, cause: u64) -> (r: bool)
        ensures
            r == bit_set(self@[MIDELEG as int], cause),
    {
        (self.csrs[MIDELEG] >> ((cause % 64) as u32)) & 1 == 1
    }
}

/// Supervisor views are masked machine registers: SIE and SIP show the
/// delegated bits of MIE and MIP, SSTATUS the `MASK_SSTATUS` bits of MSTATUS.
pub proof fn lemma_shadow_reads(c: Seq<u64>)
    requires
        c.len() == NUM_CSRS,
    ensures
        csr_read(c, SIE as int) == c[MIE as int] & c[MIDELEG as int],
        csr_read(c, SIP as int) == c[MIP as int] & c[MIDELEG as int],
        csr_read(c, SSTATUS as int) == c[MSTATUS as int] & MASK_SSTATUS,
{
}

/// A write through a supervisor view changes only the masked bits of the
/// machine register behind it, and no other register; reading the view back
/// gives the masked value written.
pub proof fn lemma_shadow_writes(c: Seq<u64>, value: u64)
    requires
        c.len() == NUM_CSRS,
    ensures
        ({
            let d = csr_write(c, SSTATUS as int, value);
            &&& csr_read(d, SSTATUS as int) == value & MASK_SSTATUS
            &&& d[MSTATUS as int] & !MASK_SSTATUS == c[MSTATUS as int] & !MASK_SSTATUS
            &&& forall|i: int| 0 <= i < NUM_CSRS && i != MSTATUS ==> #[trigger] d[i] == c[i]
        }),
        ({
            let d = csr_write(c, SIE as int, value);
            let m = c[MIDELEG as int];
            &&& csr_read(d, SIE as int) == value & m
            &&& d[MIE as int] & !m == c[MIE as int] & !m
            &&& forall|i: int| 0 <= i < NUM_CSRS && i != MIE ==> #[trigger] d[i] == c[i]
        }),
        ({
            let d = csr_write(c, SIP as int, value);
            let m = c[MIDELEG as int];
            &&& csr_read(d, SIP as int) == value & m
            &&& d[MIP as int] & !m == c[MIP as int] & !m
            &&& forall|i: int| 0 <= i < NUM_CSRS && i != MIP ==> #[trigger] d[i] == c[i]
        }),
{
    let old_s = c[MSTATUS as int];
    let old_ie = c[MIE as int];
    let old_ip = c[MIP as int];
    let m = c[MIDELEG as int];
    assert((((old_s & !MASK_SSTATUS) | (value & MASK_SSTATUS)) & MASK_SSTATUS) == value & MASK_SSTATUS
        && (((old_s & !MASK_SSTATUS) | (value & MASK_SSTATUS)) & !MASK_SSTATUS) == old_s & !MASK_SSTATUS)
        by (bit_vector);
    assert((((old_ie & !m) | (value & m)) & m) == value & m && (((old_ie & !m) | (value & m)) & !m)
        == old_ie & !m) by (bit_vector);
    assert((((old_ip & !m) | (value & m)) & m) == value & m && (((old_ip & !m) | (value & m)) & !m)
        == old_ip & !m) by (bit_vector);
}

} // verus!
