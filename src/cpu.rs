//! The hart: registers, privilege mode, CSRs, Sv39 translation and the
//! interpreter of one instruction.

use vstd::prelude::*;
use crate::alu::{
    amo_spec, branch_spec, lemma_divide_by_zero, load_extend, load_width, op32_spec, op_imm32_spec,
    op_imm_spec, op_spec, sext32, wadd, ALL_ONES, LOW32,
};
use crate::bus::{lemma_wide_load_is_pure, Bus, BusModel};
use crate::csr::{
    csr_read, csr_write, Csr, MASK_MIE, MASK_MPIE, MASK_MPP, MASK_MPRV, MASK_PPN,
    MASK_SIE, MASK_SPIE, MASK_SPP, MEPC, MSTATUS, NUM_CSRS, SATP, SEPC, SSTATUS,
};
use crate::decode::{
    b_imm, csr_of, funct3_of, funct7_of, i_imm, j_imm, opcode_of, rd_of, rs1_of, rs2_of, s_imm,
    u_imm,
};
use crate::exception::Exception;
use crate::param::{DRAM_BASE, DRAM_END, DRAM_SIZE, PAGE_SIZE};

verus! {

/// Privilege modes.
pub const USER: u64 = 0b00;
pub const SUPERVISOR: u64 = 0b01;
pub const MACHINE: u64 = 0b11;

#[derive(Debug, Clone, Copy, PartialEq, Eq, Structural)]
pub enum AccessType {
    Instruction,
    Load,
    Store,
}

/// The page fault that matches the kind of access.
pub open spec fn page_fault(kind: AccessType, va: u64) -> Exception {
    match kind {
        AccessType::Instruction => Exception::InstructionPageFault(va),
        AccessType::Load => Exception::LoadPageFault(va),
        AccessType::Store => Exception::StoreAMOPageFault(va),
    }
}

/// Virtual page number `i` of `va`.
pub open spec fn vpn(va: u64, i: u64) -> u64 {
    (va >> (12 + 9 * i)) & 0x1ff
}

/// The physical page number of a page-table entry.
pub open spec fn pte_ppn(pte: u64) -> u64 {
    (pte >> 10) & 0xfff_ffff_ffff
}

/// The physical address of `va` under a leaf entry found at `level`:
/// a 4 KiB page, a 2 MiB or a 1 GiB superpage.
pub open spec fn leaf_address(va: u64, pte: u64, level: u64) -> u64 {
    let offset = va & 0xfff;
    let ppn2 = (pte >> 28) & 0x3ff_ffff;
    if level == 0 {
        (pte_ppn(pte) << 12) | offset
    } else if level == 1 {
        (ppn2 << 30) | (((pte >> 19) & 0x1ff) << 21) | (vpn(va, 0) << 12) | offset
    } else {
        (ppn2 << 30) | (vpn(va, 1) << 21) | (vpn(va, 0) << 12) | offset
    }
}

pub struct CpuModel {
    pub regs: Seq<u64>,
    pub pc: u64,
    pub mode: u64,
    pub csrs: Seq<u64>,
    pub enable_paging: bool,
    pub page_table: u64,
    pub bus: BusModel,
}

impl CpuModel {
    pub open spec fn x(self, r: u64) -> u64 {
        self.regs[r as int]
    }

    /// The state after register `rd` is written; writes to `x0` are dropped.
    pub open spec fn with_reg(self, rd: u64, v: u64) -> CpuModel {
        if rd == 0 {
            self
        } else {
            CpuModel { regs: self.regs.update(rd as int, v), ..self }
        }
    }

    pub open spec fn with_bus(self, b: BusModel) -> CpuModel {
        CpuModel { bus: b, ..self }
    }

    pub open spec fn next_pc(self) -> u64 {
        wadd(self.pc, 4)
    }

    /// The Sv39 walk from the table at `a`, looking at level `level`.
    pub open spec fn walk(self, va: u64, kind: AccessType, a: u64, level: nat) -> Result<u64, Exception>
        decreases level,
    {
        match self.bus.load(wadd(a, (vpn(va, level as u64) * 8) as u64), 64).1 {
            Err(e) => Err(e),
            Ok(pte) => {
                let v = pte & 1;
                let r = (pte >> 1) & 1;
                let w = (pte >> 2) & 1;
                let x = (pte >> 3) & 1;
                if v == 0 || (r == 0 && w == 1) {
                    Err(page_fault(kind, va))
                } else if r == 1 || x == 1 {
                    Ok(leaf_address(va, pte, level as u64))
                } else if level == 0 {
                    Err(page_fault(kind, va))
                } else {
                    self.walk(va, kind, (pte_ppn(pte) * PAGE_SIZE) as u64, (level - 1) as nat)
                }
            },
        }
    }

    /// The physical address of `va`, or the fault of the walk.
    pub open spec fn translate(self, va: u64, kind: AccessType) -> Result<u64, Exception> {
        if !self.enable_paging {
            Ok(va)
        } else {
            self.walk(va, kind, self.page_table, 2)
        }
    }

    /// A load through translation.
    pub open spec fn load(self, va: u64, size: u64) -> (CpuModel, Result<u64, Exception>) {
        match self.translate(va, AccessType::Load) {
            Err(e) => (self, Err(e)),
            Ok(pa) => {
                let (b, r) = self.bus.load(pa, size);
                (self.with_bus(b), r)
            },
        }
    }

    /// A store through translation.
    pub open spec fn store(self, va: u64, size: u64, value: u64) -> (CpuModel, Result<(), Exception>) {
        match self.translate(va, AccessType::Store) {
            Err(e) => (self, Err(e)),
            Ok(pa) => {
                let (b, r) = self.bus.store(pa, size, value);
                (self.with_bus(b), r)
            },
        }
    }

    /// The 32-bit word at `pc`; a bus fault becomes an instruction access fault.
    pub open spec fn fetch(self) -> (CpuModel, Result<u64, Exception>) {
        match self.translate(self.pc, AccessType::Instruction) {
            Err(e) => (self, Err(e)),
            Ok(pa) => {
                let (b, r) = self.bus.load(pa, 32);
                match r {
                    Ok(inst) => (self.with_bus(b), Ok(inst)),
                    Err(_) => (self.with_bus(b), Err(Exception::InstructionAccessFault(self.pc))),
                }
            },
        }
    }

    /// After a CSR write: a write to SATP reprograms translation.
    pub open spec fn update_paging(self, csr: u64) -> CpuModel {
        if csr != SATP {
            self
        } else {
            let satp = csr_read(self.csrs, SATP as int);
            CpuModel {
                page_table: ((satp & MASK_PPN) * PAGE_SIZE) as u64,
                enable_paging: (satp >> 60u64) == 8,
                ..self
            }
        }
    }

    pub open spec fn illegal(self, inst: u64) -> (CpuModel, Result<u64, Exception>) {
        (self, Err(Exception::IllegalInstruction(inst)))
    }

    /// Writes `v` to `rd` and goes on to the next instruction.
    pub open spec fn retire(self, rd: u64, v: u64) -> (CpuModel, Result<u64, Exception>) {
        (self.with_reg(rd, v), Ok(self.next_pc()))
    }

    pub open spec fn exec_load(self, inst: u64) -> (CpuModel, Result<u64, Exception>) {
        let f3 = funct3_of(inst);
        match load_width(f3) {
            None => self.illegal(inst),
            Some(w) => {
                let (m, r) = self.load(wadd(self.x(rs1_of(inst)), i_imm(inst)), w);
                match r {
                    Err(e) => (m, Err(e)),
                    Ok(v) => m.retire(rd_of(inst), load_extend(f3, v)),
                }
            },
        }
    }

    pub open spec fn exec_store(self, inst: u64) -> (CpuModel, Result<u64, Exception>) {
        let f3 = funct3_of(inst);
        if f3 > 3 {
            self.illegal(inst)
        } else {
            let size: u64 = if f3 == 0 { 8 } else if f3 == 1 { 16 } else if f3 == 2 { 32 } else { 64 };
            let (m, r) = self.store(wadd(self.x(rs1_of(inst)), s_imm(inst)), size, self.x(rs2_of(inst)));
            match r {
                Err(e) => (m, Err(e)),
                Ok(_) => (m, Ok(self.next_pc())),
            }
        }
    }

    /// AMO: `t <- load; store(op(t, rs2)); rd <- t`, with LR loading only and
    /// SC storing only. Word forms sign-extend `t` into `rd`.
    pub open spec fn exec_amo(self, inst: u64) -> (CpuModel, Result<u64, Exception>) {
        let f3 = funct3_of(inst);
        let f5 = funct7_of(inst) >> 2;
        let word = f3 == 2;
        let size: u64 = if word { 32 } else { 64 };
        let addr = self.x(rs1_of(inst));
        let b = self.x(rs2_of(inst));
        if f3 != 2 && f3 != 3 {
            self.illegal(inst)
        } else if f5 == 2 {
            let (m, r) = self.load(addr, size);
            match r {
                Err(e) => (m, Err(e)),
                Ok(t) => m.retire(rd_of(inst), if word { sext32(t) } else { t }),
            }
        } else if f5 == 3 {
            let (m, r) = self.store(addr, size, b);
            match r {
                Err(e) => (m, Err(e)),
                Ok(_) => (m, Ok(self.next_pc())),
            }
        } else if amo_spec(f5, word, 0, 0) is None {
            self.illegal(inst)
        } else {
            let (m1, r1) = self.load(addr, size);
            match r1 {
                Err(e) => (m1, Err(e)),
                Ok(t) => {
                    let (m2, r2) = m1.store(addr, size, amo_spec(f5, word, t, b)->Some_0);
                    match r2 {
                        Err(e) => (m2, Err(e)),
                        Ok(_) => m2.retire(rd_of(inst), if word { sext32(t) } else { t }),
                    }
                },
            }
        }
    }

    pub open spec fn exec_alu(self, r: Option<u64>, inst: u64) -> (CpuModel, Result<u64, Exception>) {
        match r {
            None => self.illegal(inst),
            Some(v) => self.retire(rd_of(inst), v),
        }
    }

    pub open spec fn exec_branch(self, inst: u64) -> (CpuModel, Result<u64, Exception>) {
        match branch_spec(funct3_of(inst), self.x(rs1_of(inst)), self.x(rs2_of(inst))) {
            None => self.illegal(inst),
            Some(taken) => (self, Ok(if taken { wadd(self.pc, b_imm(inst)) } else { self.next_pc() })),
        }
    }

    /// SRET: SIE <- SPIE, SPIE <- 1, mode <- SPP, SPP <- 0, pc <- SEPC.
    pub open spec fn exec_sret(self) -> (CpuModel, Result<u64, Exception>) {
        let s = csr_read(self.csrs, SSTATUS as int);
        let spie = (s & MASK_SPIE) >> 5u64;
        let s1 = ((s & !MASK_SIE) | (spie << 1u64)) | MASK_SPIE;
        let s2 = s1 & !MASK_SPP;
        let c = csr_write(self.csrs, SSTATUS as int, s2);
        (
            CpuModel { mode: (s & MASK_SPP) >> 8u64, csrs: c, ..self },
            Ok(csr_read(c, SEPC as int) & !0b11u64),
        )
    }

    /// MRET: MIE <- MPIE, MPIE <- 1, mode <- MPP, MPP <- 0, MPRV cleared when
    /// the new mode is below machine mode, pc <- MEPC. The reserved MPP value
    /// 0b10 names no mode and returns to user mode.
    pub open spec fn exec_mret(self) -> (CpuModel, Result<u64, Exception>) {
        let s = csr_read(self.csrs, MSTATUS as int);
        let mpp = (s & MASK_MPP) >> 11u64;
        let mode = if mpp == 0b10 { USER } else { mpp };
        let mpie = (s & MASK_MPIE) >> 7u64;
        let s1 = ((s & !MASK_MIE) | (mpie << 3u64)) | MASK_MPIE;
        let s2 = s1 & !MASK_MPP;
        let s3 = if mode != MACHINE { s2 & !MASK_MPRV } else { s2 };
        let c = csr_write(self.csrs, MSTATUS as int, s3);
        (CpuModel { mode, csrs: c, ..self }, Ok(csr_read(c, MEPC as int) & !0b11u64))
    }

    /// The environment call of the current mode.
    pub open spec fn ecall(self) -> Exception {
        if self.mode == USER {
            Exception::EnvironmentCallFromUMode(self.pc)
        } else if self.mode == SUPERVISOR {
            Exception::EnvironmentCallFromSMode(self.pc)
        } else {
            Exception::EnvironmentCallFromMMode(self.pc)
        }
    }

    /// CSRRW/S/C and their immediate forms: the old value goes to `rd`.
    pub open spec fn exec_csr(self, inst: u64) -> (CpuModel, Result<u64, Exception>) {
        let f3 = funct3_of(inst);
        let a = csr_of(inst);
        let t = csr_read(self.csrs, a as int);
        let src = if f3 >= 5 { rs1_of(inst) } else { self.x(rs1_of(inst)) };
        let v = if f3 == 1 || f3 == 5 { src } else if f3 == 2 || f3 == 6 { t | src } else { t & !src };
        let m = CpuModel { csrs: csr_write(self.csrs, a as int, v), ..self };
        (m.with_reg(rd_of(inst), t).update_paging(a), Ok(self.next_pc()))
    }

    pub open spec fn exec_system(self, inst: u64) -> (CpuModel, Result<u64, Exception>) {
        let f3 = funct3_of(inst);
        let rs2 = rs2_of(inst);
        let f7 = funct7_of(inst);
        if f3 == 0 {
            if rs2 == 0 && f7 == 0 {
                (self, Err(self.ecall()))
            } else if rs2 == 1 && f7 == 0 {
                (self, Err(Exception::Breakpoint(self.pc)))
            } else if rs2 == 2 && f7 == 0x8 {
                self.exec_sret()
            } else if rs2 == 2 && f7 == 0x18 {
                self.exec_mret()
            } else if f7 == 0x9 {
                (self, Ok(self.next_pc()))
            } else {
                self.illegal(inst)
            }
        } else if f3 == 4 {
            self.illegal(inst)
        } else {
            self.exec_csr(inst)
        }
    }

    /// One instruction: the state after it, and the next pc or the trap it raised.
    pub open spec fn execute(self, inst: u64) -> (CpuModel, Result<u64, Exception>) {
        let opcode = opcode_of(inst);
        let f3 = funct3_of(inst);
        let f7 = funct7_of(inst);
        let rd = rd_of(inst);
        let a = self.x(rs1_of(inst));
        let b = self.x(rs2_of(inst));
        if opcode == 0x03 {
            self.exec_load(inst)
        } else if opcode == 0x0f {
            (self, Ok(self.next_pc()))
        } else if opcode == 0x13 {
            self.exec_alu(op_imm_spec(f3, f7, a, i_imm(inst)), inst)
        } else if opcode == 0x17 {
            self.retire(rd, wadd(self.pc, u_imm(inst)))
        } else if opcode == 0x1b {
            self.exec_alu(op_imm32_spec(f3, f7, a, i_imm(inst)), inst)
        } else if opcode == 0x23 {
            self.exec_store(inst)
        } else if opcode == 0x2f {
            self.exec_amo(inst)
        } else if opcode == 0x33 {
            self.exec_alu(op_spec(f3, f7, a, b), inst)
        } else if opcode == 0x37 {
            self.retire(rd, u_imm(inst))
        } else if opcode == 0x3b {
            self.exec_alu(op32_spec(f3, f7, a, b), inst)
        } else if opcode == 0x63 {
            self.exec_branch(inst)
        } else if opcode == 0x67 {
            (self.with_reg(rd, self.next_pc()), Ok(wadd(a, i_imm(inst)) & !1u64))
        } else if opcode == 0x6f {
            (self.with_reg(rd, self.next_pc()), Ok(wadd(self.pc, j_imm(inst))))
        } else if opcode == 0x73 {
            self.exec_system(inst)
        } else {
            self.illegal(inst)
        }
    }
}

pub struct Cpu {
    pub regs: [u64; 32],
    pub pc: u64,
    pub mode: u64,
    pub bus: Bus,
    pub csr: Csr,
    pub enable_paging: bool,
    pub page_table: u64,
}

impl View for Cpu {
    type V = CpuModel;

    open spec fn view(&self) -> CpuModel {
        CpuModel {
            regs: self.regs@,
            pc: self.pc,
            mode: self.mode,
            csrs: self.csr@,
            enable_paging: self.enable_paging,
            page_table: self.page_table,
            bus: self.bus@,
        }
    }
}

impl Cpu {
    /// `x0` holds zero, the mode is user, supervisor or machine, and DRAM has
    /// its full size.
    pub open spec fn wf(&self) -> bool {
        &&& self.regs@[0] == 0
        &&& (self.mode == USER || self.mode == SUPERVISOR || self.mode == MACHINE)
        &&& self.bus.wf()
    }

    /// A hart in machine mode at `DRAM_BASE` with `sp` at the end of DRAM,
    /// `code` loaded at the start of DRAM and paging off.
    pub fn new(code: Vec<u8>, disk_image: Vec<u8>) -> (r: Self)
        requires
            code.len() <= DRAM_SIZE,
        ensures
            r.wf(),
            r.pc == DRAM_BASE,
            r.mode == MACHINE,
            !r.enable_paging,
            r.page_table == 0,
            r.regs@[2] == DRAM_END,
            forall|i: int| 0 <= i < 32 && i != 2 ==> #[trigger] r.regs@[i] == 0,
            forall|i: int| 0 <= i < NUM_CSRS ==> #[trigger] r.csr@[i] == 0,
            r@.bus.dram.len() == DRAM_SIZE,
            forall|i: int| 0 <= i < code.len() ==> #[trigger] r@.bus.dram[i] == code@[i],
            forall|i: int| code.len() <= i < DRAM_SIZE ==> #[trigger] r@.bus.dram[i] == 0,
            r@.bus.virtio.disk == disk_image@,
    {
        let mut regs = [0u64; 32];
        regs[2] = DRAM_END;
        Cpu {
            regs,
            pc: DRAM_BASE,
            bus: Bus::new(code, disk_image),
            csr: Csr::new(),
            mode: MACHINE,
            page_table: 0,
            enable_paging: false,
        }
    }

    pub(crate) fn set_reg(&mut self, rd: usize, v: u64)
        requires
            old(self).wf(),
            rd < 32,
        ensures
            final(self).wf(),
            final(self)@ == old(self)@.with_reg(rd as u64, v),
    {
        if rd != 0 {
            self.regs[rd] = v;
        }
    }

    fn fault_for(access_type: AccessType, addr: u64) -> (r: Exception)
        ensures
            r == page_fault(access_type, addr),
    {
        match access_type {
            AccessType::Instruction => Exception::InstructionPageFault(addr),
            AccessType::Load => Exception::LoadPageFault(addr),
            AccessType::Store => Exception::StoreAMOPageFault(addr),
        }
    }

    /// Sv39 translation of `addr`; with paging off the address is returned as it is.
    pub fn translate(&mut self, addr: u64, access_type: AccessType) -> (r: Result<u64, Exception>)
        requires
            old(self).wf(),
        ensures
            final(self).wf(),
            final(self)@ == old(self)@,
            r == old(self)@.translate(addr, access_type),
    {
        if !self.enable_paging {
            return Ok(addr);
        }
        let mut a = self.page_table;
        let mut level: u64 = 2;
        loop
            invariant
                self.wf(),
                self@ == old(self)@,
                self.enable_paging,
                level <= 2,
                self@.walk(addr, access_type, a, level as nat) == old(self)@.translate(addr, access_type),
            decreases level,
        {
            let vpn = (addr >> (12 + 9 * level)) & 0x1ff;
            assert((addr >> (12 + 9 * level)) & 0x1ff <= 0x1ff) by (bit_vector);
            let ghost before = self@.bus;
            let pte_addr = a.wrapping_add(vpn * 8);
            let res = self.bus.load(pte_addr, 64);
            proof {
                lemma_wide_load_is_pure(before, pte_addr, 64);
            }
            let pte = match res {
                Ok(p) => p,
                Err(e) => {
                    return Err(e);
                },
            };
            let v = pte & 1;
            let r = (pte >> 1) & 1;
            let w = (pte >> 2) & 1;
            let x = (pte >> 3) & 1;
            if v == 0 || (r == 0 && w == 1) {
                return Err(Self::fault_for(access_type, addr));
            }
            if r == 1 || x == 1 {
                let offset = addr & 0xfff;
                let ppn2 = (pte >> 28) & 0x3ff_ffff;
                let pa = if level == 0 {
                    (((pte >> 10) & 0xfff_ffff_ffff) << 12) | offset
                } else if level == 1 {
                    (ppn2 << 30) | (((pte >> 19) & 0x1ff) << 21) | (((addr >> 12) & 0x1ff) << 12) | offset
                } else {
                    (ppn2 << 30) | (((addr >> 21) & 0x1ff) << 21) | (((addr >> 12) & 0x1ff) << 12) | offset
                };
                return Ok(pa);
            }
            if level == 0 {
                return Err(Self::fault_for(access_type, addr));
            }
            assert((pte >> 10) & 0xfff_ffff_ffff <= 0xfff_ffff_ffff) by (bit_vector);
            a = ((pte >> 10) & 0xfff_ffff_ffff) * PAGE_SIZE;
            level = level - 1;
        }
    }

    /// Loads `size` bits from virtual address `addr`.
    pub fn load(&mut self, addr: u64, size: u64) -> (r: Result<u64, Exception>)
        requires
            old(self).wf(),
        ensures
            final(self).wf(),
            (final(self)@, r) == old(self)@.load(addr, size),
    {
        let p_addr = self.translate(addr, AccessType::Load)?;
        self.bus.load(p_addr, size)
    }

    /// Stores the low `size` bits of `value` at virtual address `addr`.
    pub fn store(&mut self, addr: u64, size: u64, value: u64) -> (r: Result<(), Exception>)
        requires
            old(self).wf(),
        ensures
            final(self).wf(),
            (final(self)@, r) == old(self)@.store(addr, size, value),
    {
        let p_addr = self.translate(addr, AccessType::Store)?;
        self.bus.store(p_addr, size, value)
    }

    /// The instruction word at `pc`.
    pub fn fetch(&mut self) -> (r: Result<u64, Exception>)
        requires
            old(self).wf(),
        ensures
            final(self).wf(),
            (final(self)@, r) == old(self)@.fetch(),
    {
        let p_pc = self.translate(self.pc, AccessType::Instruction)?;
        match self.bus.load(p_pc, 32) {
            Ok(inst) => Ok(inst),
            Err(_e) => Err(Exception::InstructionAccessFault(self.pc)),
        }
    }
}

/// Instructions that may leave the sequential path: branches, JAL, JALR,
/// SRET and MRET.
pub open spec fn redirects_pc(inst: u64) -> bool {
    let opcode = opcode_of(inst);
    ||| opcode == 0x63
    ||| opcode == 0x67
    ||| opcode == 0x6f
    ||| (opcode == 0x73 && funct3_of(inst) == 0 && rs2_of(inst) == 2 && (funct7_of(inst) == 0x8
        || funct7_of(inst) == 0x18))
}

/// Every other instruction that does not trap continues at `pc + 4`.
pub proof fn lemma_sequential_pc(m: CpuModel, inst: u64)
    requires
        !redirects_pc(inst),
        m.execute(inst).1 is Ok,
    ensures
        m.execute(inst).1 == Ok::<u64, Exception>(wadd(m.pc, 4)),
{
}

proof fn lemma_with_reg_keeps_x0(c: CpuModel, rd: u64, v: u64)
    requires
        c.regs.len() == 32,
        c.regs[0] == 0,
        rd < 32,
    ensures
        c.with_reg(rd, v).regs[0] == 0,
        c.with_reg(rd, v).regs.len() == 32,
{
}

proof fn lemma_memory_keeps_regs(c: CpuModel, a: u64, size: u64, v: u64)
    ensures
        c.load(a, size).0.regs == c.regs,
        c.store(a, size, v).0.regs == c.regs,
{
}

proof fn lemma_handlers_keep_x0(m: CpuModel, inst: u64)
    requires
        m.regs.len() == 32,
        m.regs[0] == 0,
    ensures
        m.exec_load(inst).0.regs[0] == 0 && m.exec_load(inst).0.regs.len() == 32,
        m.exec_store(inst).0.regs == m.regs,
        m.exec_amo(inst).0.regs[0] == 0 && m.exec_amo(inst).0.regs.len() == 32,
        m.exec_system(inst).0.regs[0] == 0 && m.exec_system(inst).0.regs.len() == 32,
{
    let rd = rd_of(inst);
    assert(rd < 32) by (bit_vector)
        requires
            rd == (inst >> 7u64) & 0x1f,
    ;
    let a = m.x(rs1_of(inst));
    let w: u64 = if funct3_of(inst) == 2 { 32 } else { 64 };
    lemma_memory_keeps_regs(m, wadd(a, i_imm(inst)), load_width(funct3_of(inst))->Some_0, 0);
    lemma_with_reg_keeps_x0(
        m.load(wadd(a, i_imm(inst)), load_width(funct3_of(inst))->Some_0).0,
        rd,
        load_extend(funct3_of(inst), m.load(wadd(a, i_imm(inst)), load_width(funct3_of(inst))->Some_0).1->Ok_0),
    );
    lemma_memory_keeps_regs(m, wadd(a, s_imm(inst)), 8, m.x(rs2_of(inst)));
    lemma_memory_keeps_regs(m, wadd(a, s_imm(inst)), 16, m.x(rs2_of(inst)));
    lemma_memory_keeps_regs(m, wadd(a, s_imm(inst)), 32, m.x(rs2_of(inst)));
    lemma_memory_keeps_regs(m, wadd(a, s_imm(inst)), 64, m.x(rs2_of(inst)));
    let (m1, r1) = m.load(a, w);
    lemma_memory_keeps_regs(m, a, w, m.x(rs2_of(inst)));
    lemma_with_reg_keeps_x0(m1, rd, if w == 32 { sext32(r1->Ok_0) } else { r1->Ok_0 });
    let f5 = funct7_of(inst) >> 2;
    let v = amo_spec(f5, w == 32, r1->Ok_0, m.x(rs2_of(inst)))->Some_0;
    lemma_memory_keeps_regs(m1, a, w, v);
    lemma_with_reg_keeps_x0(m1.store(a, w, v).0, rd, if w == 32 { sext32(r1->Ok_0) } else { r1->Ok_0 });
    let t = csr_read(m.csrs, csr_of(inst) as int);
    let src = if funct3_of(inst) >= 5 { rs1_of(inst) } else { m.x(rs1_of(inst)) };
    let f3 = funct3_of(inst);
    let nv = if f3 == 1 || f3 == 5 { src } else if f3 == 2 || f3 == 6 { t | src } else { t & !src };
    let mc = CpuModel { csrs: csr_write(m.csrs, csr_of(inst) as int, nv), ..m };
    lemma_with_reg_keeps_x0(mc, rd, t);
}

/// Executing an instruction never makes `x0` read as anything but zero.
#[verifier::rlimit(40)]
pub proof fn lemma_x0_stays_zero(m: CpuModel, inst: u64)
    requires
        m.regs.len() == 32,
        m.regs[0] == 0,
    ensures
        m.execute(inst).0.regs[0] == 0,
        m.execute(inst).0.regs.len() == 32,
{
    let rd = rd_of(inst);
    assert(rd < 32) by (bit_vector)
        requires
            rd == (inst >> 7u64) & 0x1f,
    ;
    lemma_handlers_keep_x0(m, inst);
    lemma_with_reg_keeps_x0(m, rd, m.next_pc());
    lemma_with_reg_keeps_x0(m, rd, wadd(m.pc, u_imm(inst)));
    lemma_with_reg_keeps_x0(m, rd, u_imm(inst));
    let a = m.x(rs1_of(inst));
    let b = m.x(rs2_of(inst));
    let f3 = funct3_of(inst);
    let f7 = funct7_of(inst);
    let opcode = opcode_of(inst);
    if opcode == 0x13 {
        lemma_with_reg_keeps_x0(m, rd, op_imm_spec(f3, f7, a, i_imm(inst))->Some_0);
    } else if opcode == 0x1b {
        lemma_with_reg_keeps_x0(m, rd, op_imm32_spec(f3, f7, a, i_imm(inst))->Some_0);
    } else if opcode == 0x33 {
        lemma_with_reg_keeps_x0(m, rd, op_spec(f3, f7, a, b)->Some_0);
    } else if opcode == 0x3b {
        lemma_with_reg_keeps_x0(m, rd, op32_spec(f3, f7, a, b)->Some_0);
    }
}

/// A CSR instruction that writes SATP turns paging on exactly when the mode
/// field of the value written is 8 (Sv39), and takes the root table from its
/// PPN field.
pub proof fn lemma_satp_write(m: CpuModel, inst: u64)
    requires
        m.csrs.len() == NUM_CSRS,
        opcode_of(inst) == 0x73,
        funct3_of(inst) != 0 && funct3_of(inst) != 4,
        csr_of(inst) == SATP,
    ensures
        ({
            let n = m.execute(inst).0;
            &&& n.enable_paging == ((n.csrs[SATP as int] >> 60u64) == 8)
            &&& n.page_table == ((n.csrs[SATP as int] & MASK_PPN) * PAGE_SIZE) as u64
        }),
{
}

/// Division by zero never traps: DIV, DIVU, DIVW and DIVUW write all ones,
/// REM and REMU the dividend, REMW and REMUW the dividend's low word
/// sign-extended, and the hart goes on to `pc + 4`.
pub proof fn lemma_divide_by_zero_retires(m: CpuModel, inst: u64)
    requires
        opcode_of(inst) == 0x33 || opcode_of(inst) == 0x3b,
        funct7_of(inst) == 1,
        funct3_of(inst) >= 4,
        opcode_of(inst) == 0x33 ==> m.x(rs2_of(inst)) == 0,
        opcode_of(inst) == 0x3b ==> m.x(rs2_of(inst)) & LOW32 == 0,
    ensures
        ({
            let a = m.x(rs1_of(inst));
            let v = if funct3_of(inst) <= 5 {
                ALL_ONES
            } else if opcode_of(inst) == 0x33 {
                a
            } else {
                sext32(a)
            };
            m.execute(inst) == m.retire(rd_of(inst), v)
        }),
{
    assert(funct3_of(inst) <= 7) by (bit_vector)
        requires
            funct3_of(inst) == (inst >> 12u64) & 0x7,
    ;
    if opcode_of(inst) == 0x33 {
        assert(0u64 & LOW32 == 0) by (bit_vector);
        lemma_divide_by_zero(m.x(rs1_of(inst)), 0);
    } else {
        lemma_divide_by_zero(m.x(rs1_of(inst)), m.x(rs2_of(inst)));
    }
}

/// Reprogramming translation: after a CSR write to SATP, paging is on
/// exactly when SATP's mode field is 8 and the root table is SATP's PPN times
/// the page size; after a write to any other CSR nothing changes. Registers,
/// pc, CSRs and memory are never touched.
pub proof fn lemma_update_paging(m: CpuModel, csr: u64)
    ensures
        ({
            let n = m.update_paging(csr);
            &&& n.regs == m.regs && n.pc == m.pc && n.csrs == m.csrs && n.bus == m.bus && n.mode == m.mode
            &&& csr == SATP ==> n.enable_paging == ((m.csrs[SATP as int] >> 60u64) == 8)
                && n.page_table == ((m.csrs[SATP as int] & MASK_PPN) * PAGE_SIZE) as u64
            &&& csr != SATP ==> n == m
        }),
{
}

/// A load that succeeds writes the value read, extended as its `funct3`
/// says, to `rd` and goes on to `pc + 4`.
pub proof fn lemma_load_writes_extended(m: CpuModel, inst: u64)
    requires
        opcode_of(inst) == 0x03,
        load_width(funct3_of(inst)) is Some,
        m.load(wadd(m.x(rs1_of(inst)), i_imm(inst)), load_width(funct3_of(inst))->Some_0).1 is Ok,
    ensures
        ({
            let (l, r) = m.load(wadd(m.x(rs1_of(inst)), i_imm(inst)), load_width(funct3_of(inst))->Some_0);
            m.execute(inst) == l.retire(rd_of(inst), load_extend(funct3_of(inst), r->Ok_0))
        }),
{
}

} // verus!
