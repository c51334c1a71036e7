//! The interpreter of one instruction, one handler per major opcode.

use vstd::prelude::*;
use crate::alu::{amo, branch, extend_loaded, op, op32, op_imm, op_imm32, sign_extend_32};
use crate::cpu::{Cpu, MACHINE, SUPERVISOR, USER};
use crate::csr::{
    MASK_MIE, MASK_MPIE, MASK_MPP, MASK_MPRV, MASK_PPN, MASK_SIE, MASK_SPIE, MASK_SPP, MEPC,
    MSTATUS, SATP, SEPC, SSTATUS,
};
use crate::decode::{
    decode_r, funct3_of, funct7_of, get_b_imm, get_i_imm, get_j_imm, get_s_imm, get_u_imm, rd_of,
    rs1_of, rs2_of,
};
use crate::exception::Exception;
use crate::param::PAGE_SIZE;

verus! {

impl Cpu {
    /// Writes an operation's result to `rd`, or raises an illegal instruction.
    fn write_result(&mut self, r: Option<u64>, inst: u64, rd: usize) -> (res: Result<u64, Exception>)
        requires
            old(self).wf(),
            rd == rd_of(inst) && rd < 32,
        ensures
            final(self).wf(),
            (final(self)@, res) == old(self)@.exec_alu(r, inst),
    {
        match r {
            None => Err(Exception::IllegalInstruction(inst)),
            Some(v) => {
                self.set_reg(rd, v);
                Ok(self.pc.wrapping_add(4))
            },
        }
    }

    fn exec_load(&mut self, inst: u64, funct3: u64, rd: usize, rs1: usize) -> (r: Result<u64, Exception>)
        requires
            old(self).wf(),
            funct3 == funct3_of(inst),
            rd == rd_of(inst) && rd < 32,
            rs1 == rs1_of(inst) && rs1 < 32,
        ensures
            final(self).wf(),
            (final(self)@, r) == old(self)@.exec_load(inst),
    {
        let size: u64 = match funct3 {
            0 | 4 => 8,
            1 | 5 => 16,
            2 | 6 => 32,
            3 => 64,
            _ => {
                return Err(Exception::IllegalInstruction(inst));
            },
        };
        let addr = self.regs[rs1].wrapping_add(get_i_imm(inst));
        let v = self.load(addr, size)?;
        self.set_reg(rd, extend_loaded(funct3, v));
        Ok(self.pc.wrapping_add(4))
    }

    fn exec_store(&mut self, inst: u64, funct3: u64, rs1: usize, rs2: usize) -> (r: Result<u64, Exception>)
        requires
            old(self).wf(),
            funct3 == funct3_of(inst),
            rs1 == rs1_of(inst) && rs1 < 32,
            rs2 == rs2_of(inst) && rs2 < 32,
        ensures
            final(self).wf(),
            (final(self)@, r) == old(self)@.exec_store(inst),
    {
        let size: u64 = match funct3 {
            0 => 8,
            1 => 16,
            2 => 32,
            3 => 64,
            _ => {
                return Err(Exception::IllegalInstruction(inst));
            },
        };
        let addr = self.regs[rs1].wrapping_add(get_s_imm(inst));
        self.store(addr, size, self.regs[rs2])?;
        Ok(self.pc.wrapping_add(4))
    }

    fn exec_amo(&mut self, inst: u64, funct3: u64, funct7: u64, rd: usize, rs1: usize, rs2: usize) -> (r:
        Result<u64, Exception>)
        requires
            old(self).wf(),
            funct3 == funct3_of(inst),
            funct7 == funct7_of(inst),
            rd == rd_of(inst) && rd < 32,
            rs1 == rs1_of(inst) && rs1 < 32,
            rs2 == rs2_of(inst) && rs2 < 32,
        ensures
            final(self).wf(),
            (final(self)@, r) == old(self)@.exec_amo(inst),
    {
        let funct5 = funct7 >> 2;
        if funct3 != 2 && funct3 != 3 {
            return Err(Exception::IllegalInstruction(inst));
        }
        let word = funct3 == 2;
        let size: u64 = if word { 32 } else { 64 };
        let addr = self.regs[rs1];
        let b = self.regs[rs2];
        if funct5 == 2 {
            let t = self.load(addr, size)?;
            self.set_reg(rd, if word { sign_extend_32(t) } else { t });
        } else if funct5 == 3 {
            self.store(addr, size, b)?;
        } else {
            if amo(funct5, word, 0, 0).is_none() {
                return Err(Exception::IllegalInstruction(inst));
            }
            let t = self.load(addr, size)?;
            let v = match amo(funct5, word, t, b) {
                Some(v) => v,
                None => {
                    return Err(Exception::IllegalInstruction(inst));
                },
            };
            self.store(addr, size, v)?;
            self.set_reg(rd, if word { sign_extend_32(t) } else { t });
        }
        Ok(self.pc.wrapping_add(4))
    }

    /// Reprograms translation after a write to SATP.
    fn update_paging(&mut self, csr_addr: usize)
        requires
            old(self).wf(),
        ensures
            final(self).wf(),
            final(self)@ == old(self)@.update_paging(csr_addr as u64),
    {
        if csr_addr != SATP {
            return;
        }
        let satp = self.csr.load(SATP);
        assert(satp & MASK_PPN <= 0xfff_ffff_ffff) by (bit_vector);
        self.page_table = (satp & MASK_PPN) * PAGE_SIZE;
        self.enable_paging = (satp >> 60) == 8;
    }

    fn exec_sret(&mut self) -> (r: Result<u64, Exception>)
        requires
            old(self).wf(),
        ensures
            final(self).wf(),
            (final(self)@, r) == old(self)@.exec_sret(),
    {
        let mut sstatus = self.csr.load(SSTATUS);
        assert((sstatus & MASK_SPP) >> 8 <= 1) by (bit_vector);
        self.mode = (sstatus & MASK_SPP) >> 8;
        let spie = (sstatus & MASK_SPIE) >> 5;
        sstatus = (sstatus & !MASK_SIE) | (spie << 1);
        sstatus = sstatus | MASK_SPIE;
        sstatus = sstatus & !MASK_SPP;
        self.csr.store(SSTATUS, sstatus);
        Ok(self.csr.load(SEPC) & !0b11)
    }

    fn exec_mret(&mut self) -> (r: Result<u64, Exception>)
        requires
            old(self).wf(),
        ensures
            final(self).wf(),
            (final(self)@, r) == old(self)@.exec_mret(),
    {
        let mut mstatus = self.csr.load(MSTATUS);
        let mpp = (mstatus & MASK_MPP) >> 11;
        assert((mstatus & MASK_MPP) >> 11 <= 3) by (bit_vector);
        let mode = if mpp == 0b10 { USER } else { mpp };
        self.mode = mode;
        let mpie = (mstatus & MASK_MPIE) >> 7;
        mstatus = (mstatus & !MASK_MIE) | (mpie << 3);
        mstatus = mstatus | MASK_MPIE;
        mstatus = mstatus & !MASK_MPP;
        if mode != MACHINE {
            mstatus = mstatus & !MASK_MPRV;
        }
        self.csr.store(MSTATUS, mstatus);
        Ok(self.csr.load(MEPC) & !0b11)
    }

    fn exec_system(&mut self, inst: u64, funct3: u64, funct7: u64, rd: usize, rs1: usize, rs2: usize) -> (r:
        Result<u64, Exception>)
        requires
            old(self).wf(),
            funct3 == funct3_of(inst),
            funct7 == funct7_of(inst),
            rd == rd_of(inst) && rd < 32,
            rs1 == rs1_of(inst) && rs1 < 32,
            rs2 == rs2_of(inst) && rs2 < 32,
        ensures
            final(self).wf(),
            (final(self)@, r) == old(self)@.exec_system(inst),
    {
        if funct3 == 0 {
            if rs2 == 0 && funct7 == 0 {
                // ECALL records the pc of the call itself.
                if self.mode == USER {
                    Err(Exception::EnvironmentCallFromUMode(self.pc))
                } else if self.mode == SUPERVISOR {
                    Err(Exception::EnvironmentCallFromSMode(self.pc))
                } else {
                    Err(Exception::EnvironmentCallFromMMode(self.pc))
                }
            } else if rs2 == 1 && funct7 == 0 {
                Err(Exception::Breakpoint(self.pc))
            } else if rs2 == 2 && funct7 == 0x8 {
                self.exec_sret()
            } else if rs2 == 2 && funct7 == 0x18 {
                self.exec_mret()
            } else if funct7 == 0x9 {
                // SFENCE.VMA: no translation is cached.
                Ok(self.pc.wrapping_add(4))
            } else {
                Err(Exception::IllegalInstruction(inst))
            }
        } else if funct3 == 4 {
            Err(Exception::IllegalInstruction(inst))
        } else {
            assert((inst >> 20) & 0xfff < 4096) by (bit_vector);
            let csr_addr = ((inst >> 20) & 0xfff) as usize;
            let t = self.csr.load(csr_addr);
            let src = if funct3 >= 5 { rs1 as u64 } else { self.regs[rs1] };
            let v = if funct3 == 1 || funct3 == 5 {
                src
            } else if funct3 == 2 || funct3 == 6 {
                t | src
            } else {
                t & !src
            };
            self.csr.store(csr_addr, v);
            self.set_reg(rd, t);
            self.update_paging(csr_addr);
            Ok(self.pc.wrapping_add(4))
        }
    }

    /// Executes `inst` and returns the next pc, or the trap it raised.
    pub fn execute(&mut self, inst: u64) -> (r: Result<u64, Exception>)
        requires
            old(self).wf(),
        ensures
            final(self).wf(),
            (final(self)@, r) == old(self)@.execute(inst),
    {
        let (funct7, rs2, rs1, funct3, rd, opcode) = decode_r(inst);
        match opcode {
            0x03 => self.exec_load(inst, funct3, rd, rs1),
            // FENCE: instructions run one at a time on one hart.
            0x0f => Ok(self.pc.wrapping_add(4)),
            0x13 => {
                let r = op_imm(funct3, funct7, self.regs[rs1], get_i_imm(inst));
                self.write_result(r, inst, rd)
            },
            0x17 => {
                let v = self.pc.wrapping_add(get_u_imm(inst));
                self.write_result(Some(v), inst, rd)
            },
            0x1b => {
                let r = op_imm32(funct3, funct7, self.regs[rs1], get_i_imm(inst));
                self.write_result(r, inst, rd)
            },
            0x23 => self.exec_store(inst, funct3, rs1, rs2),
            0x2f => self.exec_amo(inst, funct3, funct7, rd, rs1, rs2),
            0x33 => {
                let r = op(funct3, funct7, self.regs[rs1], self.regs[rs2]);
                self.write_result(r, inst, rd)
            },
            0x37 => self.write_result(Some(get_u_imm(inst)), inst, rd),
            0x3b => {
                let r = op32(funct3, funct7, self.regs[rs1], self.regs[rs2]);
                self.write_result(r, inst, rd)
            },
            0x63 => match branch(funct3, self.regs[rs1], self.regs[rs2]) {
                None => Err(Exception::IllegalInstruction(inst)),
                Some(taken) => {
                    if taken {
                        Ok(self.pc.wrapping_add(get_b_imm(inst)))
                    } else {
                        Ok(self.pc.wrapping_add(4))
                    }
                },
            },
            0x67 => {
                // rd may be rs1: the target is computed first.
                let t = self.pc.wrapping_add(4);
                let new_pc = self.regs[rs1].wrapping_add(get_i_imm(inst)) & !1;
                self.set_reg(rd, t);
                Ok(new_pc)
            },
            0x6f => {
                let t = self.pc.wrapping_add(4);
                self.set_reg(rd, t);
                Ok(self.pc.wrapping_add(get_j_imm(inst)))
            },
            0x73 => self.exec_system(inst, funct3, funct7, rd, rs1, rs2),
            _ => Err(Exception::IllegalInstruction(inst)),
        }
    }
}

} // verus!
