//! Instruction fields and immediates of the standard RISC-V formats.

use vstd::prelude::*;

verus! {

pub open spec fn opcode_of(inst: u64) -> u64 {
    inst & 0x7f
}

pub open spec fn rd_of(inst: u64) -> u64 {
    (inst >> 7) & 0x1f
}

pub open spec fn funct3_of(inst: u64) -> u64 {
    (inst >> 12) & 0x7
}

pub open spec fn rs1_of(inst: u64) -> u64 {
    (inst >> 15) & 0x1f
}

pub open spec fn rs2_of(inst: u64) -> u64 {
    (inst >> 20) & 0x1f
}

pub open spec fn funct7_of(inst: u64) -> u64 {
    (inst >> 25) & 0x7f
}

/// The CSR address of a SYSTEM instruction.
pub open spec fn csr_of(inst: u64) -> u64 {
    (inst >> 20) & 0xfff
}

/// I-type immediate: `inst[31:20]`, sign-extended.
pub open spec fn i_imm(inst: u64) -> u64 {
    let v = (inst >> 20) & 0xfff;
    if v & 0x800 != 0 { v | 0xffff_ffff_ffff_f000 } else { v }
}

/// S-type immediate: `inst[31:25] ++ inst[11:7]`, sign-extended.
pub open spec fn s_imm(inst: u64) -> u64 {
    let v = (((inst >> 25) & 0x7f) << 5) | ((inst >> 7) & 0x1f);
    if v & 0x800 != 0 { v | 0xffff_ffff_ffff_f000 } else { v }
}

/// B-type immediate: `inst[31] ++ inst[7] ++ inst[30:25] ++ inst[11:8] ++ 0`,
/// sign-extended.
pub open spec fn b_imm(inst: u64) -> u64 {
    let v = (((inst >> 31) & 1) << 12) | (((inst >> 7) & 1) << 11) | (((inst >> 25) & 0x3f) << 5) | (((
    inst >> 8) & 0xf) << 1);
    if v & 0x1000 != 0 { v | 0xffff_ffff_ffff_e000 } else { v }
}

/// U-type immediate: `inst[31:12] ++ 0^12`, sign-extended.
pub open spec fn u_imm(inst: u64) -> u64 {
    let v = inst & 0xffff_f000;
    if v & 0x8000_0000 != 0 { v | 0xffff_ffff_0000_0000 } else { v }
}

/// J-type immediate: `inst[31] ++ inst[19:12] ++ inst[20] ++ inst[30:21] ++ 0`,
/// sign-extended.
pub open spec fn j_imm(inst: u64) -> u64 {
    let v = (((inst >> 31) & 1) << 20) | (((inst >> 12) & 0xff) << 12) | (((inst >> 20) & 1) << 11) | (((
    inst >> 21) & 0x3ff) << 1);
    if v & 0x10_0000 != 0 { v | 0xffff_ffff_ffe0_0000 } else { v }
}

/// Splits an instruction into `(funct7, rs2, rs1, funct3, rd, opcode)`.
pub fn decode_r(inst: u64) -> (r: (u64, usize, usize, u64, usize, u64))
    ensures
        r.0 == funct7_of(inst),
        r.1 == rs2_of(inst) && r.1 < 32,
        r.2 == rs1_of(inst) && r.2 < 32,
        r.3 == funct3_of(inst),
        r.4 == rd_of(inst) && r.4 < 32,
        r.5 == opcode_of(inst),
{
    assert((inst >> 20) & 0x1f < 32 && (inst >> 15) & 0x1f < 32 && (inst >> 7) & 0x1f < 32)
        by (bit_vector);
    (
        (inst >> 25) & 0x7f,
        ((inst >> 20) & 0x1f) as usize,
        ((inst >> 15) & 0x1f) as usize,
        (inst >> 12) & 0x7,
        ((inst >> 7) & 0x1f) as usize,
        inst & 0x7f,
    )
}

pub fn get_i_imm(inst: u64) -> (r: u64)
    ensures
        r == i_imm(inst),
{
    let v = (inst >> 20) & 0xfff;
    if v & 0x800 != 0 { v | 0xffff_ffff_ffff_f000 } else { v }
}

pub fn get_s_imm(inst: u64) -> (r: u64)
    ensures
        r == s_imm(inst),
{
    let v = (((inst >> 25) & 0x7f) << 5) | ((inst >> 7) & 0x1f);
    if v & 0x800 != 0 { v | 0xffff_ffff_ffff_f000 } else { v }
}

pub fn get_b_imm(inst: u64) -> (r: u64)
    ensures
        r == b_imm(inst),
{
    let v = (((inst >> 31) & 1) << 12) | (((inst >> 7) & 1) << 11) | (((inst >> 25) & 0x3f) << 5) | (((
    inst >> 8) & 0xf) << 1);
    if v & 0x1000 != 0 { v | 0xffff_ffff_ffff_e000 } else { v }
}

pub fn get_u_imm(inst: u64) -> (r: u64)
    ensures
        r == u_imm(inst),
{
    let v = inst & 0xffff_f000;
    if v & 0x8000_0000 != 0 { v | 0xffff_ffff_0000_0000 } else { v }
}

pub fn get_j_imm(inst: u64) -> (r: u64)
    ensures
        r == j_imm(inst),
{
    let v = (((inst >> 31) & 1) << 20) | (((inst >> 12) & 0xff) << 12) | (((inst >> 20) & 1) << 11) | (((
    inst >> 21) & 0x3ff) << 1);
    if v & 0x10_0000 != 0 { v | 0xffff_ffff_ffe0_0000 } else { v }
}

} // verus!
