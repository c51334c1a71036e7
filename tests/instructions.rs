use rvemu::cpu::Cpu;
use rvemu::csr::{MEPC, MSTATUS, MTVEC, SEPC, SSTATUS, STVEC};
use rvemu::param::DRAM_BASE;

// Instruction encoders for the standard formats.
fn r_type(funct7: u32, rs2: u32, rs1: u32, funct3: u32, rd: u32, opcode: u32) -> u32 {
    (funct7 << 25) | (rs2 << 20) | (rs1 << 15) | (funct3 << 12) | (rd << 7) | opcode
}

fn i_type(imm: i32, rs1: u32, funct3: u32, rd: u32, opcode: u32) -> u32 {
    (((imm as u32) & 0xfff) << 20) | (rs1 << 15) | (funct3 << 12) | (rd << 7) | opcode
}

fn s_type(imm: i32, rs2: u32, rs1: u32, funct3: u32, opcode: u32) -> u32 {
    let imm = imm as u32;
    (((imm >> 5) & 0x7f) << 25) | (rs2 << 20) | (rs1 << 15) | (funct3 << 12) | ((imm & 0x1f) << 7) | opcode
}

fn b_type(imm: i32, rs2: u32, rs1: u32, funct3: u32) -> u32 {
    let imm = imm as u32;
    (((imm >> 12) & 1) << 31)
        | (((imm >> 5) & 0x3f) << 25)
        | (rs2 << 20)
        | (rs1 << 15)
        | (funct3 << 12)
        | (((imm >> 1) & 0xf) << 8)
        | (((imm >> 11) & 1) << 7)
        | 0x63
}

fn j_type(imm: i32, rd: u32) -> u32 {
    let imm = imm as u32;
    (((imm >> 20) & 1) << 31)
        | (((imm >> 1) & 0x3ff) << 21)
        | (((imm >> 11) & 1) << 20)
        | (((imm >> 12) & 0xff) << 12)
        | (rd << 7)
        | 0x6f
}

fn addi(rd: u32, rs1: u32, imm: i32) -> u32 {
    i_type(imm, rs1, 0, rd, 0x13)
}
fn slti(rd: u32, rs1: u32, imm: i32) -> u32 {
    i_type(imm, rs1, 2, rd, 0x13)
}
fn sltiu(rd: u32, rs1: u32, imm: i32) -> u32 {
    i_type(imm, rs1, 3, rd, 0x13)
}
fn xori(rd: u32, rs1: u32, imm: i32) -> u32 {
    i_type(imm, rs1, 4, rd, 0x13)
}
fn ori(rd: u32, rs1: u32, imm: i32) -> u32 {
    i_type(imm, rs1, 6, rd, 0x13)
}
fn andi(rd: u32, rs1: u32, imm: i32) -> u32 {
    i_type(imm, rs1, 7, rd, 0x13)
}
fn slli(rd: u32, rs1: u32, sh: i32) -> u32 {
    i_type(sh, rs1, 1, rd, 0x13)
}
fn srli(rd: u32, rs1: u32, sh: i32) -> u32 {
    i_type(sh, rs1, 5, rd, 0x13)
}
fn srai(rd: u32, rs1: u32, sh: i32) -> u32 {
    i_type(0x400 | sh, rs1, 5, rd, 0x13)
}
fn addiw(rd: u32, rs1: u32, imm: i32) -> u32 {
    i_type(imm, rs1, 0, rd, 0x1b)
}
fn lui(rd: u32, imm20: u32) -> u32 {
    (imm20 << 12) | (rd << 7) | 0x37
}
fn auipc(rd: u32, imm20: u32) -> u32 {
    (imm20 << 12) | (rd << 7) | 0x17
}
fn op(funct7: u32, funct3: u32, rd: u32, rs1: u32, rs2: u32) -> u32 {
    r_type(funct7, rs2, rs1, funct3, rd, 0x33)
}
fn op32(funct7: u32, funct3: u32, rd: u32, rs1: u32, rs2: u32) -> u32 {
    r_type(funct7, rs2, rs1, funct3, rd, 0x3b)
}
fn load(funct3: u32, rd: u32, imm: i32, rs1: u32) -> u32 {
    i_type(imm, rs1, funct3, rd, 0x03)
}
fn store(funct3: u32, rs2: u32, imm: i32, rs1: u32) -> u32 {
    s_type(imm, rs2, rs1, funct3, 0x23)
}
fn jal(rd: u32, imm: i32) -> u32 {
    j_type(imm, rd)
}
fn jalr(rd: u32, rs1: u32, imm: i32) -> u32 {
    i_type(imm, rs1, 0, rd, 0x67)
}
fn ret() -> u32 {
    jalr(0, 1, 0)
}
fn amo(funct5: u32, funct3: u32, rd: u32, rs2: u32, rs1: u32) -> u32 {
    r_type(funct5 << 2, rs2, rs1, funct3, rd, 0x2f)
}
fn csr(funct3: u32, rd: u32, csr: usize, rs1: u32) -> u32 {
    ((csr as u32) << 20) | (rs1 << 15) | (funct3 << 12) | (rd << 7) | 0x73
}

const ZERO: u32 = 0;
const RA: u32 = 1;
const SP: u32 = 2;
const T0: u32 = 5;
const T1: u32 = 6;
const T2: u32 = 7;
const S0: u32 = 8;
const A0: u32 = 10;
const A1: u32 = 11;
const A2: u32 = 12;

/// Loads the program at the start of DRAM and runs it for `ticks` ticks.
fn run(program: &[u32], ticks: u64) -> Cpu {
    let mut code = Vec::new();
    for w in program {
        code.extend_from_slice(&w.to_le_bytes());
    }
    let mut cpu = Cpu::new(code, vec![0]);
    cpu.run(ticks);
    cpu
}

#[test]
fn test_addi_1() {
    let cpu = run(&[addi(1, 0, 42)], 1);
    assert_eq!(cpu.reg("x1"), 42);
}

#[test]
fn test_addi_2() {
    let cpu = run(&[addi(1, 0, -42)], 1);
    assert_eq!(cpu.reg("x1"), -42_i64 as u64);
}

#[test]
fn test_add() {
    let cpu = run(&[addi(29, 0, 2), addi(30, 0, 10), op(0, 0, 31, 30, 29)], 3);
    assert_eq!(cpu.reg("x31"), 12);
}

#[test]
fn test_lui() {
    let cpu = run(&[lui(31, 20)], 1);
    assert_eq!(cpu.reg("x31"), 81920);
}

#[test]
fn test_auipc_1() {
    let cpu = run(&[auipc(31, 42)], 1);
    assert_eq!(cpu.reg("x31"), (42 << 12) + DRAM_BASE);
}

#[test]
fn test_auipc_2() {
    let cpu = run(&[addi(20, 21, 0), auipc(31, 1)], 2);
    assert_eq!(cpu.reg("x31"), (1 << 12) + DRAM_BASE + 4);
}

#[test]
fn test_jal() {
    let cpu = run(&[addi(20, 20, 1), jal(1, 8), addi(20, 20, 1), addi(20, 20, 1)], 4);
    assert_eq!(cpu.reg("x20"), 2);
}

#[test]
fn test_jalr() {
    let cpu = run(&[addi(A1, ZERO, 42), jalr(A0, A1, -8)], 2);
    assert_eq!(cpu.reg("a0"), DRAM_BASE + 8);
    assert_eq!(cpu.reg("pc"), 34);
}

#[test]
fn test_beq() {
    let cpu = run(&[addi(20, 20, 8), addi(21, 21, 8), b_type(-4, 21, 20, 0), addi(31, 0, 1)], 6);
    assert_eq!(cpu.reg("x21"), 16);
    assert_eq!(cpu.reg("x31"), 1);
}

#[test]
fn test_bne() {
    let cpu = run(&[addi(20, 20, 8), addi(21, 21, 1), b_type(-4, 21, 20, 1), addi(31, 0, 1)], 20);
    assert_eq!(cpu.reg("x21"), 8);
    assert_eq!(cpu.reg("x31"), 1);
}

#[test]
fn test_blt() {
    let cpu = run(&[addi(20, 20, 8), addi(21, 21, 1), b_type(-4, 20, 21, 4), addi(31, 0, 1)], 20);
    assert_eq!(cpu.reg("x21"), 8);
    assert_eq!(cpu.reg("x31"), 1);
}

#[test]
fn test_bge() {
    let cpu = run(&[addi(20, 20, 8), addi(21, 21, 1), b_type(-4, 21, 20, 5), addi(31, 0, 1)], 20);
    assert_eq!(cpu.reg("x21"), 9);
    assert_eq!(cpu.reg("x31"), 1);
}

#[test]
fn test_slb() {
    let cpu = run(&[addi(SP, SP, -1), addi(20, 0, 82), store(0, 20, 0, SP), load(0, 22, 0, SP)], 4);
    assert_eq!(cpu.reg("x20"), 82);
    assert_eq!(cpu.reg("x22"), 82);
}

#[test]
fn test_swlbu() {
    let cpu = run(&[addi(SP, SP, -4), addi(20, 0, 247), store(2, 20, 0, SP), load(4, 22, 0, SP)], 4);
    assert_eq!(cpu.reg("x20"), 247);
    assert_eq!(cpu.reg("x22"), 247);
}

#[test]
fn test_max_64() {
    let cpu = run(&[addi(20, 20, -1), srli(20, 20, 1)], 2);
    assert_eq!(cpu.reg("x20"), 0x7fff_ffff_ffff_ffff as u64);
}

#[test]
fn test_li() {
    // li x20, 0x12345678
    let cpu = run(&[lui(20, 0x12345), addiw(20, 20, 0x678)], 4);
    assert_eq!(cpu.reg("x20"), 0x1234_5678);
}

#[test]
fn test_slti() {
    let cpu = run(&[addi(20, 20, -12), slti(21, 20, 10), addi(22, 22, -30), slti(23, 22, -200)], 4);
    assert_eq!(cpu.reg("x21"), 1);
    assert_eq!(cpu.reg("x23"), 0);
}

#[test]
fn test_sltiu() {
    let cpu = run(&[addi(20, 20, -12), sltiu(21, 20, 10), addi(22, 22, -30), sltiu(23, 22, -200)], 4);
    assert_eq!(cpu.reg("x21"), 0);
    assert_eq!(cpu.reg("x23"), 0);
}

#[test]
fn test_xori() {
    let cpu = run(&[addi(20, 20, 0x482), xori(21, 20, 0x273)], 2);
    assert_eq!(cpu.reg("x21"), 0x6f1);
}

#[test]
fn test_andi_ori() {
    let cpu = run(&[addi(20, 20, 0x482), andi(21, 20, 0x273), ori(22, 20, 0x273)], 3);
    assert_eq!(cpu.reg("x21"), 2);
    assert_eq!(cpu.reg("x22"), 0x6f3);
}

#[test]
fn test_slli() {
    let cpu = run(&[addi(20, 20, 10), slli(21, 20, 2)], 3);
    assert_eq!(cpu.reg("x21"), 40);
}

#[test]
fn test_sub() {
    let cpu = run(&[addi(1, 0, 10), addi(2, 0, 3), op(0x20, 0, 3, 1, 2)], 3);
    assert_eq!(cpu.reg("x3"), 7);
}

#[test]
fn test_sll() {
    let cpu = run(&[addi(20, 20, 3), addi(21, 21, 1), op(0, 1, 22, 20, 21)], 3);
    assert_eq!(cpu.reg("x22"), 6);
}

#[test]
fn test_srai() {
    let cpu = run(&[addi(1, 0, -4), srai(3, 1, 1)], 2);
    assert_eq!(cpu.reg("x3"), (-2) as i64 as u64);
}

#[test]
fn test_srli() {
    let cpu = run(&[addi(3, 3, 4), srli(3, 3, 1)], 3);
    assert_eq!(cpu.reg("x3"), 2);
}

#[test]
fn test_store_load1() {
    let cpu = run(
        &[
            addi(S0, ZERO, 256),
            addi(SP, SP, -16),
            store(3, S0, 8, SP),
            load(0, T1, 8, SP),
            load(1, T2, 8, SP),
            ret(),
        ],
        10,
    );
    assert_eq!(cpu.reg("t1"), 0);
    assert_eq!(cpu.reg("t2"), 256);
}

#[test]
fn test_func() {
    let program = [
        // main:
        addi(SP, SP, -8),
        store(3, RA, 0, SP),
        jal(RA, 40), // call is_secret_value
        addi(30, A2, 0),
        op(0, 4, A2, A2, A2),
        addi(A0, ZERO, 0x69),
        jal(RA, 24), // call is_secret_value
        addi(31, A2, 0),
        op(0, 4, A2, A2, A2),
        load(3, RA, 0, SP),
        addi(SP, SP, 8),
        ret(),
        // is_secret_value:
        addi(SP, SP, -8),
        store(3, RA, 0, SP),
        addi(A1, ZERO, 0x69),
        b_type(12, A1, A0, 0), // beq a0, a1, .get_sec
        addi(A2, ZERO, 0x3),
        jal(ZERO, 12), // j .ret
        // .get_sec:
        addi(A2, ZERO, 0x7),
        jal(ZERO, 4), // j .ret
        // .ret:
        load(3, RA, 0, SP),
        addi(SP, SP, 8),
        ret(),
    ];
    let cpu = run(&program, 100);
    assert_eq!(cpu.reg("x30"), 3);
    assert_eq!(cpu.reg("x31"), 7);
}

/// The CSR instructions of the sequence below.
fn csr_sequence() -> Vec<u32> {
    vec![
        addi(T0, ZERO, 1),
        addi(T1, ZERO, 2),
        addi(T2, ZERO, 3),
        csr(1, ZERO, MSTATUS, T0),
        csr(2, ZERO, MTVEC, T1),
        csr(1, ZERO, MEPC, T2),
        csr(3, T2, MEPC, ZERO),
        csr(5, ZERO, SSTATUS, 4),
        csr(6, ZERO, STVEC, 5),
        csr(5, ZERO, SEPC, 6),
        csr(7, ZERO, SEPC, 0),
    ]
}

#[test]
fn test_csrs1() {
    // Without a final `ret`: ra is 0, so returning would fetch from address
    // 0, and the fatal fault taken there rewrites MEPC and MSTATUS (see
    // csrs_then_ret_traps). Here the program stops at the zero word after it.
    let cpu = run(&csr_sequence(), 20);
    assert_eq!(cpu.reg("mstatus"), 1);
    assert_eq!(cpu.reg("mtvec"), 2);
    assert_eq!(cpu.reg("mepc"), 3);
    assert_eq!(cpu.reg("sstatus"), 0);
    assert_eq!(cpu.reg("stvec"), 5);
    assert_eq!(cpu.reg("sepc"), 6);
}

#[test]
fn csrs_then_ret_traps() {
    let mut program = csr_sequence();
    program.push(ret());
    let cpu = run(&program, 20);
    // The fetch at address 0 faults: MEPC is 0, MCAUSE the access fault,
    // MSTATUS gets MPP = machine mode, and the pc is MTVEC's base.
    assert_eq!(cpu.reg("mepc"), 0);
    assert_eq!(cpu.reg("mcause"), 1);
    assert_eq!(cpu.reg("mstatus"), 1 | (3 << 11));
    assert_eq!(cpu.reg("pc"), 0);
    assert_eq!(cpu.reg("mtvec"), 2);
    assert_eq!(cpu.reg("stvec"), 5);
    assert_eq!(cpu.reg("sepc"), 6);
}

/// `li a0, 0x10; addi sp, sp, -8; sd a0, 0(sp); li a1, 0x5`, then `last`,
/// then `ld a0, 0(sp)`.
fn amo_program(a1: i32, last: u32) -> Vec<u32> {
    vec![
        addi(A0, ZERO, 0x10),
        addi(SP, SP, -8),
        store(3, A0, 0, SP),
        addi(A1, ZERO, a1),
        last,
        load(3, A0, 0, SP),
    ]
}

#[test]
fn test_amoswap_w() {
    let cpu = run(&amo_program(0x20, amo(0x1, 2, A2, A1, SP)), 10);
    assert_eq!(cpu.reg("a2"), 0x10);
    assert_eq!(cpu.reg("a0"), 0x20);
}

#[test]
fn test_amoadd() {
    let cpu = run(&amo_program(0x5, amo(0x0, 3, A2, A1, SP)), 10);
    assert_eq!(cpu.reg("a2"), 0x10);
    assert_eq!(cpu.reg("a0"), 0x15);
}

#[test]
fn test_amoand() {
    let cpu = run(&amo_program(0x5, amo(0xc, 3, A2, A1, SP)), 10);
    assert_eq!(cpu.reg("a2"), 0x10);
    assert_eq!(cpu.reg("a0"), 0x10 & 0x5);
}

#[test]
fn test_amoor() {
    let cpu = run(&amo_program(0x5, amo(0x8, 2, A2, A1, SP)), 10);
    assert_eq!(cpu.reg("a0"), 0x10 | 0x5);
}

#[test]
fn test_amoxor() {
    let cpu = run(&amo_program(0x5, amo(0x8, 2, A2, A1, SP)), 10);
    assert_eq!(cpu.reg("a0"), 0x10 ^ 0x5);
}

#[test]
fn test_mulhu() {
    // li a0, 0x7fffffffffffffff; li a1, 0x3e8; mulhu a2, a1, a0
    let cpu = run(&[addi(A0, ZERO, -1), srli(A0, A0, 1), addi(A1, ZERO, 0x3e8), op(1, 3, A2, A1, A0)], 10);
    assert_eq!(cpu.reg("a2"), 499);
}

#[test]
fn test_mulh() {
    let cpu = run(&[addi(A0, ZERO, -1), addi(A1, ZERO, 0x3e8), op(1, 1, A2, A1, A0)], 10);
    assert_eq!(cpu.reg("a2"), -1 as i64 as u64);
}

#[test]
fn test_rem_positive() {
    let cpu = run(&[addi(A0, 0, 10), addi(A1, 0, 3), op(1, 6, A2, A0, A1)], 10);
    assert_eq!(cpu.reg("a2"), 1);
}

#[test]
fn test_rem_negative() {
    let cpu = run(&[addi(A0, 0, -10), addi(A1, 0, 3), op(1, 6, A2, A0, A1)], 10);
    assert_eq!(cpu.reg("a2"), -1 as i64 as u64);
}

#[test]
fn test_remu() {
    let cpu = run(&[addi(A0, 0, 10), addi(A1, 0, 3), op(1, 7, A2, A0, A1)], 10);
    assert_eq!(cpu.reg("a2"), 1);
}

#[test]
fn test_div_positive() {
    let cpu = run(&[addi(A0, 0, 10), addi(A1, 0, 3), op(1, 4, A2, A0, A1)], 10);
    assert_eq!(cpu.reg("a2"), 3);
}

#[test]
fn test_div_negative() {
    let cpu = run(&[addi(A0, 0, -10), addi(A1, 0, 3), op(1, 4, A2, A0, A1)], 10);
    assert_eq!(cpu.reg("a2"), -3 as i64 as u64);
}

#[test]
fn test_divu() {
    let cpu = run(&[addi(A0, 0, 10), addi(A1, 0, 3), op(1, 5, A2, A0, A1)], 10);
    assert_eq!(cpu.reg("a2"), 3);
}

#[test]
fn test_divw_divisor_zero() {
    let cpu = run(&[addi(A0, 0, 123), addi(A1, 0, 0), op32(1, 4, A2, A0, A1)], 10);
    assert_eq!(cpu.reg("a2"), -1 as i64 as u64);
}

#[test]
fn test_divw_overflow() {
    // li a0, 0x80000000
    let cpu = run(&[addi(A0, 0, 1), slli(A0, A0, 31), addi(A1, 0, -1), op32(1, 4, A2, A0, A1)], 10);
    assert_eq!(cpu.reg("a2"), 0x80000000 as u32 as i32 as i64 as u64);
}

#[test]
fn test_mulw_minus_one() {
    let cpu = run(&[addi(A0, 0, -1), addi(A1, 0, -1), op32(1, 0, A2, A0, A1)], 10);
    assert_eq!(cpu.reg("a2"), 1);
}

#[test]
fn test_remw_divisor_zero() {
    let cpu = run(&[addi(A0, 0, 1), slli(A0, A0, 31), addi(A1, 0, 0), op32(1, 6, A2, A0, A1)], 10);
    assert_eq!(cpu.reg("a2"), 0x80000000 as u32 as i32 as i64 as u64);
}

#[test]
fn test_remw_overflow_division() {
    let cpu = run(&[addi(A0, 0, 1), slli(A0, A0, 31), addi(A1, 0, -1), op32(1, 6, A2, A0, A1)], 10);
    assert_eq!(cpu.reg("a2"), 0);
}
