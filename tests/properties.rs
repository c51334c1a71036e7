use rvemu::alu::{div_s, mulhsu, rem_s};
use rvemu::bus::Bus;
use rvemu::clint::Clint;
use rvemu::cpu::{AccessType, Cpu, MACHINE, SUPERVISOR, USER};
use rvemu::csr::{
    Csr, MASK_SSTATUS, MCAUSE, MEDELEG, MEPC, MIDELEG, MIE, MIP, MSTATUS, MTVAL, MTVEC, SATP,
    SCAUSE, SEPC, SIE, SIP, SSTATUS, STVEC,
};
use rvemu::dram::Dram;
use rvemu::exception::Exception;
use rvemu::interrupt::{Interrupt, MASK_INTERRUPT_BIT};
use rvemu::param::{
    CLINT_MTIME, CLINT_MTIMECMP, DRAM_BASE, DRAM_END, DRAM_SIZE, PLIC_SCLAIM, UART_BASE, UART_LSR,
    VIRTIO_BASE, VIRTIO_GUEST_PAGE_SIZE, VIRTIO_MAGIC, VIRTIO_QUEUE_NOTIFY, VIRTIO_QUEUE_PFN,
};
use rvemu::plic::Plic;
use rvemu::step::StepOutcome;
use rvemu::uart::Uart;
use rvemu::virtio::VirtioBlock;

fn i_type(imm: i32, rs1: u64, funct3: u64, rd: u64, opcode: u64) -> u64 {
    (((imm as u64) & 0xfff) << 20) | (rs1 << 15) | (funct3 << 12) | (rd << 7) | opcode
}

fn r_type(funct7: u64, rs2: u64, rs1: u64, funct3: u64, rd: u64, opcode: u64) -> u64 {
    (funct7 << 25) | (rs2 << 20) | (rs1 << 15) | (funct3 << 12) | (rd << 7) | opcode
}

fn code_of(program: &[u64]) -> Vec<u8> {
    let mut code = Vec::new();
    for w in program {
        code.extend_from_slice(&(*w as u32).to_le_bytes());
    }
    code
}

fn cpu_with(program: &[u64]) -> Cpu {
    Cpu::new(code_of(program), vec![0])
}

#[test]
fn x0_ignores_writes() {
    // addi x0, x0, 5
    let mut cpu = cpu_with(&[i_type(5, 0, 0, 0, 0x13)]);
    assert_eq!(cpu.run(1), StepOutcome::Continue);
    assert_eq!(cpu.regs[0], 0);
    assert_eq!(cpu.pc, DRAM_BASE + 4);
}

#[test]
fn new_cpu_state() {
    let cpu = cpu_with(&[]);
    assert_eq!(cpu.pc, DRAM_BASE);
    assert_eq!(cpu.regs[2], DRAM_END);
    assert_eq!(cpu.mode, MACHINE);
    assert!(!cpu.enable_paging);
    assert_eq!(cpu.page_table, 0);
}

#[test]
fn zero_word_halts() {
    let mut cpu = cpu_with(&[i_type(1, 0, 0, 5, 0x13)]);
    assert_eq!(cpu.run(10), StepOutcome::Halt);
    assert_eq!(cpu.regs[5], 1);
    assert_eq!(cpu.pc, DRAM_BASE + 4);
}

#[test]
fn sequential_pc_and_branch_target() {
    // beq x0, x0, 8 is taken; execute returns the target and leaves pc alone.
    let mut cpu = cpu_with(&[]);
    let beq = (4 << 8) | 0x63;
    assert_eq!(cpu.execute(beq), Ok(DRAM_BASE + 8));
    // bne x0, x0, 8 is not taken.
    let bne = (4 << 8) | (1 << 12) | 0x63;
    assert_eq!(cpu.execute(bne), Ok(DRAM_BASE + 4));
    // addi goes on to pc + 4.
    assert_eq!(cpu.execute(i_type(1, 0, 0, 1, 0x13)), Ok(DRAM_BASE + 4));
}

#[test]
fn illegal_instruction_is_fatal() {
    let mut cpu = cpu_with(&[0xffff_ffff]);
    cpu.csr.store(MTVEC, 0x8000_0100);
    assert_eq!(cpu.run(5), StepOutcome::Fatal(Exception::IllegalInstruction(0xffff_ffff)));
    assert_eq!(cpu.csr.load(MEPC), DRAM_BASE);
    assert_eq!(cpu.csr.load(MCAUSE), 2);
    assert_eq!(cpu.csr.load(MTVAL), 0xffff_ffff);
    assert_eq!(cpu.pc, 0x8000_0100);
}

#[test]
fn ecall_traps_to_machine_vector() {
    let mut cpu = cpu_with(&[0x0000_0073]);
    cpu.csr.store(MTVEC, 0x8000_0203);
    cpu.csr.store(MSTATUS, 1 << 3);
    assert_eq!(cpu.step(), StepOutcome::Continue);
    assert_eq!(cpu.csr.load(MEPC), DRAM_BASE);
    assert_eq!(cpu.csr.load(MCAUSE), 11);
    assert_eq!(cpu.pc, 0x8000_0200);
    // MPIE took MIE, MIE is clear and MPP is machine mode.
    assert_eq!(cpu.csr.load(MSTATUS), (1 << 7) | (3 << 11));
}

#[test]
fn delegated_ecall_from_user_goes_to_supervisor() {
    let mut cpu = cpu_with(&[]);
    cpu.mode = USER;
    cpu.csr.store(MEDELEG, 1 << 8);
    cpu.csr.store(STVEC, 0x8000_0400);
    cpu.handle_exception(Exception::EnvironmentCallFromUMode(0x1234));
    assert_eq!(cpu.mode, SUPERVISOR);
    assert_eq!(cpu.csr.load(SEPC), DRAM_BASE);
    assert_eq!(cpu.csr.load(SCAUSE), 8);
    assert_eq!(cpu.pc, 0x8000_0400);
    assert_eq!(cpu.csr.load(MEPC), 0);
}

#[test]
fn vectored_interrupt_entry() {
    let mut cpu = cpu_with(&[]);
    cpu.csr.store(MTVEC, 0x8000_1001);
    cpu.handle_interrupt(Interrupt::MachineTimerInterrupt);
    assert_eq!(cpu.pc, 0x8000_1000 + 7 * 4);
    assert_eq!(cpu.csr.load(MCAUSE), MASK_INTERRUPT_BIT | 7);
    assert_eq!(cpu.csr.load(MCAUSE), Interrupt::MachineTimerInterrupt.code());
    assert_eq!(cpu.csr.load(MEPC), DRAM_BASE);
    assert_eq!(cpu.csr.load(MTVAL), 0);
}

#[test]
fn pending_interrupt_priority() {
    let mut cpu = cpu_with(&[]);
    cpu.csr.store(MSTATUS, 1 << 3);
    cpu.csr.store(MIE, ALL_INTERRUPTS);
    cpu.csr.store(MIP, (1 << 5) | (1 << 9) | (1 << 3));
    assert_eq!(cpu.check_pending_interrupt(), Some(Interrupt::MachineSoftwareInterrupt));
    assert_eq!(cpu.csr.load(MIP), (1 << 5) | (1 << 9));
    assert_eq!(cpu.check_pending_interrupt(), Some(Interrupt::SupervisorExternalInterrupt));
    assert_eq!(cpu.check_pending_interrupt(), Some(Interrupt::SupervisorTimerInterrupt));
    assert_eq!(cpu.check_pending_interrupt(), None);
}

const ALL_INTERRUPTS: u64 = 0xaaa;

#[test]
fn interrupts_masked_in_machine_mode() {
    let mut cpu = cpu_with(&[]);
    cpu.csr.store(MIE, ALL_INTERRUPTS);
    cpu.csr.store(MIP, 1 << 11);
    assert_eq!(cpu.check_pending_interrupt(), None);
    assert_eq!(cpu.csr.load(MIP), 1 << 11);
}

#[test]
fn uart_interrupt_claims_plic() {
    let mut cpu = cpu_with(&[]);
    cpu.csr.store(MSTATUS, 1 << 3);
    cpu.csr.store(MIE, 1 << 9);
    assert!(cpu.bus.uart.receive(b'k'));
    assert_eq!(cpu.check_pending_interrupt(), Some(Interrupt::SupervisorExternalInterrupt));
    assert_eq!(cpu.bus.load(PLIC_SCLAIM, 32), Ok(10));
    assert!(!cpu.bus.uart.interrupting);
    assert_eq!(cpu.bus.load(UART_BASE, 8), Ok(b'k' as u64));
}

#[test]
fn memory_round_trip_all_widths() {
    let mut bus = Bus::new(vec![], vec![]);
    let addr = DRAM_BASE + 0x100;
    for (size, value) in [(8u64, 0xabu64), (16, 0xbeef), (32, 0xdead_beef), (64, 0x0123_4567_89ab_cdef)] {
        assert_eq!(bus.store(addr, size, value), Ok(()));
        assert_eq!(bus.load(addr, size), Ok(value));
    }
    // A narrow store keeps only the low bytes.
    assert_eq!(bus.store(addr, 16, 0x1_2345), Ok(()));
    assert_eq!(bus.load(addr, 16), Ok(0x2345));
    // Little-endian layout.
    assert_eq!(bus.store(addr, 32, 0x1122_3344), Ok(()));
    assert_eq!(bus.load(addr, 8), Ok(0x44));
    assert_eq!(bus.load(addr + 3, 8), Ok(0x11));
}

#[test]
fn memory_faults() {
    let mut bus = Bus::new(vec![], vec![]);
    assert_eq!(bus.load(DRAM_BASE, 24), Err(Exception::LoadAccessFault(DRAM_BASE)));
    assert_eq!(bus.store(DRAM_BASE, 12, 0), Err(Exception::StoreAMOAccessFault(DRAM_BASE)));
    assert_eq!(bus.load(DRAM_END, 16), Err(Exception::LoadAccessFault(DRAM_END)));
    assert_eq!(bus.load(DRAM_END, 8), Ok(0));
    assert_eq!(bus.load(0x10, 32), Err(Exception::LoadAccessFault(0x10)));
    assert_eq!(bus.store(0x10, 32, 1), Err(Exception::StoreAMOAccessFault(0x10)));
}

#[test]
fn low_window_reaches_dram() {
    let mut bus = Bus::new(vec![1, 2, 3, 4], vec![]);
    assert_eq!(bus.store(DRAM_BASE + 0x1000, 32, 0x0a0b_0c0d), Ok(()));
    assert_eq!(bus.load(0x1000, 32), Ok(0x0a0b_0c0d));
    assert_eq!(bus.load(DRAM_BASE, 32), Ok(0x0403_0201));
}

#[test]
fn dram_direct_access() {
    let mut dram = Dram::new(vec![0xff; 8]);
    assert_eq!(dram.dram.len() as u64, DRAM_SIZE);
    assert_eq!(dram.load(DRAM_BASE, 64), Ok(u64::MAX));
    assert_eq!(dram.store(DRAM_BASE + 2, 16, 0), Ok(()));
    assert_eq!(dram.load(DRAM_BASE, 64), Ok(0xffff_ffff_0000_ffff));
    assert_eq!(dram.load(DRAM_BASE - 1, 8), Err(Exception::LoadAccessFault(DRAM_BASE - 1)));
}

#[test]
fn sign_and_zero_extension_of_loads() {
    // sb x5 = 0x80 at 0(sp), then lb x6 and lbu x7; sh 0x8000, lh x8 / lhu x9;
    // sw 0x8000_0000, lw x10 / lwu x11.
    let mut cpu = cpu_with(&[]);
    let sp = cpu.regs[2] - 15;
    cpu.regs[5] = 0x80;
    cpu.regs[12] = 0x8000;
    cpu.regs[13] = 0x8000_0000;
    cpu.regs[2] = sp;
    let sb = (5 << 20) | (2 << 15) | 0x23;
    let sh = (12 << 20) | (2 << 15) | (1 << 12) | (2 << 7) | 0x23;
    let sw = (13 << 20) | (2 << 15) | (2 << 12) | (4 << 7) | 0x23;
    assert!(cpu.execute(sb).is_ok());
    assert!(cpu.execute(sh).is_ok());
    assert!(cpu.execute(sw).is_ok());
    assert!(cpu.execute(i_type(0, 2, 0, 6, 0x03)).is_ok());
    assert!(cpu.execute(i_type(0, 2, 4, 7, 0x03)).is_ok());
    assert!(cpu.execute(i_type(2, 2, 1, 8, 0x03)).is_ok());
    assert!(cpu.execute(i_type(2, 2, 5, 9, 0x03)).is_ok());
    assert!(cpu.execute(i_type(4, 2, 2, 10, 0x03)).is_ok());
    assert!(cpu.execute(i_type(4, 2, 6, 11, 0x03)).is_ok());
    assert_eq!(cpu.regs[6], 0xffff_ffff_ffff_ff80);
    assert_eq!(cpu.regs[7], 0x80);
    assert_eq!(cpu.regs[8], 0xffff_ffff_ffff_8000);
    assert_eq!(cpu.regs[9], 0x8000);
    assert_eq!(cpu.regs[10], 0xffff_ffff_8000_0000);
    assert_eq!(cpu.regs[11], 0x8000_0000);
}

#[test]
fn word_ops_sign_extend() {
    let mut cpu = cpu_with(&[]);
    cpu.regs[5] = 0x7fff_ffff;
    cpu.regs[6] = 1;
    // addw x7, x5, x6
    assert!(cpu.execute(r_type(0, 6, 5, 0, 7, 0x3b)).is_ok());
    assert_eq!(cpu.regs[7], 0xffff_ffff_8000_0000);
    // subw x8, x0, x6
    assert!(cpu.execute(r_type(0x20, 6, 0, 0, 8, 0x3b)).is_ok());
    assert_eq!(cpu.regs[8], u64::MAX);
}

#[test]
fn divide_by_zero_never_traps() {
    let mut cpu = cpu_with(&[]);
    cpu.regs[5] = 1234;
    for (funct3, expected) in [(4u64, u64::MAX), (5, u64::MAX), (6, 1234), (7, 1234)] {
        assert!(cpu.execute(r_type(1, 0, 5, funct3, 7, 0x33)).is_ok());
        assert_eq!(cpu.regs[7], expected);
        assert!(cpu.execute(r_type(1, 0, 5, funct3, 8, 0x3b)).is_ok());
        assert_eq!(cpu.regs[8], expected);
    }
}

#[test]
fn signed_division_rounds_toward_zero() {
    assert_eq!(div_s(-7i64 as u64, 2), -3i64 as u64);
    assert_eq!(rem_s(-7i64 as u64, 2), -1i64 as u64);
    assert_eq!(div_s(7, -2i64 as u64), -3i64 as u64);
    assert_eq!(rem_s(7, -2i64 as u64), 1);
    assert_eq!(div_s(i64::MIN as u64, u64::MAX), i64::MIN as u64);
    assert_eq!(rem_s(i64::MIN as u64, u64::MAX), 0);
    assert_eq!(mulhsu(u64::MAX, 2), u64::MAX);
}

#[test]
fn sret_and_mret_restore_state() {
    let mut cpu = cpu_with(&[]);
    cpu.csr.store(SEPC, 0x8000_0017);
    cpu.csr.store(MSTATUS, (1 << 5) | (1 << 8));
    // sret
    assert_eq!(cpu.execute(0x1020_0073), Ok(0x8000_0014));
    assert_eq!(cpu.mode, SUPERVISOR);
    assert_eq!(cpu.csr.load(SSTATUS), (1 << 1) | (1 << 5));
    cpu.csr.store(MEPC, 0x8000_0020);
    cpu.csr.store(MSTATUS, (1 << 7) | (1 << 17));
    // mret back to user mode clears MPRV
    assert_eq!(cpu.execute(0x3020_0073), Ok(0x8000_0020));
    assert_eq!(cpu.mode, USER);
    assert_eq!(cpu.csr.load(MSTATUS), (1 << 3) | (1 << 7));
}

#[test]
fn supervisor_shadow_registers() {
    let mut csr = Csr::new();
    csr.store(MSTATUS, 0xffff_ffff_ffff_ffff);
    csr.store(SSTATUS, 0);
    assert_eq!(csr.load(MSTATUS), !MASK_SSTATUS);
    assert_eq!(csr.load(SSTATUS), 0);
    csr.store(SSTATUS, u64::MAX);
    assert_eq!(csr.load(SSTATUS), MASK_SSTATUS);
    csr.store(MIDELEG, 0x222);
    csr.store(SIE, 0xfff);
    assert_eq!(csr.load(MIE), 0x222);
    assert_eq!(csr.load(SIE), 0x222);
    csr.store(MIP, 0x888);
    csr.store(SIP, 0x2);
    assert_eq!(csr.load(MIP), 0x88a);
    assert_eq!(csr.load(SIP), 0x2);
    assert!(csr.is_midelegated(9));
    assert!(!csr.is_midelegated(11));
    csr.store(MEDELEG, 1 << 8);
    assert!(csr.is_medelegated(8));
    assert!(!csr.is_medelegated(9));
}

#[test]
fn satp_write_controls_paging() {
    let mut cpu = cpu_with(&[]);
    cpu.regs[5] = (8u64 << 60) | 0x8_0001;
    // csrrw x0, satp, x5
    let csrrw = ((SATP as u64) << 20) | (5 << 15) | (1 << 12) | 0x73;
    assert!(cpu.execute(csrrw).is_ok());
    assert!(cpu.enable_paging);
    assert_eq!(cpu.page_table, 0x8_0001 * 4096);
    cpu.regs[5] = 0x8_0001;
    assert!(cpu.execute(csrrw).is_ok());
    assert!(!cpu.enable_paging);
}

#[test]
fn sv39_translation() {
    let mut cpu = cpu_with(&[]);
    let root = DRAM_BASE + 0x10_0000;
    let l1 = DRAM_BASE + 0x10_1000;
    let l0 = DRAM_BASE + 0x10_2000;
    let page = DRAM_BASE + 0x20_0000;
    let va: u64 = (1 << 30) | (2 << 21) | (3 << 12) | 0x45;
    // root[1] -> l1, l1[2] -> l0, l0[3] -> page (R|W|V)
    assert!(cpu.bus.store(root + 8, 64, ((l1 >> 12) << 10) | 1).is_ok());
    assert!(cpu.bus.store(l1 + 16, 64, ((l0 >> 12) << 10) | 1).is_ok());
    assert!(cpu.bus.store(l0 + 24, 64, ((page >> 12) << 10) | 0b111).is_ok());
    cpu.enable_paging = true;
    cpu.page_table = root;
    assert_eq!(cpu.translate(va, AccessType::Load), Ok(page | 0x45));
    // An invalid entry faults with the kind of the access.
    assert_eq!(cpu.translate(0x45, AccessType::Store), Err(Exception::StoreAMOPageFault(0x45)));
    assert_eq!(cpu.translate(0x45, AccessType::Instruction), Err(Exception::InstructionPageFault(0x45)));
    // A load through translation reaches the page.
    assert!(cpu.bus.store(page | 0x45, 8, 0x5a).is_ok());
    assert_eq!(cpu.load(va, 8), Ok(0x5a));
}

#[test]
fn gigapage_translation() {
    let mut cpu = cpu_with(&[]);
    let root = DRAM_BASE + 0x10_0000;
    // root[2] maps the 1 GiB page at 0x8000_0000 (R|X|V)
    assert!(cpu.bus.store(root + 16, 64, ((DRAM_BASE >> 12) << 10) | 0b1011).is_ok());
    cpu.enable_paging = true;
    cpu.page_table = root;
    assert_eq!(cpu.translate(0x8012_3456, AccessType::Instruction), Ok(0x8012_3456));
}

#[test]
fn clint_registers() {
    let mut clint = Clint::new();
    assert_eq!(clint.store(CLINT_MTIME, 64, 5), Ok(()));
    assert_eq!(clint.store(CLINT_MTIMECMP, 64, 9), Ok(()));
    assert_eq!(clint.load(CLINT_MTIME, 64), Ok(5));
    assert_eq!(clint.load(CLINT_MTIMECMP, 64), Ok(9));
    assert_eq!(clint.load(CLINT_MTIME + 8, 64), Ok(0));
    assert_eq!(clint.load(CLINT_MTIME, 32), Err(Exception::LoadAccessFault(CLINT_MTIME)));
    assert_eq!(clint.store(CLINT_MTIME, 8, 1), Err(Exception::StoreAMOAccessFault(CLINT_MTIME)));
}

#[test]
fn plic_registers() {
    let mut plic = Plic::new();
    assert_eq!(plic.store(PLIC_SCLAIM, 32, 10), Ok(()));
    assert_eq!(plic.load(PLIC_SCLAIM, 32), Ok(10));
    assert_eq!(plic.load(PLIC_SCLAIM + 0x100, 32), Ok(0));
    assert_eq!(plic.load(PLIC_SCLAIM, 64), Err(Exception::LoadAccessFault(PLIC_SCLAIM)));
    assert_eq!(plic.store(PLIC_SCLAIM, 64, 1), Err(Exception::StoreAMOAccessFault(PLIC_SCLAIM)));
}

#[test]
fn uart_receive_and_transmit() {
    let mut uart = Uart::new();
    assert_eq!(uart.load(UART_BASE + UART_LSR, 8), Ok(0x20));
    assert!(uart.receive(b'a'));
    assert!(!uart.receive(b'b'));
    assert_eq!(uart.load(UART_BASE + UART_LSR, 8), Ok(0x21));
    assert!(uart.is_interrupting());
    assert!(!uart.is_interrupting());
    assert_eq!(uart.load(UART_BASE, 8), Ok(b'a' as u64));
    assert_eq!(uart.load(UART_BASE + UART_LSR, 8), Ok(0x20));
    assert!(uart.receive(b'b'));
    assert_eq!(uart.store(UART_BASE, 8, b'h' as u64), Ok(()));
    assert_eq!(uart.store(UART_BASE, 8, b'i' as u64), Ok(()));
    assert_eq!(uart.take_output(), b"hi".to_vec());
    assert!(uart.take_output().is_empty());
    assert_eq!(uart.load(UART_BASE, 16), Err(Exception::LoadAccessFault(UART_BASE)));
    assert_eq!(uart.store(UART_BASE + 3, 32, 0), Err(Exception::StoreAMOAccessFault(UART_BASE + 3)));
}

#[test]
fn virtio_registers() {
    let mut blk = VirtioBlock::new(vec![1, 2, 3]);
    assert_eq!(blk.load(VIRTIO_MAGIC, 32), Ok(0x7472_6976));
    assert_eq!(blk.load(VIRTIO_BASE, 64), Err(Exception::LoadAccessFault(VIRTIO_BASE)));
    assert!(!blk.is_interrupting());
    assert_eq!(blk.store(VIRTIO_QUEUE_NOTIFY, 32, 0), Ok(()));
    assert!(blk.is_interrupting());
    assert!(!blk.is_interrupting());
    assert_eq!(blk.store(VIRTIO_GUEST_PAGE_SIZE, 32, 4096), Ok(()));
    assert_eq!(blk.store(VIRTIO_QUEUE_PFN, 32, 3), Ok(()));
    assert_eq!(blk.desc_addr(), 3 * 4096);
    assert_eq!(blk.read_disk(1), 2);
    assert_eq!(blk.read_disk(3), 0);
    blk.write_disk(2, 9);
    blk.write_disk(7, 9);
    assert_eq!(blk.read_disk(2), 9);
    assert_eq!(blk.get_new_id(), 1);
    assert_eq!(blk.get_new_id(), 2);
}

/// Builds one virtio request in guest memory: descriptors at `desc`, the
/// request header at `hdr`, the data buffer at `buf`.
fn queue_request(cpu: &mut Cpu, iotype: u64, sector: u64, len: u64) -> (u64, u64) {
    let desc = DRAM_BASE + 0x1_0000;
    let hdr = DRAM_BASE + 0x3_0000;
    let buf = DRAM_BASE + 0x4_0000;
    let bus = &mut cpu.bus;
    assert_eq!(bus.store(VIRTIO_GUEST_PAGE_SIZE, 32, 4096), Ok(()));
    assert_eq!(bus.store(VIRTIO_QUEUE_PFN, 32, desc / 4096), Ok(()));
    // available ring: idx = 1, ring[1] = 0
    let avail = desc + 8 * 16;
    assert_eq!(bus.store(avail + 2, 16, 1), Ok(()));
    assert_eq!(bus.store(avail + 4 + 2, 16, 0), Ok(()));
    // descriptor 0: the header, next = 1; descriptor 1: the buffer
    assert_eq!(bus.store(desc, 64, hdr), Ok(()));
    assert_eq!(bus.store(desc + 14, 16, 1), Ok(()));
    assert_eq!(bus.store(desc + 16, 64, buf), Ok(()));
    assert_eq!(bus.store(desc + 16 + 8, 32, len), Ok(()));
    assert_eq!(bus.store(hdr, 32, iotype), Ok(()));
    assert_eq!(bus.store(hdr + 8, 64, sector), Ok(()));
    (desc, buf)
}

#[test]
fn disk_read_into_guest_memory() {
    let mut disk = vec![0u8; 1024];
    for (i, b) in disk.iter_mut().enumerate() {
        *b = i as u8;
    }
    let mut cpu = Cpu::new(vec![], disk);
    let (desc, buf) = queue_request(&mut cpu, 0, 1, 4);
    assert_eq!(cpu.disk_access(), Ok(()));
    assert_eq!(cpu.bus.load(buf, 32), Ok(0x0302_0100));
    assert_eq!(cpu.bus.load(desc + 4096 + 2, 16), Ok(1));
}

#[test]
fn disk_write_from_guest_memory() {
    let mut cpu = Cpu::new(vec![], vec![0u8; 1024]);
    let (_, buf) = queue_request(&mut cpu, 1, 1, 2);
    assert_eq!(cpu.bus.store(buf, 16, 0xbbaa), Ok(()));
    assert_eq!(cpu.disk_access(), Ok(()));
    assert_eq!(cpu.bus.virtio_blk.read_disk(512), 0xaa);
    assert_eq!(cpu.bus.virtio_blk.read_disk(513), 0xbb);
    assert_eq!(cpu.bus.virtio_blk.read_disk(514), 0);
}

#[test]
fn virtio_notify_serves_request_on_poll() {
    let mut cpu = Cpu::new(vec![], vec![7u8; 1024]);
    let (_, buf) = queue_request(&mut cpu, 0, 0, 1);
    cpu.csr.store(MSTATUS, 1 << 3);
    cpu.csr.store(MIE, 1 << 9);
    assert_eq!(cpu.bus.store(VIRTIO_QUEUE_NOTIFY, 32, 0), Ok(()));
    assert_eq!(cpu.check_pending_interrupt(), Some(Interrupt::SupervisorExternalInterrupt));
    assert_eq!(cpu.bus.load(buf, 8), Ok(7));
    assert_eq!(cpu.bus.load(PLIC_SCLAIM, 32), Ok(1));
}

#[test]
fn exception_codes_values_and_fatality() {
    let all = [
        (Exception::InstructionAddrMisaligned(1), 0, true),
        (Exception::InstructionAccessFault(2), 1, true),
        (Exception::IllegalInstruction(3), 2, true),
        (Exception::Breakpoint(4), 3, false),
        (Exception::LoadAccessMisaligned(5), 4, false),
        (Exception::LoadAccessFault(6), 5, true),
        (Exception::StoreAMOAddrMisaligned(7), 6, true),
        (Exception::StoreAMOAccessFault(8), 7, true),
        (Exception::EnvironmentCallFromUMode(9), 8, false),
        (Exception::EnvironmentCallFromSMode(10), 9, false),
        (Exception::EnvironmentCallFromMMode(11), 11, false),
        (Exception::InstructionPageFault(12), 12, false),
        (Exception::LoadPageFault(13), 13, false),
        (Exception::StoreAMOPageFault(14), 14, false),
    ];
    for (i, (e, code, fatal)) in all.iter().enumerate() {
        assert_eq!(e.code(), *code);
        assert_eq!(e.is_fatal(), *fatal);
        assert_eq!(e.value(), i as u64 + 1);
    }
    assert_eq!(Interrupt::SupervisorExternalInterrupt.code(), MASK_INTERRUPT_BIT | 9);
    assert_eq!(Interrupt::MachineExternalInterrupt.code(), MASK_INTERRUPT_BIT | 11);
    assert_eq!(Interrupt::SupervisorSoftwareInterrupt.code(), MASK_INTERRUPT_BIT | 1);
}

#[test]
fn fibonacci_program() {
    // a0 = fib(10) with a loop: t0 = 0, t1 = 1, t2 = 10;
    // loop: add t3, t0, t1; mv t0, t1; mv t1, t3; addi t2, t2, -1; bnez t2, loop; mv a0, t0
    let program = [
        i_type(0, 0, 0, 5, 0x13),
        i_type(1, 0, 0, 6, 0x13),
        i_type(10, 0, 0, 7, 0x13),
        r_type(0, 6, 5, 0, 28, 0x33),
        i_type(0, 6, 0, 5, 0x13),
        i_type(0, 28, 0, 6, 0x13),
        i_type(-1, 7, 0, 7, 0x13),
        // bne t2, x0, -16
        (1 << 31) | (0x3f << 25) | (7 << 15) | (1 << 12) | (0x8 << 8) | (1 << 7) | 0x63,
        i_type(0, 5, 0, 10, 0x13),
    ];
    let mut cpu = cpu_with(&program);
    assert_eq!(cpu.run(10_000), StepOutcome::Halt);
    assert_eq!(cpu.regs[10], 55);
}

#[test]
fn register_names() {
    let mut cpu = cpu_with(&[]);
    cpu.regs[8] = 7;
    cpu.regs[31] = 9;
    cpu.csr.store(SATP, 5);
    assert_eq!(cpu.reg("sp"), DRAM_END);
    assert_eq!(cpu.reg("x2"), DRAM_END);
    assert_eq!(cpu.reg("s0"), 7);
    assert_eq!(cpu.reg("fp"), 7);
    assert_eq!(cpu.reg("x31"), 9);
    assert_eq!(cpu.reg("t6"), 9);
    assert_eq!(cpu.reg("zero"), 0);
    assert_eq!(cpu.reg("pc"), DRAM_BASE);
    assert_eq!(cpu.reg("SATP"), 5);
    assert_eq!(cpu.reg("x007"), 0);
    assert_eq!(cpu.reg("x08"), 7);
    assert_eq!(cpu.reg("x0031"), 9);
}

#[test]
fn ebreak_and_supervisor_ecall() {
    let mut cpu = cpu_with(&[]);
    assert_eq!(cpu.execute(0x0010_0073), Err(Exception::Breakpoint(DRAM_BASE)));
    cpu.mode = SUPERVISOR;
    assert_eq!(cpu.execute(0x0000_0073), Err(Exception::EnvironmentCallFromSMode(DRAM_BASE)));
    cpu.mode = USER;
    assert_eq!(cpu.execute(0x0000_0073), Err(Exception::EnvironmentCallFromUMode(DRAM_BASE)));
    // A breakpoint is not fatal: the run goes on at the handler.
    let mut cpu = cpu_with(&[0x0010_0073]);
    cpu.csr.store(MTVEC, 0x8000_0040);
    assert_eq!(cpu.step(), StepOutcome::Continue);
    assert_eq!(cpu.pc, 0x8000_0040);
    assert_eq!(cpu.csr.load(MCAUSE), 3);
    assert_eq!(cpu.csr.load(MTVAL), DRAM_BASE);
}

#[test]
fn fetch_fault_from_unmapped_pc() {
    let mut cpu = cpu_with(&[]);
    cpu.pc = 0x10;
    assert_eq!(cpu.fetch(), Err(Exception::InstructionAccessFault(0x10)));
    assert_eq!(cpu.step(), StepOutcome::Fatal(Exception::InstructionAccessFault(0x10)));
    assert_eq!(cpu.csr.load(MEPC), 0x10);
    assert_eq!(cpu.csr.load(MCAUSE), 1);
}

#[test]
fn delegated_interrupt_to_supervisor() {
    let mut cpu = cpu_with(&[]);
    cpu.mode = SUPERVISOR;
    cpu.csr.store(MIDELEG, 1 << 9);
    cpu.csr.store(STVEC, 0x8000_2001);
    cpu.handle_interrupt(Interrupt::SupervisorExternalInterrupt);
    assert_eq!(cpu.mode, SUPERVISOR);
    assert_eq!(cpu.pc, 0x8000_2000 + 9 * 4);
    assert_eq!(cpu.csr.load(SCAUSE), Interrupt::SupervisorExternalInterrupt.code());
    assert_eq!(cpu.csr.load(SEPC), DRAM_BASE);
}

#[test]
fn unsigned_loads_keep_only_the_access_width() {
    let mut cpu = cpu_with(&[]);
    // The PLIC register keeps all 64 bits of the value stored.
    assert_eq!(cpu.bus.store(PLIC_SCLAIM, 32, 0x1_2345_6789), Ok(()));
    cpu.regs[5] = PLIC_SCLAIM;
    // lwu x6, 0(x5)
    assert!(cpu.execute(i_type(0, 5, 6, 6, 0x03)).is_ok());
    assert_eq!(cpu.regs[6], 0x2345_6789);
    // lw x7, 0(x5)
    assert!(cpu.execute(i_type(0, 5, 2, 7, 0x03)).is_ok());
    assert_eq!(cpu.regs[7], 0x2345_6789);
}

#[test]
fn mret_with_reserved_mpp_returns_to_user() {
    let mut cpu = cpu_with(&[]);
    cpu.csr.store(MEPC, 0x8000_0100);
    cpu.csr.store(MSTATUS, 0b10 << 11);
    assert_eq!(cpu.execute(0x3020_0073), Ok(0x8000_0100));
    assert_eq!(cpu.mode, USER);
    assert_eq!(cpu.csr.load(MSTATUS), 1 << 7);
}
