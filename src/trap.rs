//! Trap entry for exceptions and interrupts, with delegation to supervisor
//! mode, and the per-step interrupt poll.

use vstd::prelude::*;
use crate::alu::{mul_low, wadd};
use crate::bus::BusModel;
use crate::cpu::{Cpu, CpuModel, MACHINE, SUPERVISOR};
use crate::csr::{
    bit_set, csr_read, csr_write, MASK_MEIP, MASK_MIE, MASK_MPIE, MASK_MPP, MASK_MSIP, MASK_MTIP,
    MASK_SEIP, MASK_SIE, MASK_SPIE, MASK_SPP, MASK_SSIP, MASK_STIP, MCAUSE, MEDELEG, MEPC, MIDELEG,
    MIE, MIP, MSTATUS, MTVAL, MTVEC, NUM_CSRS, SCAUSE, SEPC, SSTATUS, STVAL, STVEC,
};
use crate::exception::Exception;
use crate::interrupt::{lemma_code_and_number, Interrupt};
use crate::param::{PLIC_SCLAIM, UART_IRQ, VIRTIO_IRQ};
use crate::uart::UartModel;
use crate::virtio::{VirtioModel, VirtioRegs};

verus! {

/// The register family that a trap uses: supervisor or machine.
#[derive(Clone, Copy)]
pub struct TrapCsrs {
    pub status: usize,
    pub tvec: usize,
    pub cause: usize,
    pub tval: usize,
    pub epc: usize,
    pub mask_pie: u64,
    pub pie_i: u64,
    pub mask_ie: u64,
    pub ie_i: u64,
    pub mask_pp: u64,
    pub pp_i: u64,
}

pub open spec fn trap_csrs(to_supervisor: bool) -> TrapCsrs {
    if to_supervisor {
        TrapCsrs {
            status: SSTATUS,
            tvec: STVEC,
            cause: SCAUSE,
            tval: STVAL,
            epc: SEPC,
            mask_pie: MASK_SPIE,
            pie_i: 5,
            mask_ie: MASK_SIE,
            ie_i: 1,
            mask_pp: MASK_SPP,
            pp_i: 8,
        }
    } else {
        TrapCsrs {
            status: MSTATUS,
            tvec: MTVEC,
            cause: MCAUSE,
            tval: MTVAL,
            epc: MEPC,
            mask_pie: MASK_MPIE,
            pie_i: 7,
            mask_ie: MASK_MIE,
            ie_i: 3,
            mask_pp: MASK_MPP,
            pp_i: 11,
        }
    }
}

fn select_trap_csrs(to_supervisor: bool) -> (r: TrapCsrs)
    ensures
        r == trap_csrs(to_supervisor),
{
    if to_supervisor {
        TrapCsrs {
            status: SSTATUS,
            tvec: STVEC,
            cause: SCAUSE,
            tval: STVAL,
            epc: SEPC,
            mask_pie: MASK_SPIE,
            pie_i: 5,
            mask_ie: MASK_SIE,
            ie_i: 1,
            mask_pp: MASK_SPP,
            pp_i: 8,
        }
    } else {
        TrapCsrs {
            status: MSTATUS,
            tvec: MTVEC,
            cause: MCAUSE,
            tval: MTVAL,
            epc: MEPC,
            mask_pie: MASK_MPIE,
            pie_i: 7,
            mask_ie: MASK_MIE,
            ie_i: 3,
            mask_pp: MASK_MPP,
            pp_i: 11,
        }
    }
}

/// Where an interrupt enters: TVEC's base, plus four times the cause code
/// (wrapped to 64 bits, which drops the interrupt bit) in vectored mode.
pub open spec fn interrupt_target(tvec: u64, code: u64) -> u64 {
    let base = tvec & !0b11u64;
    if tvec & 0b11 == 1 {
        wadd(base, mul_low(code, 4))
    } else {
        base
    }
}

impl CpuModel {
    /// Trap entry: EPC, CAUSE and TVAL written, IE saved in PIE and cleared,
    /// the previous mode saved in PP, then `target` and the new mode taken.
    pub open spec fn enter_trap(self, to_supervisor: bool, cause: u64, tval: u64, target: u64) -> CpuModel {
        let t = trap_csrs(to_supervisor);
        let c1 = csr_write(self.csrs, t.epc as int, self.pc);
        let c2 = csr_write(c1, t.cause as int, cause);
        let c3 = csr_write(c2, t.tval as int, tval);
        let s = csr_read(c3, t.status as int);
        let ie = (s & t.mask_ie) >> t.ie_i;
        let s1 = (s & !t.mask_pie) | (ie << t.pie_i);
        let s2 = s1 & !t.mask_ie;
        let s3 = (s2 & !t.mask_pp) | (self.mode << t.pp_i);
        CpuModel {
            pc: target,
            mode: if to_supervisor { SUPERVISOR } else { MACHINE },
            csrs: csr_write(c3, t.status as int, s3),
            ..self
        }
    }

    /// An exception goes to supervisor mode when it arises in U- or S-mode
    /// and its bit of MEDELEG is set.
    pub open spec fn exception_delegated(self, e: Exception) -> bool {
        self.mode <= SUPERVISOR && bit_set(self.csrs[MEDELEG as int], e.spec_code())
    }

    pub open spec fn interrupt_delegated(self, i: Interrupt) -> bool {
        self.mode <= SUPERVISOR && bit_set(self.csrs[MIDELEG as int], i.spec_code())
    }

    pub open spec fn handle_exception(self, e: Exception) -> CpuModel {
        let to_s = self.exception_delegated(e);
        let tvec = csr_read(self.csrs, trap_csrs(to_s).tvec as int);
        self.enter_trap(to_s, e.spec_code(), e.spec_value(), tvec & !0b11u64)
    }

    pub open spec fn handle_interrupt(self, i: Interrupt) -> CpuModel {
        let to_s = self.interrupt_delegated(i);
        let tvec = csr_read(self.csrs, trap_csrs(to_s).tvec as int);
        self.enter_trap(to_s, i.spec_code(), 0, interrupt_target(tvec, i.spec_code()))
    }

    /// Interrupts are off in M-mode with MSTATUS.MIE clear, and in S-mode
    /// with SSTATUS.SIE clear.
    pub open spec fn interrupts_masked(self) -> bool {
        ||| (self.mode == MACHINE && csr_read(self.csrs, MSTATUS as int) & MASK_MIE == 0)
        ||| (self.mode == SUPERVISOR && csr_read(self.csrs, SSTATUS as int) & MASK_SIE == 0)
    }

    pub open spec fn raise_external(self, b: BusModel, irq: u64) -> CpuModel {
        CpuModel {
            bus: b.store(PLIC_SCLAIM, 32, irq).0,
            csrs: csr_write(self.csrs, MIP as int, csr_read(self.csrs, MIP as int) | MASK_SEIP),
            ..self
        }
    }

    /// Samples the device lines: the UART first; else the virtio device, whose
    /// request is served. The device's IRQ goes to the PLIC claim register and
    /// MIP.SEIP is set.
    pub open spec fn sample_devices(self) -> CpuModel {
        let b0 = BusModel { uart: UartModel { interrupting: false, ..self.bus.uart }, ..self.bus };
        if self.bus.uart.interrupting {
            self.raise_external(b0, UART_IRQ)
        } else if self.bus.virtio.regs.interrupting {
            let b1 = BusModel {
                virtio: VirtioModel {
                    regs: VirtioRegs { interrupting: false, ..self.bus.virtio.regs },
                    ..self.bus.virtio
                },
                ..b0
            };
            self.raise_external(b1.disk_access().0, VIRTIO_IRQ)
        } else {
            self
        }
    }

    pub open spec fn clear_pending(self, mask: u64) -> CpuModel {
        CpuModel { csrs: csr_write(self.csrs, MIP as int, csr_read(self.csrs, MIP as int) & !mask), ..self }
    }

    /// The first interrupt pending and enabled in MIE & MIP, in the order
    /// MEIP, MSIP, MTIP, SEIP, SSIP, STIP; its MIP bit is cleared.
    pub open spec fn pick_interrupt(self) -> (CpuModel, Option<Interrupt>) {
        let pending = csr_read(self.csrs, MIE as int) & csr_read(self.csrs, MIP as int);
        if pending & MASK_MEIP != 0 {
            (self.clear_pending(MASK_MEIP), Some(Interrupt::MachineExternalInterrupt))
        } else if pending & MASK_MSIP != 0 {
            (self.clear_pending(MASK_MSIP), Some(Interrupt::MachineSoftwareInterrupt))
        } else if pending & MASK_MTIP != 0 {
            (self.clear_pending(MASK_MTIP), Some(Interrupt::MachineTimerInterrupt))
        } else if pending & MASK_SEIP != 0 {
            (self.clear_pending(MASK_SEIP), Some(Interrupt::SupervisorExternalInterrupt))
        } else if pending & MASK_SSIP != 0 {
            (self.clear_pending(MASK_SSIP), Some(Interrupt::SupervisorSoftwareInterrupt))
        } else if pending & MASK_STIP != 0 {
            (self.clear_pending(MASK_STIP), Some(Interrupt::SupervisorTimerInterrupt))
        } else {
            (self, None)
        }
    }

    pub open spec fn check_pending_interrupt(self) -> (CpuModel, Option<Interrupt>) {
        if self.interrupts_masked() {
            (self, None)
        } else {
            self.sample_devices().pick_interrupt()
        }
    }
}

/// After an exception is handled, EPC holds the pc of the trapping
/// instruction, CAUSE its code, TVAL its value, and the pc is the base of the
/// TVEC of the mode that takes the trap.
pub proof fn lemma_exception_entry(m: CpuModel, e: Exception)
    requires
        m.csrs.len() == NUM_CSRS,
    ensures
        ({
            let n = m.handle_exception(e);
            if m.exception_delegated(e) {
                &&& n.mode == SUPERVISOR
                &&& n.csrs[SEPC as int] == m.pc
                &&& n.csrs[SCAUSE as int] == e.spec_code()
                &&& n.csrs[STVAL as int] == e.spec_value()
                &&& n.pc == m.csrs[STVEC as int] & !0b11u64
            } else {
                &&& n.mode == MACHINE
                &&& n.csrs[MEPC as int] == m.pc
                &&& n.csrs[MCAUSE as int] == e.spec_code()
                &&& n.csrs[MTVAL as int] == e.spec_value()
                &&& n.pc == m.csrs[MTVEC as int] & !0b11u64
            }
        }),
{
}

/// After an interrupt is taken, EPC holds the interrupted pc, CAUSE the
/// interrupt's code, TVAL zero, and the pc is TVEC's base (plus four times
/// the interrupt's number when TVEC is vectored).
pub proof fn lemma_interrupt_entry(m: CpuModel, i: Interrupt)
    requires
        m.csrs.len() == NUM_CSRS,
    ensures
        m.interrupt_delegated(i) == (m.mode <= SUPERVISOR && bit_set(m.csrs[MIDELEG as int], i.spec_number())),
        ({
            let n = m.handle_interrupt(i);
            if m.interrupt_delegated(i) {
                &&& n.mode == SUPERVISOR
                &&& n.csrs[SEPC as int] == m.pc
                &&& n.csrs[SCAUSE as int] == i.spec_code()
                &&& n.csrs[STVAL as int] == 0
                &&& n.pc == interrupt_target(m.csrs[STVEC as int], i.spec_code())
                &&& n.pc == if m.csrs[STVEC as int] & 0b11 == 1 {
                    wadd(m.csrs[STVEC as int] & !0b11u64, (4 * i.spec_number()) as u64)
                } else {
                    m.csrs[STVEC as int] & !0b11u64
                }
            } else {
                &&& n.mode == MACHINE
                &&& n.csrs[MEPC as int] == m.pc
                &&& n.csrs[MCAUSE as int] == i.spec_code()
                &&& n.csrs[MTVAL as int] == 0
                &&& n.pc == interrupt_target(m.csrs[MTVEC as int], i.spec_code())
                &&& n.pc == if m.csrs[MTVEC as int] & 0b11 == 1 {
                    wadd(m.csrs[MTVEC as int] & !0b11u64, (4 * i.spec_number()) as u64)
                } else {
                    m.csrs[MTVEC as int] & !0b11u64
                }
            }
        }),
{
    lemma_code_and_number(i);
}

impl Cpu {
    fn enter_trap(&mut self, to_supervisor: bool, t: TrapCsrs, cause: u64, tval: u64, target: u64)
        requires
            old(self).wf(),
            t == trap_csrs(to_supervisor),
        ensures
            final(self).wf(),
            final(self)@ == old(self)@.enter_trap(to_supervisor, cause, tval, target),
    {
        let pc = self.pc;
        let mode = self.mode;
        self.csr.store(t.epc, pc);
        self.csr.store(t.cause, cause);
        self.csr.store(t.tval, tval);
        let mut status = self.csr.load(t.status);
        let ie = (status & t.mask_ie) >> t.ie_i;
        // PIE <- IE
        status = (status & !t.mask_pie) | (ie << t.pie_i);
        // IE <- 0
        status = status & !t.mask_ie;
        // PP <- previous mode
        status = (status & !t.mask_pp) | (mode << t.pp_i);
        self.csr.store(t.status, status);
        self.pc = target;
        self.mode = if to_supervisor { SUPERVISOR } else { MACHINE };
    }

    pub fn handle_exception(&mut self, e: Exception)
        requires
            old(self).wf(),
        ensures
            final(self).wf(),
            final(self)@ == old(self)@.handle_exception(e),
    {
        let cause = e.code();
        let to_supervisor = self.mode <= SUPERVISOR && self.csr.is_medelegated(cause);
        let t = select_trap_csrs(to_supervisor);
        let target = self.csr.load(t.tvec) & !0b11;
        self.enter_trap(to_supervisor, t, cause, e.value(), target);
    }

    pub fn handle_interrupt(&mut self, interrupt: Interrupt)
        requires
            old(self).wf(),
        ensures
            final(self).wf(),
            final(self)@ == old(self)@.handle_interrupt(interrupt),
    {
        let code = interrupt.code();
        let to_supervisor = self.mode <= SUPERVISOR && self.csr.is_midelegated(code);
        let t = select_trap_csrs(to_supervisor);
        let tvec = self.csr.load(t.tvec);
        let base = tvec & !0b11;
        let target = if tvec & 0b11 == 1 { base.wrapping_add(code.wrapping_mul(4)) } else { base };
        self.enter_trap(to_supervisor, t, code, 0, target);
    }

    fn raise_external(&mut self, irq: u64)
        requires
            old(self).wf(),
        ensures
            final(self).wf(),
            final(self)@ == old(self)@.raise_external(old(self)@.bus, irq),
    {
        // A 32-bit store to the claim register always succeeds.
        let _ = self.bus.store(PLIC_SCLAIM, 32, irq);
        let mip = self.csr.load(MIP);
        self.csr.store(MIP, mip | MASK_SEIP);
    }

    fn clear_pending(&mut self, mask: u64)
        requires
            old(self).wf(),
        ensures
            final(self).wf(),
            final(self)@ == old(self)@.clear_pending(mask),
    {
        let mip = self.csr.load(MIP);
        self.csr.store(MIP, mip & !mask);
    }

    /// Polls for an interrupt to take, as `check_pending_interrupt` of the
    /// model says.
    pub fn check_pending_interrupt(&mut self) -> (r: Option<Interrupt>)
        requires
            old(self).wf(),
        ensures
            final(self).wf(),
            (final(self)@, r) == old(self)@.check_pending_interrupt(),
    {
        if self.mode == MACHINE && (self.csr.load(MSTATUS) & MASK_MIE) == 0 {
            return None;
        }
        if self.mode == SUPERVISOR && (self.csr.load(SSTATUS) & MASK_SIE) == 0 {
            return None;
        }
        if self.bus.uart.is_interrupting() {
            self.raise_external(UART_IRQ);
        } else if self.bus.virtio_blk.is_interrupting() {
            // A request whose descriptors do not read back is not served; the
            // interrupt is raised all the same.
            let _ = self.disk_access();
            self.raise_external(VIRTIO_IRQ);
        }
        let pending = self.csr.load(MIE) & self.csr.load(MIP);
        if pending & MASK_MEIP != 0 {
            self.clear_pending(MASK_MEIP);
            Some(Interrupt::MachineExternalInterrupt)
        } else if pending & MASK_MSIP != 0 {
            self.clear_pending(MASK_MSIP);
            Some(Interrupt::MachineSoftwareInterrupt)
        } else if pending & MASK_MTIP != 0 {
            self.clear_pending(MASK_MTIP);
            Some(Interrupt::MachineTimerInterrupt)
        } else if pending & MASK_SEIP != 0 {
            self.clear_pending(MASK_SEIP);
            Some(Interrupt::SupervisorExternalInterrupt)
        } else if pending & MASK_SSIP != 0 {
            self.clear_pending(MASK_SSIP);
            Some(Interrupt::SupervisorSoftwareInterrupt)
        } else if pending & MASK_STIP != 0 {
            self.clear_pending(MASK_STIP);
            Some(Interrupt::SupervisorTimerInterrupt)
        } else {
            None
        }
    }
}

} // verus!
