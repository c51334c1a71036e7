//! One tick of the hart (fetch, execute, trap, interrupt poll) and a run
//! bounded by a tick budget.

use vstd::prelude::*;
use crate::cpu::{lemma_x0_stays_zero, Cpu, CpuModel};
use crate::exception::Exception;

verus! {

/// How a tick ended.
#[derive(Debug, Clone, Copy, PartialEq, Eq, Structural)]
pub enum StepOutcome {
    /// The hart goes on.
    Continue,
    /// The fetched word was zero: the program is over.
    Halt,
    /// A fatal trap was handled; the run stops.
    Fatal(Exception),
}

impl CpuModel {
    /// Takes the interrupt that the poll finds, if any.
    pub open spec fn poll(self) -> CpuModel {
        let (m, i) = self.check_pending_interrupt();
        match i {
            Some(irq) => m.handle_interrupt(irq),
            None => m,
        }
    }

    pub open spec fn trap_then_poll(self, e: Exception) -> (CpuModel, StepOutcome) {
        let m = self.handle_exception(e);
        if e.spec_is_fatal() {
            (m, StepOutcome::Fatal(e))
        } else {
            (m.poll(), StepOutcome::Continue)
        }
    }

    pub open spec fn step(self) -> (CpuModel, StepOutcome) {
        let (m1, f) = self.fetch();
        match f {
            Err(e) => m1.trap_then_poll(e),
            Ok(inst) => {
                if inst == 0 {
                    (m1, StepOutcome::Halt)
                } else {
                    let (m2, r) = m1.execute(inst);
                    match r {
                        Ok(next) => (CpuModel { pc: next, ..m2 }.poll(), StepOutcome::Continue),
                        Err(e) => m2.trap_then_poll(e),
                    }
                }
            },
        }
    }

    /// At most `n` ticks; the run stops early on a halt or a fatal trap.
    pub open spec fn run(self, n: nat) -> (CpuModel, StepOutcome)
        decreases n,
    {
        if n == 0 {
            (self, StepOutcome::Continue)
        } else {
            let (m, o) = self.step();
            if o == StepOutcome::Continue {
                m.run((n - 1) as nat)
            } else {
                (m, o)
            }
        }
    }
}

/// A whole tick, traps and interrupts included, never makes `x0` read as
/// anything but zero.
pub proof fn lemma_step_keeps_x0(m: CpuModel)
    requires
        m.regs.len() == 32,
        m.regs[0] == 0,
    ensures
        m.step().0.regs[0] == 0,
{
    let (m1, f) = m.fetch();
    assert(m1.regs == m.regs);
    if let Ok(inst) = f {
        lemma_x0_stays_zero(m1, inst);
    }
}

impl Cpu {
    fn poll(&mut self)
        requires
            old(self).wf(),
        ensures
            final(self).wf(),
            final(self)@ == old(self)@.poll(),
    {
        match self.check_pending_interrupt() {
            Some(interrupt) => self.handle_interrupt(interrupt),
            None => {},
        }
    }

    fn trap_then_poll(&mut self, e: Exception) -> (r: StepOutcome)
        requires
            old(self).wf(),
        ensures
            final(self).wf(),
            (final(self)@, r) == old(self)@.trap_then_poll(e),
    {
        self.handle_exception(e);
        if e.is_fatal() {
            return StepOutcome::Fatal(e);
        }
        self.poll();
        StepOutcome::Continue
    }

    /// One tick: translate and fetch at `pc`, execute, handle a trap, poll
    /// for interrupts.
    pub fn step(&mut self) -> (r: StepOutcome)
        requires
            old(self).wf(),
        ensures
            final(self).wf(),
            (final(self)@, r) == old(self)@.step(),
    {
        let inst = match self.fetch() {
            Ok(inst) => inst,
            Err(e) => {
                return self.trap_then_poll(e);
            },
        };
        if inst == 0 {
            return StepOutcome::Halt;
        }
        match self.execute(inst) {
            Ok(next) => {
                self.pc = next;
                self.poll();
                StepOutcome::Continue
            },
            Err(e) => self.trap_then_poll(e),
        }
    }

    /// Runs for at most `n_clock` ticks.
    pub fn run(&mut self, n_clock: u64) -> (r: StepOutcome)
        requires
            old(self).wf(),
        ensures
            final(self).wf(),
            (final(self)@, r) == old(self)@.run(n_clock as nat),
    {
        let mut left = n_clock;
        while left > 0
            invariant
                self.wf(),
                self@.run(left as nat) == old(self)@.run(n_clock as nat),
            decreases left,
        {
            let o = self.step();
            if o != StepOutcome::Continue {
                return o;
            }
            left = left - 1;
        }
        StepOutcome::Continue
    }
}

} // verus!
