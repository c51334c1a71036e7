//! A 16550-style UART: a 256-byte register window. The host side hands in
//! received bytes with `receive` and collects transmitted ones with
//! `take_output`.

use vstd::prelude::*;
use crate::exception::Exception;
use crate::param::{MASK_UART_LSR_RX, MASK_UART_LSR_TX, UART_BASE, UART_END, UART_LSR, UART_RHR, UART_THR};

verus! {

pub struct UartModel {
    pub regs: Seq<u8>,
    pub interrupting: bool,
    pub output: Seq<u8>,
}

impl UartModel {
    /// A load of `size` bits at `addr`: reading RHR clears LSR.RX.
    pub open spec fn load(self, addr: u64, size: u64) -> (UartModel, Result<u64, Exception>) {
        if size != 8 {
            (self, Err(Exception::LoadAccessFault(addr)))
        } else if addr - UART_BASE == UART_RHR {
            (
                UartModel {
                    regs: self.regs.update(UART_LSR as int, self.regs[UART_LSR as int] & !MASK_UART_LSR_RX),
                    ..self
                },
                Ok(self.regs[UART_RHR as int] as u64),
            )
        } else {
            (self, Ok(self.regs[addr - UART_BASE] as u64))
        }
    }

    /// A store of `size` bits at `addr`: a byte written to THR is transmitted.
    pub open spec fn store(self, addr: u64, size: u64, value: u64) -> (UartModel, Result<(), Exception>) {
        if size != 8 {
            (self, Err(Exception::StoreAMOAccessFault(addr)))
        } else if addr - UART_BASE == UART_THR {
            (UartModel { output: self.output.push(value as u8), ..self }, Ok(()))
        } else {
            (UartModel { regs: self.regs.update(addr - UART_BASE, value as u8), ..self }, Ok(()))
        }
    }

    /// Whether LSR.RX says that a received byte still waits in RHR.
    pub open spec fn rx_full(self) -> bool {
        self.regs[UART_LSR as int] & MASK_UART_LSR_RX != 0
    }
}

pub struct Uart {
    pub regs: [u8; 256],
    pub interrupting: bool,
    pub output: Vec<u8>,
}

impl View for Uart {
    type V = UartModel;

    open spec fn view(&self) -> UartModel {
        UartModel { regs: self.regs@, interrupting: self.interrupting, output: self.output@ }
    }
}

impl Uart {
    /// Registers cleared but for LSR.TX: the transmitter takes the next byte.
    pub fn new() -> (r: Self)
        ensures
            r@.regs.len() == 256,
            forall|i: int| 0 <= i < 256 && i != UART_LSR ==> #[trigger] r@.regs[i] == 0,
            r@.regs[UART_LSR as int] == MASK_UART_LSR_TX,
            !r@.interrupting,
            r@.output.len() == 0,
    {
        let mut regs = [0u8; 256];
        regs[UART_LSR as usize] = MASK_UART_LSR_TX;
        Uart { regs, interrupting: false, output: Vec::new() }
    }

    pub fn load(&mut self, addr: u64, size: u64) -> (r: Result<u64, Exception>)
        requires
            UART_BASE <= addr <= UART_END,
        ensures
            (final(self)@, r) == old(self)@.load(addr, size),
    {
        if size != 8 {
            return Err(Exception::LoadAccessFault(addr));
        }
        let index = addr - UART_BASE;
        if index == UART_RHR {
            self.regs[UART_LSR as usize] = self.regs[UART_LSR as usize] & !MASK_UART_LSR_RX;
            Ok(self.regs[UART_RHR as usize] as u64)
        } else {
            Ok(self.regs[index as usize] as u64)
        }
    }

    pub fn store(&mut self, addr: u64, size: u64, value: u64) -> (r: Result<(), Exception>)
        requires
            UART_BASE <= addr <= UART_END,
        ensures
            (final(self)@, r) == old(self)@.store(addr, size, value),
    {
        if size != 8 {
            return Err(Exception::StoreAMOAccessFault(addr));
        }
        let index = addr - UART_BASE;
        if index == UART_THR {
            self.output.push(value as u8);
        } else {
            self.regs[index as usize] = value as u8;
        }
        Ok(())
    }

    /// Takes the interrupt flag and clears it.
    pub fn is_interrupting(&mut self) -> (r: bool)
        ensures
            r == old(self)@.interrupting,
            final(self)@ == (UartModel { interrupting: false, ..old(self)@ }),
    {
        let r = self.interrupting;
        self.interrupting = false;
        r
    }

    /// The producer side: a byte from the host is accepted only while RHR is
    /// empty (LSR.RX clear); it then fills RHR, sets LSR.RX and raises the
    /// interrupt flag.
    pub fn receive(&mut self, byte: u8) -> (accepted: bool)
        ensures
            accepted == !old(self)@.rx_full(),
            !accepted ==> final(self)@ == old(self)@,
            accepted ==> final(self)@ == (UartModel {
                regs: old(self)@.regs.update(UART_RHR as int, byte).update(
                    UART_LSR as int,
                    old(self)@.regs[UART_LSR as int] | MASK_UART_LSR_RX,
                ),
                interrupting: true,
                ..old(self)@
            }),
    {
        if self.regs[UART_LSR as usize] & MASK_UART_LSR_RX != 0 {
            return false;
        }
        self.regs[UART_RHR as usize] = byte;
        self.regs[UART_LSR as usize] = self.regs[UART_LSR as usize] | MASK_UART_LSR_RX;
        self.interrupting = true;
        true
    }

    /// Hands out the transmitted bytes, oldest first, and forgets them.
    pub fn take_output(&mut self) -> (out: Vec<u8>)
        ensures
            out@ == old(self)@.output,
            final(self)@ == (UartModel { output: Seq::empty(), ..old(self)@ }),
    {
        let mut out: Vec<u8> = Vec::new();
        std::mem::swap(&mut out, &mut self.output);
        out
    }
}

} // verus!
