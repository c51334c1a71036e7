//! Looking up a register or a CSR of the hart by its assembler name.

use vstd::prelude::*;
use crate::cpu::{Cpu, CpuModel};
use crate::csr::{
    csr_read, MCAUSE, MCOUNTEREN, MEDELEG, MEPC, MHARTID, MIP, MSCRATCH, MSTATUS, MTVAL, MTVEC,
    SATP, SCAUSE, SEPC, SIP, SSCRATCH, SSTATUS, STVAL, STVEC,
};

verus! {

/// The integer register that an ABI name denotes.
pub open spec fn abi_register(name: Seq<char>) -> Option<int> {
    if name == "zero"@ {
        Some(0)
    } else if name == "ra"@ {
        Some(1)
    } else if name == "sp"@ {
        Some(2)
    } else if name == "gp"@ {
        Some(3)
    } else if name == "tp"@ {
        Some(4)
    } else if name == "t0"@ {
        Some(5)
    } else if name == "t1"@ {
        Some(6)
    } else if name == "t2"@ {
        Some(7)
    } else if name == "s0"@ {
        Some(8)
    } else if name == "s1"@ {
        Some(9)
    } else if name == "a0"@ {
        Some(10)
    } else if name == "a1"@ {
        Some(11)
    } else if name == "a2"@ {
        Some(12)
    } else if name == "a3"@ {
        Some(13)
    } else if name == "a4"@ {
        Some(14)
    } else if name == "a5"@ {
        Some(15)
    } else if name == "a6"@ {
        Some(16)
    } else if name == "a7"@ {
        Some(17)
    } else if name == "s2"@ {
        Some(18)
    } else if name == "s3"@ {
        Some(19)
    } else if name == "s4"@ {
        Some(20)
    } else if name == "s5"@ {
        Some(21)
    } else if name == "s6"@ {
        Some(22)
    } else if name == "s7"@ {
        Some(23)
    } else if name == "s8"@ {
        Some(24)
    } else if name == "s9"@ {
        Some(25)
    } else if name == "s10"@ {
        Some(26)
    } else if name == "s11"@ {
        Some(27)
    } else if name == "t3"@ {
        Some(28)
    } else if name == "t4"@ {
        Some(29)
    } else if name == "t5"@ {
        Some(30)
    } else if name == "t6"@ {
        Some(31)
    } else {
        None
    }
}

/// The CSR that a name denotes.
pub open spec fn named_csr(name: Seq<char>) -> Option<int> {
    if name == "mhartid"@ {
        Some(MHARTID as int)
    } else if name == "mstatus"@ {
        Some(MSTATUS as int)
    } else if name == "mtvec"@ {
        Some(MTVEC as int)
    } else if name == "mepc"@ {
        Some(MEPC as int)
    } else if name == "mcause"@ {
        Some(MCAUSE as int)
    } else if name == "mtval"@ {
        Some(MTVAL as int)
    } else if name == "medeleg"@ {
        Some(MEDELEG as int)
    } else if name == "mscratch"@ {
        Some(MSCRATCH as int)
    } else if name == "MIP"@ {
        Some(MIP as int)
    } else if name == "mcounteren"@ {
        Some(MCOUNTEREN as int)
    } else if name == "sstatus"@ {
        Some(SSTATUS as int)
    } else if name == "stvec"@ {
        Some(STVEC as int)
    } else if name == "sepc"@ {
        Some(SEPC as int)
    } else if name == "scause"@ {
        Some(SCAUSE as int)
    } else if name == "stval"@ {
        Some(STVAL as int)
    } else if name == "sscratch"@ {
        Some(SSCRATCH as int)
    } else if name == "SIP"@ {
        Some(SIP as int)
    } else if name == "SATP"@ {
        Some(SATP as int)
    } else {
        None
    }
}

pub open spec fn digit(c: char) -> Option<int> {
    if '0' <= c && c <= '9' {
        Some(c as int - '0' as int)
    } else {
        None
    }
}

pub open spec fn all_digits(s: Seq<char>) -> bool {
    forall|i: int| 0 <= i < s.len() ==> (#[trigger] digit(s[i])) is Some
}

/// The number that a string of decimal digits spells.
pub open spec fn decimal(s: Seq<char>) -> int
    decreases s.len(),
{
    if s.len() == 0 {
        0
    } else {
        10 * decimal(s.drop_last()) + digit(s.last())->0
    }
}

/// `x0` to `x31`: the letter x and decimal digits (leading zeros allowed)
/// that spell a number below 32.
pub open spec fn numbered_register(name: Seq<char>) -> Option<int> {
    let digits = name.subrange(1, name.len() as int);
    if name.len() >= 2 && name[0] == 'x' && all_digits(digits) && decimal(digits) < 32 {
        Some(decimal(digits))
    } else {
        None
    }
}

/// Digits added at the end never make the number smaller.
proof fn lemma_decimal_prefix(s: Seq<char>, k: int)
    requires
        all_digits(s),
        0 <= k <= s.len(),
    ensures
        0 <= decimal(s.subrange(0, k)) <= decimal(s),
    decreases s.len(),
{
    if k == s.len() {
        assert(s.subrange(0, k) =~= s);
        if s.len() > 0 {
            assert(all_digits(s.drop_last()));
            lemma_decimal_prefix(s.drop_last(), k - 1);
        }
    } else {
        let t = s.drop_last();
        assert(all_digits(t));
        assert(t.subrange(0, k) =~= s.subrange(0, k));
        lemma_decimal_prefix(t, k);
        assert(digit(s[s.len() - 1]) is Some);
    }
}

impl CpuModel {
    /// The value that `reg` reads for `name`, if the name is known: an ABI
    /// register name, `pc`, `fp`, `x0` to `x31`, or a CSR name.
    pub open spec fn named_value(self, name: Seq<char>) -> Option<u64> {
        if let Some(i) = abi_register(name) {
            Some(self.regs[i])
        } else if name == "pc"@ {
            Some(self.pc)
        } else if name == "fp"@ {
            Some(self.regs[8])
        } else if let Some(i) = numbered_register(name) {
            Some(self.regs[i])
        } else if let Some(a) = named_csr(name) {
            Some(csr_read(self.csrs, a))
        } else {
            None
        }
    }
}

/// Whether two strings hold the same characters.
fn same_chars(a: &str, b: &str) -> (r: bool)
    ensures
        r == (a@ == b@),
{
    let n = a.unicode_len();
    if n != b.unicode_len() {
        return false;
    }
    let mut i: usize = 0;
    while i < n
        invariant
            n == a@.len() == b@.len(),
            i <= n,
            forall|j: int| 0 <= j < i ==> a@[j] == b@[j],
        decreases n - i,
    {
        if a.get_char(i) != b.get_char(i) {
            return false;
        }
        i = i + 1;
    }
    assert(a@ =~= b@);
    true
}

fn abi_index(name: &str) -> (r: Option<usize>)
    ensures
        r matches Some(i) ==> abi_register(name@) == Some(i as int) && i < 32,
        r is None ==> abi_register(name@) is None,
{
    if same_chars(name, "zero") {
        Some(0)
    } else if same_chars(name, "ra") {
        Some(1)
    } else if same_chars(name, "sp") {
        Some(2)
    } else if same_chars(name, "gp") {
        Some(3)
    } else if same_chars(name, "tp") {
        Some(4)
    } else if same_chars(name, "t0") {
        Some(5)
    } else if same_chars(name, "t1") {
        Some(6)
    } else if same_chars(name, "t2") {
        Some(7)
    } else if same_chars(name, "s0") {
        Some(8)
    } else if same_chars(name, "s1") {
        Some(9)
    } else if same_chars(name, "a0") {
        Some(10)
    } else if same_chars(name, "a1") {
        Some(11)
    } else if same_chars(name, "a2") {
        Some(12)
    } else if same_chars(name, "a3") {
        Some(13)
    } else if same_chars(name, "a4") {
        Some(14)
    } else if same_chars(name, "a5") {
        Some(15)
    } else if same_chars(name, "a6") {
        Some(16)
    } else if same_chars(name, "a7") {
        Some(17)
    } else if same_chars(name, "s2") {
        Some(18)
    } else if same_chars(name, "s3") {
        Some(19)
    } else if same_chars(name, "s4") {
        Some(20)
    } else if same_chars(name, "s5") {
        Some(21)
    } else if same_chars(name, "s6") {
        Some(22)
    } else if same_chars(name, "s7") {
        Some(23)
    } else if same_chars(name, "s8") {
        Some(24)
    } else if same_chars(name, "s9") {
        Some(25)
    } else if same_chars(name, "s10") {
        Some(26)
    } else if same_chars(name, "s11") {
        Some(27)
    } else if same_chars(name, "t3") {
        Some(28)
    } else if same_chars(name, "t4") {
        Some(29)
    } else if same_chars(name, "t5") {
        Some(30)
    } else if same_chars(name, "t6") {
        Some(31)
    } else {
        None
    }
}

fn csr_index(name: &str) -> (r: Option<usize>)
    ensures
        r matches Some(a) ==> named_csr(name@) == Some(a as int) && a < 4096,
        r is None ==> named_csr(name@) is None,
{
    if same_chars(name, "mhartid") {
        Some(MHARTID)
    } else if same_chars(name, "mstatus") {
        Some(MSTATUS)
    } else if same_chars(name, "mtvec") {
        Some(MTVEC)
    } else if same_chars(name, "mepc") {
        Some(MEPC)
    } else if same_chars(name, "mcause") {
        Some(MCAUSE)
    } else if same_chars(name, "mtval") {
        Some(MTVAL)
    } else if same_chars(name, "medeleg") {
        Some(MEDELEG)
    } else if same_chars(name, "mscratch") {
        Some(MSCRATCH)
    } else if same_chars(name, "MIP") {
        Some(MIP)
    } else if same_chars(name, "mcounteren") {
        Some(MCOUNTEREN)
    } else if same_chars(name, "sstatus") {
        Some(SSTATUS)
    } else if same_chars(name, "stvec") {
        Some(STVEC)
    } else if same_chars(name, "sepc") {
        Some(SEPC)
    } else if same_chars(name, "scause") {
        Some(SCAUSE)
    } else if same_chars(name, "stval") {
        Some(STVAL)
    } else if same_chars(name, "sscratch") {
        Some(SSCRATCH)
    } else if same_chars(name, "SIP") {
        Some(SIP)
    } else if same_chars(name, "SATP") {
        Some(SATP)
    } else {
        None
    }
}

fn digit_value(c: char) -> (r: Option<usize>)
    ensures
        r matches Some(d) ==> digit(c) == Some(d as int) && d < 10,
        r is None ==> digit(c) is None,
{
    if '0' <= c && c <= '9' {
        Some((c as u32 - '0' as u32) as usize)
    } else {
        None
    }
}

fn number_index(name: &str) -> (r: Option<usize>)
    ensures
        r matches Some(i) ==> numbered_register(name@) == Some(i as int) && i < 32,
        r is None ==> numbered_register(name@) is None,
{
    let n = name.unicode_len();
    if n < 2 || name.get_char(0) != 'x' {
        return None;
    }
    let ghost digits = name@.subrange(1, n as int);
    let mut v: usize = 0;
    let mut i: usize = 1;
    assert(name@.subrange(1, 1) =~= Seq::<char>::empty());
    while i < n
        invariant
            n == name@.len(),
            2 <= n,
            name@[0] == 'x',
            digits == name@.subrange(1, n as int),
            1 <= i <= n,
            v < 32,
            all_digits(name@.subrange(1, i as int)),
            v == decimal(name@.subrange(1, i as int)),
        decreases n - i,
    {
        let prefix = Ghost(name@.subrange(1, i as int));
        let next = Ghost(name@.subrange(1, i + 1));
        assert(next@.drop_last() =~= prefix@);
        let d = match digit_value(name.get_char(i)) {
            Some(d) => d,
            None => {
                assert(digits[i - 1] == name@[i as int]);
                return None;
            },
        };
        assert(all_digits(next@)) by {
            assert forall|j: int| 0 <= j < next@.len() implies (#[trigger] digit(next@[j])) is Some by {
                if j < prefix@.len() {
                    assert(next@[j] == prefix@[j]);
                }
            }
        }
        if 10 * v + d >= 32 {
            proof {
                if all_digits(digits) {
                    assert(digits.subrange(0, i as int) =~= next@);
                    lemma_decimal_prefix(digits, i as int);
                }
            }
            return None;
        }
        v = 10 * v + d;
        i = i + 1;
    }
    assert(name@.subrange(1, i as int) =~= digits);
    Some(v)
}

impl Cpu {
    /// Reads a register or CSR by its assembler name.
    pub fn reg(&self, r: &str) -> (v: u64)
        requires
            self@.named_value(r@) is Some,
        ensures
            Some(v) == self@.named_value(r@),
    {
        if let Some(i) = abi_index(r) {
            return self.regs[i];
        }
        if same_chars(r, "pc") {
            return self.pc;
        }
        if same_chars(r, "fp") {
            return self.regs[8];
        }
        if let Some(i) = number_index(r) {
            return self.regs[i];
        }
        match csr_index(r) {
            Some(a) => self.csr.load(a),
            None => 0,
        }
    }
}

} // verus!
