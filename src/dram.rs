//! Byte-addressed main memory with little-endian multi-byte access.

use vstd::prelude::*;
use vstd::arithmetic::div_mod::{lemma_div_denominator, lemma_mod_breakdown};
use crate::exception::Exception;
use crate::param::{DRAM_BASE, DRAM_SIZE};

verus! {

/// `256` raised to `n`.
pub open spec fn pow256(n: nat) -> nat
    decreases n,
{
    if n == 0 {
        1
    } else {
        256 * pow256((n - 1) as nat)
    }
}

/// The number that the bytes `b` encode, least significant byte first.
pub open spec fn le_value(b: Seq<u8>) -> nat
    decreases b.len(),
{
    if b.len() == 0 {
        0
    } else {
        b[0] as nat + 256 * le_value(b.drop_first())
    }
}

/// Byte `k` (counted from the least significant) of `v`.
pub open spec fn byte_of(v: nat, k: nat) -> u8 {
    ((v / pow256(k)) % 256) as u8
}

/// The `n` low bytes of `v`, least significant first.
pub open spec fn le_bytes(v: nat, n: nat) -> Seq<u8> {
    Seq::new(n, |k: int| byte_of(v, k as nat))
}

/// Access widths in bits that memory accepts.
pub open spec fn is_width(size: u64) -> bool {
    size == 8 || size == 16 || size == 32 || size == 64
}

/// Whether an access of `size` bits at physical `addr` lies in DRAM.
pub open spec fn dram_access_ok(addr: u64, size: u64) -> bool {
    &&& is_width(size)
    &&& DRAM_BASE <= addr
    &&& addr - DRAM_BASE + size / 8 <= DRAM_SIZE
}

/// `mem` with the `n` bytes at `off` replaced by the low bytes of `v`.
pub open spec fn write_le(mem: Seq<u8>, off: int, n: nat, v: nat) -> Seq<u8> {
    Seq::new(mem.len(), |i: int| if off <= i < off + n { byte_of(v, (i - off) as nat) } else { mem[i] })
}

/// What a load of `size` bits at `addr` returns from the memory image `mem`.
pub open spec fn dram_load(mem: Seq<u8>, addr: u64, size: u64) -> Result<u64, Exception> {
    if dram_access_ok(addr, size) {
        let off = addr - DRAM_BASE;
        Ok(le_value(mem.subrange(off, off + size / 8)) as u64)
    } else {
        Err(Exception::LoadAccessFault(addr))
    }
}

/// The memory image after a store of `size` bits of `value` at `addr`.
pub open spec fn dram_store(mem: Seq<u8>, addr: u64, size: u64, value: u64) -> Seq<u8> {
    if dram_access_ok(addr, size) {
        write_le(mem, addr - DRAM_BASE, (size / 8) as nat, value as nat)
    } else {
        mem
    }
}

pub open spec fn dram_store_result(addr: u64, size: u64) -> Result<(), Exception> {
    if dram_access_ok(addr, size) {
        Ok(())
    } else {
        Err(Exception::StoreAMOAccessFault(addr))
    }
}

pub proof fn lemma_pow256_facts()
    ensures
        pow256(0) == 1,
        pow256(1) == 256,
        pow256(2) == 0x1_0000,
        pow256(4) == 0x1_0000_0000,
        pow256(8) == 0x1_0000_0000_0000_0000,
{
    reveal_with_fuel(pow256, 9);
}

pub proof fn lemma_pow256_monotone(a: nat, b: nat)
    requires
        a <= b,
    ensures
        pow256(a) <= pow256(b),
        pow256(a) > 0,
    decreases b,
{
    if b > a {
        lemma_pow256_monotone(a, (b - 1) as nat);
    } else if a > 0 {
        lemma_pow256_monotone((a - 1) as nat, (a - 1) as nat);
    }
}

/// A value read back from `n` bytes never reaches `256^n`.
pub proof fn lemma_le_value_bound(b: Seq<u8>)
    ensures
        le_value(b) < pow256(b.len()),
    decreases b.len(),
{
    if b.len() > 0 {
        lemma_le_value_bound(b.drop_first());
    }
}

/// Reading back the `n` low bytes of `v` gives `v` modulo `256^n`.
pub proof fn lemma_le_round_trip(v: nat, n: nat)
    ensures
        le_value(le_bytes(v, n)) == v % pow256(n),
    decreases n,
{
    if n == 0 {
    } else {
        let s = le_bytes(v, n);
        let t = le_bytes(v / 256, (n - 1) as nat);
        assert forall|k: int| 0 <= k < n - 1 implies #[trigger] s.drop_first()[k] == t[k] by {
            lemma_pow256_monotone(0, k as nat);
            lemma_div_denominator(v as int, 256, pow256(k as nat) as int);
        }
        assert(s.drop_first() =~= t);
        lemma_le_round_trip(v / 256, (n - 1) as nat);
        lemma_pow256_monotone(0, (n - 1) as nat);
        lemma_mod_breakdown(v as int, 256, pow256((n - 1) as nat) as int);
    }
}

pub struct Dram {
    pub dram: Vec<u8>,
}

impl View for Dram {
    type V = Seq<u8>;

    open spec fn view(&self) -> Seq<u8> {
        self.dram@
    }
}

impl Dram {
    pub open spec fn wf(&self) -> bool {
        self.dram.len() == DRAM_SIZE
    }

    /// Memory of `DRAM_SIZE` bytes holding `code` at its start and zeros after it.
    pub fn new(code: Vec<u8>) -> (r: Self)
        requires
            code.len() <= DRAM_SIZE,
        ensures
            r.wf(),
            forall|i: int| 0 <= i < code.len() ==> #[trigger] r@[i] == code@[i],
            forall|i: int| code.len() <= i < DRAM_SIZE ==> #[trigger] r@[i] == 0,
    {
        let mut dram: Vec<u8> = vec![0u8; DRAM_SIZE as usize];
        assert(forall|i: int| 0 <= i < DRAM_SIZE ==> #[trigger] dram@[i] == 0);
        let mut i: usize = 0;
        while i < code.len()
            invariant
                i <= code.len() <= DRAM_SIZE,
                dram.len() == DRAM_SIZE,
                forall|j: int| 0 <= j < i ==> #[trigger] dram@[j] == code@[j],
                forall|j: int| i <= j < DRAM_SIZE ==> #[trigger] dram@[j] == 0,
            decreases code.len() - i,
        {
            dram[i] = code[i];
            i = i + 1;
        }
        Dram { dram }
    }

    pub fn load(&self, addr: u64, size: u64) -> (r: Result<u64, Exception>)
        requires
            self.wf(),
        ensures
            r == dram_load(self@, addr, size),
    {
        if !(size == 8 || size == 16 || size == 32 || size == 64) || addr < DRAM_BASE
            || addr - DRAM_BASE > DRAM_SIZE - size / 8 {
            return Err(Exception::LoadAccessFault(addr));
        }
        Ok(self.load_little_endian((addr - DRAM_BASE) as usize, (size / 8) as usize))
    }

    fn load_little_endian(&self, index: usize, bytes: usize) -> (r: u64)
        requires
            self.wf(),
            1 <= bytes <= 8,
            index + bytes <= DRAM_SIZE,
        ensures
            r as nat == le_value(self@.subrange(index as int, index + bytes)),
    {
        let mut v: u64 = 0;
        let mut j: usize = bytes;
        proof {
            lemma_pow256_facts();
            assert(self@.subrange(index + j, index + bytes) =~= Seq::<u8>::empty());
        }
        while j > 0
            invariant
                self.wf(),
                1 <= bytes <= 8,
                index + bytes <= DRAM_SIZE,
                j <= bytes,
                v as nat == le_value(self@.subrange(index + j, index + bytes)),
                pow256(8) == 0x1_0000_0000_0000_0000,
            decreases j,
        {
            let b = self.dram[index + j - 1];
            proof {
                let s = self@.subrange(index + j - 1, index + bytes);
                assert(s.drop_first() =~= self@.subrange(index + j, index + bytes));
                lemma_le_value_bound(s);
                lemma_pow256_monotone(s.len(), 8);
            }
            v = v * 256 + b as u64;
            j = j - 1;
        }
        v
    }

    pub fn store(&mut self, addr: u64, size: u64, value: u64) -> (r: Result<(), Exception>)
        requires
            old(self).wf(),
        ensures
            final(self).wf(),
            final(self)@ == dram_store(old(self)@, addr, size, value),
            r == dram_store_result(addr, size),
    {
        if !(size == 8 || size == 16 || size == 32 || size == 64) || addr < DRAM_BASE
            || addr - DRAM_BASE > DRAM_SIZE - size / 8 {
            return Err(Exception::StoreAMOAccessFault(addr));
        }
        self.store_little_endian((addr - DRAM_BASE) as usize, (size / 8) as usize, value);
        Ok(())
    }

    fn store_little_endian(&mut self, index: usize, bytes: usize, value: u64)
        requires
            old(self).wf(),
            1 <= bytes <= 8,
            index + bytes <= DRAM_SIZE,
        ensures
            final(self).wf(),
            final(self)@ == write_le(old(self)@, index as int, bytes as nat, value as nat),
    {
        let mut rest: u64 = value;
        let mut k: usize = 0;
        proof {
            lemma_pow256_facts();
        }
        while k < bytes
            invariant
                self.wf(),
                1 <= bytes <= 8,
                index + bytes <= DRAM_SIZE,
                k <= bytes,
                rest as nat == value as nat / pow256(k as nat),
                forall|i: int|
                    0 <= i < DRAM_SIZE ==> #[trigger] self@[i] == if index <= i < index + k {
                        byte_of(value as nat, (i - index) as nat)
                    } else {
                        old(self)@[i]
                    },
            decreases bytes - k,
        {
            let ghost prev = self@;
            self.dram[index + k] = (rest % 256) as u8;
            proof {
                assert forall|i: int| 0 <= i < DRAM_SIZE implies #[trigger] self@[i] == if index <= i
                    < index + k + 1 {
                    byte_of(value as nat, (i - index) as nat)
                } else {
                    old(self)@[i]
                } by {
                    if i != index + k {
                        assert(self@[i] == prev[i]);
                    }
                }
                lemma_pow256_monotone(0, k as nat);
                lemma_div_denominator(value as int, pow256(k as nat) as int, 256);
                assert(pow256((k + 1) as nat) == pow256(k as nat) * 256) by (nonlinear_arith)
                    requires pow256((k + 1) as nat) == 256 * pow256(k as nat);
            }
            rest = rest / 256;
            k = k + 1;
        }
        assert(self@ =~= write_le(old(self)@, index as int, bytes as nat, value as nat));
    }
}

} // verus!
