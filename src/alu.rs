//! Integer semantics of the RV64IMA operations, as pure functions of their
//! operands. `None` marks an encoding that names no operation.

use vstd::prelude::*;
use vstd::wrapping::u64_specs;

verus! {

pub const ALL_ONES: u64 = 0xffff_ffff_ffff_ffff;

/// The low 8 bits of `x`, sign-extended to 64 bits.
pub open spec fn sext8(x: u64) -> u64 {
    let lo = x & 0xff;
    if lo & 0x80 != 0 { lo | 0xffff_ffff_ffff_ff00 } else { lo }
}

/// The low 16 bits of `x`, sign-extended to 64 bits.
pub open spec fn sext16(x: u64) -> u64 {
    let lo = x & 0xffff;
    if lo & 0x8000 != 0 { lo | 0xffff_ffff_ffff_0000 } else { lo }
}

/// The low 32 bits of `x`, sign-extended to 64 bits.
pub open spec fn sext32(x: u64) -> u64 {
    let lo = x & 0xffff_ffff;
    if lo & 0x8000_0000 != 0 { lo | 0xffff_ffff_0000_0000 } else { lo }
}

pub fn sign_extend_8(x: u64) -> (r: u64)
    ensures
        r == sext8(x),
{
    let lo = x & 0xff;
    if lo & 0x80 != 0 { lo | 0xffff_ffff_ffff_ff00 } else { lo }
}

pub fn sign_extend_16(x: u64) -> (r: u64)
    ensures
        r == sext16(x),
{
    let lo = x & 0xffff;
    if lo & 0x8000 != 0 { lo | 0xffff_ffff_ffff_0000 } else { lo }
}

pub fn sign_extend_32(x: u64) -> (r: u64)
    ensures
        r == sext32(x),
{
    let lo = x & 0xffff_ffff;
    if lo & 0x8000_0000 != 0 { lo | 0xffff_ffff_0000_0000 } else { lo }
}

/// Sign extension keeps the low bits and fills every higher bit with the
/// sign bit of the narrow value.
pub proof fn lemma_sign_extension(x: u64)
    ensures
        sext8(x) % 0x100 == x % 0x100,
        sext8(x) / 0x100 == if x % 0x100 >= 0x80 { 0xff_ffff_ffff_ffffu64 } else { 0 },
        sext16(x) % 0x1_0000 == x % 0x1_0000,
        sext16(x) / 0x1_0000 == if x % 0x1_0000 >= 0x8000 { 0xffff_ffff_ffffu64 } else { 0 },
        sext32(x) % 0x1_0000_0000 == x % 0x1_0000_0000,
        sext32(x) / 0x1_0000_0000 == if x % 0x1_0000_0000 >= 0x8000_0000 {
            0xffff_ffffu64
        } else {
            0
        },
{
    assert(sext8(x) % 0x100 == x % 0x100) by (bit_vector);
    assert(sext8(x) / 0x100 == if x % 0x100 >= 0x80 { 0xff_ffff_ffff_ffffu64 } else { 0 })
        by (bit_vector);
    assert(sext16(x) % 0x1_0000 == x % 0x1_0000) by (bit_vector);
    assert(sext16(x) / 0x1_0000 == if x % 0x1_0000 >= 0x8000 { 0xffff_ffff_ffffu64 } else { 0 })
        by (bit_vector);
    assert(sext32(x) % 0x1_0000_0000 == x % 0x1_0000_0000) by (bit_vector);
    assert(sext32(x) / 0x1_0000_0000 == if x % 0x1_0000_0000 >= 0x8000_0000 {
        0xffff_ffffu64
    } else {
        0
    }) by (bit_vector);
}

pub open spec fn abs(x: int) -> nat {
    if x < 0 { (-x) as nat } else { x as nat }
}

/// Quotient rounded toward zero.
pub open spec fn trunc_div(x: int, y: int) -> int {
    let q = abs(x) / abs(y);
    if (x < 0) != (y < 0) { -q } else { q as int }
}

/// Remainder of the quotient rounded toward zero: the sign of the dividend,
/// the magnitude `|x| mod |y|`.
pub open spec fn trunc_rem(x: int, y: int) -> int {
    let m = abs(x) % abs(y);
    if x < 0 { -m } else { m as int }
}

/// Signed 64-bit division; a zero divisor gives all ones, and the one
/// overflowing quotient wraps to the dividend.
pub open spec fn div_signed(a: u64, b: u64) -> u64 {
    if b == 0 { ALL_ONES } else { trunc_div(a as i64 as int, b as i64 as int) as u64 }
}

/// Signed 64-bit remainder; a zero divisor gives the dividend.
pub open spec fn rem_signed(a: u64, b: u64) -> u64 {
    if b == 0 { a } else { trunc_rem(a as i64 as int, b as i64 as int) as u64 }
}

pub open spec fn div_unsigned(a: u64, b: u64) -> u64 {
    if b == 0 { ALL_ONES } else { a / b }
}

pub open spec fn rem_unsigned(a: u64, b: u64) -> u64 {
    if b == 0 { a } else { a % b }
}

/// Magnitude of `x` read as a signed number.
fn magnitude(x: u64) -> (r: u64)
    ensures
        r as int == abs(x as i64 as int),
{
    let s = x as i64;
    if s < 0 {
        (-(s as i128)) as u64
    } else {
        s as u64
    }
}

pub fn div_s(a: u64, b: u64) -> (r: u64)
    ensures
        r == div_signed(a, b),
{
    if b == 0 {
        return ALL_ONES;
    }
    assert((b as i64) != 0) by (bit_vector)
        requires
            b != 0,
    ;
    let q = magnitude(a) / magnitude(b);
    let neg = ((a as i64) < 0) != ((b as i64) < 0);
    let v: i128 = if neg { -(q as i128) } else { q as i128 };
    v as u64
}

pub fn rem_s(a: u64, b: u64) -> (r: u64)
    ensures
        r == rem_signed(a, b),
{
    if b == 0 {
        return a;
    }
    assert((b as i64) != 0) by (bit_vector)
        requires
            b != 0,
    ;
    let m = magnitude(a) % magnitude(b);
    let v: i128 = if (a as i64) < 0 { -(m as i128) } else { m as i128 };
    v as u64
}

pub fn div_u(a: u64, b: u64) -> (r: u64)
    ensures
        r == div_unsigned(a, b),
{
    if b == 0 { ALL_ONES } else { a / b }
}

pub fn rem_u(a: u64, b: u64) -> (r: u64)
    ensures
        r == rem_unsigned(a, b),
{
    if b == 0 { a } else { a % b }
}

/// High 64 bits of the 128-bit product of two signed operands.
pub open spec fn mulh_spec(a: u64, b: u64) -> u64 {
    ((((a as i64 as i128) * (b as i64 as i128)) as i128) >> 64u32) as u64
}

/// High 64 bits of the 128-bit product of a signed and an unsigned operand.
pub open spec fn mulhsu_spec(a: u64, b: u64) -> u64 {
    ((((a as i64 as i128) * (b as i128)) as i128) >> 64u32) as u64
}

/// High 64 bits of the 128-bit product of two unsigned operands.
pub open spec fn mulhu_spec(a: u64, b: u64) -> u64 {
    ((((a as u128) * (b as u128)) as u128) >> 64u32) as u64
}

pub open spec fn mul_low(a: u64, b: u64) -> u64 {
    ((a as nat * b as nat) % 0x1_0000_0000_0000_0000) as u64
}

pub fn mulh(a: u64, b: u64) -> (r: u64)
    ensures
        r == mulh_spec(a, b),
{
    let x = a as i64 as i128;
    let y = b as i64 as i128;
    assert(-0x8000_0000_0000_0000 <= x <= 0x7fff_ffff_ffff_ffff);
    assert(-0x8000_0000_0000_0000 <= y <= 0x7fff_ffff_ffff_ffff);
    assert(-0x4000_0000_0000_0000_0000_0000_0000_0000 <= x * y <= 0x4000_0000_0000_0000_0000_0000_0000_0000)
        by (nonlinear_arith)
        requires
            -0x8000_0000_0000_0000 <= x <= 0x7fff_ffff_ffff_ffff,
            -0x8000_0000_0000_0000 <= y <= 0x7fff_ffff_ffff_ffff,
    ;
    ((x * y) >> 64u32) as u64
}

pub fn mulhsu(a: u64, b: u64) -> (r: u64)
    ensures
        r == mulhsu_spec(a, b),
{
    let x = a as i64 as i128;
    let y = b as i128;
    assert(-0x8000_0000_0000_0000 <= x <= 0x7fff_ffff_ffff_ffff);
    assert(0 <= y <= 0xffff_ffff_ffff_ffff);
    assert(-0x8000_0000_0000_0000_0000_0000_0000_0000 <= x * y <= 0x7fff_ffff_ffff_ffff_ffff_ffff_ffff_ffff)
        by (nonlinear_arith)
        requires
            -0x8000_0000_0000_0000 <= x <= 0x7fff_ffff_ffff_ffff,
            0 <= y <= 0xffff_ffff_ffff_ffff,
    ;
    ((x * y) >> 64u32) as u64
}

pub fn mulhu(a: u64, b: u64) -> (r: u64)
    ensures
        r == mulhu_spec(a, b),
{
    let x = a as u128;
    let y = b as u128;
    assert(x * y <= 0xffff_ffff_ffff_ffff_ffff_ffff_ffff_ffff) by (nonlinear_arith)
        requires
            x <= 0xffff_ffff_ffff_ffff,
            y <= 0xffff_ffff_ffff_ffff,
    ;
    ((x * y) >> 64u32) as u64
}

pub open spec fn wadd(a: u64, b: u64) -> u64 {
    u64_specs::wrapping_add(a, b)
}

pub open spec fn wsub(a: u64, b: u64) -> u64 {
    u64_specs::wrapping_sub(a, b)
}

pub const LOW32: u64 = 0xffff_ffff;

/// OP-IMM: ADDI, SLLI, SLTI, SLTIU, XORI, SRLI, SRAI, ORI, ANDI. SRLI and SRAI
/// are told apart by `funct7 >> 1`, which leaves room for a 6-bit shift.
pub open spec fn op_imm_spec(funct3: u64, funct7: u64, a: u64, imm: u64) -> Option<u64> {
    let shamt = imm & 0x3f;
    if funct3 == 0 {
        Some(wadd(a, imm))
    } else if funct3 == 1 {
        Some(a << shamt)
    } else if funct3 == 2 {
        Some(if (a as i64) < (imm as i64) { 1 } else { 0 })
    } else if funct3 == 3 {
        Some(if a < imm { 1 } else { 0 })
    } else if funct3 == 4 {
        Some(a ^ imm)
    } else if funct3 == 5 {
        if funct7 >> 1 == 0 {
            Some(a >> shamt)
        } else if funct7 >> 1 == 0x10 {
            Some(((a as i64) >> shamt) as u64)
        } else {
            None
        }
    } else if funct3 == 6 {
        Some(a | imm)
    } else if funct3 == 7 {
        Some(a & imm)
    } else {
        None
    }
}

/// OP-IMM-32: ADDIW, SLLIW, SRLIW, SRAIW, each result sign-extended from 32 bits.
pub open spec fn op_imm32_spec(funct3: u64, funct7: u64, a: u64, imm: u64) -> Option<u64> {
    let shamt = imm & 0x1f;
    if funct3 == 0 {
        Some(sext32(wadd(a, imm)))
    } else if funct3 == 1 {
        Some(sext32(a << shamt))
    } else if funct3 == 5 {
        if funct7 == 0 {
            Some(sext32((a & LOW32) >> shamt))
        } else if funct7 == 0x20 {
            Some(((sext32(a) as i64) >> shamt) as u64)
        } else {
            None
        }
    } else {
        None
    }
}

/// OP: the base register-register operations and the M extension.
pub open spec fn op_spec(funct3: u64, funct7: u64, a: u64, b: u64) -> Option<u64> {
    let shamt = b & 0x3f;
    if funct7 == 0 {
        if funct3 == 0 {
            Some(wadd(a, b))
        } else if funct3 == 1 {
            Some(a << shamt)
        } else if funct3 == 2 {
            Some(if (a as i64) < (b as i64) { 1 } else { 0 })
        } else if funct3 == 3 {
            Some(if a < b { 1 } else { 0 })
        } else if funct3 == 4 {
            Some(a ^ b)
        } else if funct3 == 5 {
            Some(a >> shamt)
        } else if funct3 == 6 {
            Some(a | b)
        } else {
            Some(a & b)
        }
    } else if funct7 == 1 {
        if funct3 == 0 {
            Some(mul_low(a, b))
        } else if funct3 == 1 {
            Some(mulh_spec(a, b))
        } else if funct3 == 2 {
            Some(mulhsu_spec(a, b))
        } else if funct3 == 3 {
            Some(mulhu_spec(a, b))
        } else if funct3 == 4 {
            Some(div_signed(a, b))
        } else if funct3 == 5 {
            Some(div_unsigned(a, b))
        } else if funct3 == 6 {
            Some(rem_signed(a, b))
        } else {
            Some(rem_unsigned(a, b))
        }
    } else if funct7 == 0x20 {
        if funct3 == 0 {
            Some(wsub(a, b))
        } else if funct3 == 5 {
            Some(((a as i64) >> shamt) as u64)
        } else {
            None
        }
    } else {
        None
    }
}

/// OP-32: the word operations, each on the low 32 bits of the operands and
/// with its 32-bit result sign-extended.
pub open spec fn op32_spec(funct3: u64, funct7: u64, a: u64, b: u64) -> Option<u64> {
    let shamt = b & 0x1f;
    if funct7 == 0 {
        if funct3 == 0 {
            Some(sext32(wadd(a, b)))
        } else if funct3 == 1 {
            Some(sext32(a << shamt))
        } else if funct3 == 5 {
            Some(sext32((a & LOW32) >> shamt))
        } else {
            None
        }
    } else if funct7 == 1 {
        if funct3 == 0 {
            Some(sext32(mul_low(a, b)))
        } else if funct3 == 4 {
            Some(sext32(div_signed(sext32(a), sext32(b))))
        } else if funct3 == 5 {
            Some(sext32(div_unsigned(a & LOW32, b & LOW32)))
        } else if funct3 == 6 {
            Some(sext32(rem_signed(sext32(a), sext32(b))))
        } else if funct3 == 7 {
            Some(sext32(rem_unsigned(a & LOW32, b & LOW32)))
        } else {
            None
        }
    } else if funct7 == 0x20 {
        if funct3 == 0 {
            Some(sext32(wsub(a, b)))
        } else if funct3 == 5 {
            Some(((sext32(a) as i64) >> shamt) as u64)
        } else {
            None
        }
    } else {
        None
    }
}

/// BRANCH: whether the branch is taken.
pub open spec fn branch_spec(funct3: u64, a: u64, b: u64) -> Option<bool> {
    if funct3 == 0 {
        Some(a == b)
    } else if funct3 == 1 {
        Some(a != b)
    } else if funct3 == 4 {
        Some((a as i64) < (b as i64))
    } else if funct3 == 5 {
        Some((a as i64) >= (b as i64))
    } else if funct3 == 6 {
        Some(a < b)
    } else if funct3 == 7 {
        Some(a >= b)
    } else {
        None
    }
}

/// The value that a read-modify-write AMO stores, from the loaded value `t`
/// and the register operand `b`; `word` selects the 32-bit comparisons.
pub open spec fn amo_spec(funct5: u64, word: bool, t: u64, b: u64) -> Option<u64> {
    if funct5 == 0x0 {
        Some(wadd(t, b))
    } else if funct5 == 0x1 {
        Some(b)
    } else if funct5 == 0x4 {
        Some(t ^ b)
    } else if funct5 == 0x8 {
        Some(t | b)
    } else if funct5 == 0xc {
        Some(t & b)
    } else if funct5 == 0x10 {
        Some(if word { if (b as i32) < (t as i32) { b } else { t } } else { if (b as i64) < (t as i64) { b } else { t } })
    } else if funct5 == 0x14 {
        Some(if word { if (b as i32) > (t as i32) { b } else { t } } else { if (b as i64) > (t as i64) { b } else { t } })
    } else if funct5 == 0x18 {
        Some(if word { if (b as u32) < (t as u32) { b } else { t } } else { if b < t { b } else { t } })
    } else if funct5 == 0x1c {
        Some(if word { if (b as u32) > (t as u32) { b } else { t } } else { if b > t { b } else { t } })
    } else {
        None
    }
}

/// LOAD: the access width in bits for each `funct3`.
pub open spec fn load_width(funct3: u64) -> Option<u64> {
    if funct3 == 0 || funct3 == 4 {
        Some(8)
    } else if funct3 == 1 || funct3 == 5 {
        Some(16)
    } else if funct3 == 2 || funct3 == 6 {
        Some(32)
    } else if funct3 == 3 {
        Some(64)
    } else {
        None
    }
}

/// LOAD: LB, LH and LW sign-extend the value read; LBU, LHU and LWU
/// zero-extend it (only its low bits are kept); LD keeps all 64 bits.
pub open spec fn load_extend(funct3: u64, v: u64) -> u64 {
    if funct3 == 0 {
        sext8(v)
    } else if funct3 == 1 {
        sext16(v)
    } else if funct3 == 2 {
        sext32(v)
    } else if funct3 == 4 {
        v & 0xff
    } else if funct3 == 5 {
        v & 0xffff
    } else if funct3 == 6 {
        v & LOW32
    } else {
        v
    }
}

pub fn op_imm(funct3: u64, funct7: u64, a: u64, imm: u64) -> (r: Option<u64>)
    ensures
        r == op_imm_spec(funct3, funct7, a, imm),
{
    let shamt = imm & 0x3f;
    assert(imm & 0x3f < 64) by (bit_vector);
    match funct3 {
        0 => Some(a.wrapping_add(imm)),
        1 => Some(a << shamt),
        2 => Some(if (a as i64) < (imm as i64) { 1 } else { 0 }),
        3 => Some(if a < imm { 1 } else { 0 }),
        4 => Some(a ^ imm),
        5 => {
            if funct7 >> 1 == 0 {
                Some(a >> shamt)
            } else if funct7 >> 1 == 0x10 {
                Some(((a as i64) >> shamt) as u64)
            } else {
                None
            }
        },
        6 => Some(a | imm),
        7 => Some(a & imm),
        _ => None,
    }
}

pub fn op_imm32(funct3: u64, funct7: u64, a: u64, imm: u64) -> (r: Option<u64>)
    ensures
        r == op_imm32_spec(funct3, funct7, a, imm),
{
    let shamt = imm & 0x1f;
    assert(imm & 0x1f < 32) by (bit_vector);
    match funct3 {
        0 => Some(sign_extend_32(a.wrapping_add(imm))),
        1 => Some(sign_extend_32(a << shamt)),
        5 => {
            if funct7 == 0 {
                Some(sign_extend_32((a & LOW32) >> shamt))
            } else if funct7 == 0x20 {
                Some(((sign_extend_32(a) as i64) >> shamt) as u64)
            } else {
                None
            }
        },
        _ => None,
    }
}

pub fn op(funct3: u64, funct7: u64, a: u64, b: u64) -> (r: Option<u64>)
    ensures
        r == op_spec(funct3, funct7, a, b),
{
    let shamt = b & 0x3f;
    assert(b & 0x3f < 64) by (bit_vector);
    if funct7 == 0 {
        match funct3 {
            0 => Some(a.wrapping_add(b)),
            1 => Some(a << shamt),
            2 => Some(if (a as i64) < (b as i64) { 1 } else { 0 }),
            3 => Some(if a < b { 1 } else { 0 }),
            4 => Some(a ^ b),
            5 => Some(a >> shamt),
            6 => Some(a | b),
            _ => Some(a & b),
        }
    } else if funct7 == 1 {
        match funct3 {
            0 => Some(a.wrapping_mul(b)),
            1 => Some(mulh(a, b)),
            2 => Some(mulhsu(a, b)),
            3 => Some(mulhu(a, b)),
            4 => Some(div_s(a, b)),
            5 => Some(div_u(a, b)),
            6 => Some(rem_s(a, b)),
            _ => Some(rem_u(a, b)),
        }
    } else if funct7 == 0x20 {
        match funct3 {
            0 => Some(a.wrapping_sub(b)),
            5 => Some(((a as i64) >> shamt) as u64),
            _ => None,
        }
    } else {
        None
    }
}

pub fn op32(funct3: u64, funct7: u64, a: u64, b: u64) -> (r: Option<u64>)
    ensures
        r == op32_spec(funct3, funct7, a, b),
{
    let shamt = b & 0x1f;
    assert(b & 0x1f < 32) by (bit_vector);
    if funct7 == 0 {
        match funct3 {
            0 => Some(sign_extend_32(a.wrapping_add(b))),
            1 => Some(sign_extend_32(a << shamt)),
            5 => Some(sign_extend_32((a & LOW32) >> shamt)),
            _ => None,
        }
    } else if funct7 == 1 {
        match funct3 {
            0 => Some(sign_extend_32(a.wrapping_mul(b))),
            4 => Some(sign_extend_32(div_s(sign_extend_32(a), sign_extend_32(b)))),
            5 => Some(sign_extend_32(div_u(a & LOW32, b & LOW32))),
            6 => Some(sign_extend_32(rem_s(sign_extend_32(a), sign_extend_32(b)))),
            7 => Some(sign_extend_32(rem_u(a & LOW32, b & LOW32))),
            _ => None,
        }
    } else if funct7 == 0x20 {
        match funct3 {
            0 => Some(sign_extend_32(a.wrapping_sub(b))),
            5 => Some(((sign_extend_32(a) as i64) >> shamt) as u64),
            _ => None,
        }
    } else {
        None
    }
}

pub fn branch(funct3: u64, a: u64, b: u64) -> (r: Option<bool>)
    ensures
        r == branch_spec(funct3, a, b),
{
    match funct3 {
        0 => Some(a == b),
        1 => Some(a != b),
        4 => Some((a as i64) < (b as i64)),
        5 => Some((a as i64) >= (b as i64)),
        6 => Some(a < b),
        7 => Some(a >= b),
        _ => None,
    }
}

pub fn amo(funct5: u64, word: bool, t: u64, b: u64) -> (r: Option<u64>)
    ensures
        r == amo_spec(funct5, word, t, b),
{
    match funct5 {
        0x0 => Some(t.wrapping_add(b)),
        0x1 => Some(b),
        0x4 => Some(t ^ b),
        0x8 => Some(t | b),
        0xc => Some(t & b),
        0x10 => Some(if word { if (b as i32) < (t as i32) { b } else { t } } else { if (b as i64) < (t as i64) { b } else { t } }),
        0x14 => Some(if word { if (b as i32) > (t as i32) { b } else { t } } else { if (b as i64) > (t as i64) { b } else { t } }),
        0x18 => Some(if word { if (b as u32) < (t as u32) { b } else { t } } else { if b < t { b } else { t } }),
        0x1c => Some(if word { if (b as u32) > (t as u32) { b } else { t } } else { if b > t { b } else { t } }),
        _ => None,
    }
}

pub fn extend_loaded(funct3: u64, v: u64) -> (r: u64)
    ensures
        r == load_extend(funct3, v),
{
    match funct3 {
        0 => sign_extend_8(v),
        1 => sign_extend_16(v),
        2 => sign_extend_32(v),
        4 => v & 0xff,
        5 => v & 0xffff,
        6 => v & LOW32,
        _ => v,
    }
}

/// A zero divisor never traps: the quotients are all ones and the remainders
/// the dividend (for the word forms, the dividend's low word sign-extended).
pub proof fn lemma_divide_by_zero(a: u64, b: u64)
    requires
        b & LOW32 == 0,
    ensures
        op_spec(4, 1, a, 0) == Some(ALL_ONES),
        op_spec(5, 1, a, 0) == Some(ALL_ONES),
        op_spec(6, 1, a, 0) == Some(a),
        op_spec(7, 1, a, 0) == Some(a),
        op32_spec(4, 1, a, b) == Some(ALL_ONES),
        op32_spec(5, 1, a, b) == Some(ALL_ONES),
        op32_spec(6, 1, a, b) == Some(sext32(a)),
        op32_spec(7, 1, a, b) == Some(sext32(a)),
{
    assert(sext32(b) == 0) by (bit_vector)
        requires
            b & 0xffff_ffff == 0,
    ;
    assert(sext32(ALL_ONES) == ALL_ONES) by (bit_vector);
    assert(sext32(sext32(a)) == sext32(a)) by (bit_vector);
    assert(sext32(a & LOW32) == sext32(a)) by (bit_vector);
}

/// Every word operation leaves a 32-bit result sign-extended to 64 bits.
pub proof fn lemma_word_results_sign_extended(funct3: u64, funct7: u64, a: u64, b: u64)
    ensures
        op32_spec(funct3, funct7, a, b) matches Some(r) ==> r == sext32(r),
        op_imm32_spec(funct3, funct7, a, b) matches Some(r) ==> r == sext32(r),
{
    assert forall|x: u64| #[trigger] sext32(sext32(x)) == sext32(x) by {
        assert(sext32(sext32(x)) == sext32(x)) by (bit_vector);
    }
    let s = sext32(a);
    let sh = b & 0x1f;
    assert(sh < 32) by (bit_vector)
        requires
            sh == b & 0x1f,
    ;
    let r = ((s as i64) >> sh) as u64;
    assert(r == sext32(r)) by (bit_vector)
        requires
            s == sext32(a),
            sh < 32,
            r == ((s as i64) >> sh) as u64,
    ;
}

/// What a load writes to `rd`: LB, LH and LW keep the low 8, 16 or 32 bits
/// of the value read and fill every higher bit with its sign bit; LBU, LHU
/// and LWU keep the low bits and clear every higher one.
pub proof fn lemma_load_extension(v: u64)
    ensures
        load_extend(0, v) % 0x100 == v % 0x100,
        load_extend(0, v) / 0x100 == if v % 0x100 >= 0x80 { 0xff_ffff_ffff_ffffu64 } else { 0 },
        load_extend(1, v) % 0x1_0000 == v % 0x1_0000,
        load_extend(1, v) / 0x1_0000 == if v % 0x1_0000 >= 0x8000 { 0xffff_ffff_ffffu64 } else { 0 },
        load_extend(2, v) % 0x1_0000_0000 == v % 0x1_0000_0000,
        load_extend(2, v) / 0x1_0000_0000 == if v % 0x1_0000_0000 >= 0x8000_0000 {
            0xffff_ffffu64
        } else {
            0
        },
        load_extend(4, v) == v % 0x100,
        load_extend(5, v) == v % 0x1_0000,
        load_extend(6, v) == v % 0x1_0000_0000,
        load_extend(3, v) == v,
{
    lemma_sign_extension(v);
    assert(v & 0xff == v % 0x100 && v & 0xffff == v % 0x1_0000 && v & 0xffff_ffff == v % 0x1_0000_0000)
        by (bit_vector);
}

} // verus!
