use vstd::prelude::*;
use crate::status::StatusRegister;

verus! {

/// Two-operand operations of the arithmetic and logic unit. The immediate
/// forms (SUBI, SBCI, ANDI, ORI, CPI, LDI) use the same operations.
#[derive(Clone, Copy, Debug, PartialEq, Eq, Structural)]
pub enum AluOp {
    Add,
    Adc,
    Sub,
    Sbc,
    Cp,
    Cpc,
    And,
    Or,
    Eor,
    Mov,
}

/// One-operand operations.
#[derive(Clone, Copy, Debug, PartialEq, Eq, Structural)]
pub enum UnaryOp {
    Com,
    Neg,
    Inc,
    Dec,
    Asr,
    Lsr,
    Ror,
    Swap,
}

/// A byte read as a two's-complement number.
pub open spec fn signed(x: u8) -> int {
    if x >= 128 { x - 256 } else { x as int }
}

/// Whether a signed result lies outside the range of a byte.
pub open spec fn overflows(x: int) -> bool {
    x < -128 || x > 127
}

/// Whether the operation only compares, writing no result.
pub open spec fn compares(op: AluOp) -> bool {
    op == AluOp::Cp || op == AluOp::Cpc
}

/// The flags N, Z, V, S (and H, C where given) set from a result.
pub open spec fn flags_of(s: StatusRegister, r: u8, h: bool, v: bool, z: bool, c: bool) -> StatusRegister {
    StatusRegister { h, s: (r >= 128) != v, v, n: r >= 128, z, c, ..s }
}

/// Result and new flags of a two-operand operation on `a` (Rd) and `b`
/// (Rr or K), given the flags before. For subtraction C is the borrow, H
/// the borrow from bit 3; for SBC and CPC, Z can only stay set.
pub open spec fn alu(op: AluOp, a: u8, b: u8, s: StatusRegister) -> (u8, StatusRegister) {
    let cin: int = if (op == AluOp::Adc || op == AluOp::Sbc || op == AluOp::Cpc) && s.c { 1 } else { 0 };
    match op {
        AluOp::Add | AluOp::Adc => {
            let sum = a + b + cin;
            let r = (sum % 256) as u8;
            (r, flags_of(s, r, a % 16 + b % 16 + cin >= 16, overflows(signed(a) + signed(b) + cin), r == 0, sum >= 256))
        },
        AluOp::Sub | AluOp::Sbc | AluOp::Cp | AluOp::Cpc => {
            let r = ((a - b - cin + 512) % 256) as u8;
            let z = if op == AluOp::Sbc || op == AluOp::Cpc { r == 0 && s.z } else { r == 0 };
            (r, flags_of(s, r, a % 16 < b % 16 + cin, overflows(signed(a) - signed(b) - cin), z, a < b + cin))
        },
        AluOp::And => { let r = a & b; (r, flags_of(s, r, s.h, false, r == 0, s.c)) },
        AluOp::Or => { let r = a | b; (r, flags_of(s, r, s.h, false, r == 0, s.c)) },
        AluOp::Eor => { let r = a ^ b; (r, flags_of(s, r, s.h, false, r == 0, s.c)) },
        AluOp::Mov => (b, s),
    }
}

/// Result and new flags of a one-operand operation.
pub open spec fn unary(op: UnaryOp, a: u8, s: StatusRegister) -> (u8, StatusRegister) {
    match op {
        UnaryOp::Com => { let r = (255 - a) as u8; (r, flags_of(s, r, s.h, false, r == 0, true)) },
        UnaryOp::Neg => {
            let r = ((256 - a) % 256) as u8;
            (r, flags_of(s, r, a % 16 != 0, r == 128, r == 0, r != 0))
        },
        UnaryOp::Inc => { let r = ((a + 1) % 256) as u8; (r, flags_of(s, r, s.h, a == 127, r == 0, s.c)) },
        UnaryOp::Dec => { let r = ((a + 255) % 256) as u8; (r, flags_of(s, r, s.h, a == 128, r == 0, s.c)) },
        UnaryOp::Asr => {
            let r = (a / 2 + (if a >= 128 { 128int } else { 0 })) as u8;
            (r, flags_of(s, r, s.h, (r >= 128) != (a % 2 == 1), r == 0, a % 2 == 1))
        },
        UnaryOp::Lsr => { let r = (a / 2) as u8; (r, flags_of(s, r, s.h, a % 2 == 1, r == 0, a % 2 == 1)) },
        UnaryOp::Ror => {
            let r = (a / 2 + (if s.c { 128int } else { 0 })) as u8;
            (r, flags_of(s, r, s.h, (r >= 128) != (a % 2 == 1), r == 0, a % 2 == 1))
        },
        UnaryOp::Swap => (((a % 16) * 16 + a / 16) as u8, s),
    }
}

/// Computes a two-operand operation and its flags.
pub fn alu_exec(op: AluOp, a: u8, b: u8, s: StatusRegister) -> (r: (u8, StatusRegister))
    ensures
        r == alu(op, a, b, s),
{
    let cin: u8 = if (matches!(op, AluOp::Adc | AluOp::Sbc | AluOp::Cpc)) && s.c { 1 } else { 0 };
    let sa: i16 = if a >= 128 { a as i16 - 256 } else { a as i16 };
    let sb: i16 = if b >= 128 { b as i16 - 256 } else { b as i16 };
    match op {
        AluOp::Add | AluOp::Adc => {
            let sum: u16 = a as u16 + b as u16 + cin as u16;
            let r = (sum % 256) as u8;
            let sv = sa + sb + cin as i16;
            let v = sv < -128 || sv > 127;
            (r, StatusRegister { h: a % 16 + b % 16 + cin >= 16, s: (r >= 128) != v, v, n: r >= 128, z: r == 0, c: sum >= 256, ..s })
        },
        AluOp::Sub | AluOp::Sbc | AluOp::Cp | AluOp::Cpc => {
            let r = ((a as u16 + 512 - b as u16 - cin as u16) % 256) as u8;
            let z = if matches!(op, AluOp::Sbc | AluOp::Cpc) { r == 0 && s.z } else { r == 0 };
            let sv = sa - sb - cin as i16;
            let v = sv < -128 || sv > 127;
            (r, StatusRegister { h: (a % 16) < (b % 16) + cin, s: (r >= 128) != v, v, n: r >= 128, z, c: (a as u16) < b as u16 + cin as u16, ..s })
        },
        AluOp::And => { let r = a & b; (r, StatusRegister { s: r >= 128, v: false, n: r >= 128, z: r == 0, ..s }) },
        AluOp::Or => { let r = a | b; (r, StatusRegister { s: r >= 128, v: false, n: r >= 128, z: r == 0, ..s }) },
        AluOp::Eor => { let r = a ^ b; (r, StatusRegister { s: r >= 128, v: false, n: r >= 128, z: r == 0, ..s }) },
        AluOp::Mov => (b, s),
    }
}

/// Computes a one-operand operation and its flags.
pub fn unary_exec(op: UnaryOp, a: u8, s: StatusRegister) -> (r: (u8, StatusRegister))
    ensures
        r == unary(op, a, s),
{
    match op {
        UnaryOp::Com => { let r = 255 - a; (r, StatusRegister { s: r >= 128, v: false, n: r >= 128, z: r == 0, c: true, ..s }) },
        UnaryOp::Neg => {
            let r = ((256 - a as u16) % 256) as u8;
            let v = r == 128;
            (r, StatusRegister { h: a % 16 != 0, s: (r >= 128) != v, v, n: r >= 128, z: r == 0, c: r != 0, ..s })
        },
        UnaryOp::Inc => {
            let r = ((a as u16 + 1) % 256) as u8;
            let v = a == 127;
            (r, StatusRegister { s: (r >= 128) != v, v, n: r >= 128, z: r == 0, ..s })
        },
        UnaryOp::Dec => {
            let r = ((a as u16 + 255) % 256) as u8;
            let v = a == 128;
            (r, StatusRegister { s: (r >= 128) != v, v, n: r >= 128, z: r == 0, ..s })
        },
        UnaryOp::Asr => {
            let r = a / 2 + (if a >= 128 { 128u8 } else { 0u8 });
            let c = a % 2 == 1;
            let v = (r >= 128) != c;
            (r, StatusRegister { s: (r >= 128) != v, v, n: r >= 128, z: r == 0, c, ..s })
        },
        UnaryOp::Lsr => {
            let r = a / 2;
            let c = a % 2 == 1;
            (r, StatusRegister { s: (r >= 128) != c, v: c, n: r >= 128, z: r == 0, c, ..s })
        },
        UnaryOp::Ror => {
            let r = a / 2 + (if s.c { 128u8 } else { 0u8 });
            let c = a % 2 == 1;
            let v = (r >= 128) != c;
            (r, StatusRegister { s: (r >= 128) != v, v, n: r >= 128, z: r == 0, c, ..s })
        },
        UnaryOp::Swap => ((a % 16) * 16 + a / 16, s),
    }
}

/// In a compare with carry, Z stays set only where it was set and this
/// byte's difference is zero, so it is cleared for good by any non-zero byte
/// of a multi-byte compare.
pub proof fn lemma_cpc_zero_chains(a: u8, b: u8, s: StatusRegister)
    ensures
        alu(AluOp::Cpc, a, b, s).1.z == (s.z && alu(AluOp::Cpc, a, b, s).0 == 0),
        alu(AluOp::Cpc, a, b, s).0 == alu(AluOp::Sbc, a, b, s).0,
{
}

} // verus!
