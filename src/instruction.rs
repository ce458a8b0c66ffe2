use vstd::prelude::*;
use crate::alu::{AluOp, UnaryOp};

verus! {

/// A decoded AVR instruction with its operands. Register numbers are 0 to
/// 31, I/O addresses 0 to 63, bit and flag indices 0 to 7; branch and jump
/// offsets are in words.
#[allow(inconsistent_fields)]
#[derive(Clone, Copy, Debug, PartialEq, Eq, Structural)]
pub enum Instruction {
    Nop,
    Break,
    /// SLEEP and WDR: no sleep modes or watchdog are modelled.
    Sleep,
    Ijmp,
    Icall,
    Alu { op: AluOp, d: u8, r: u8 },
    Imm { op: AluOp, d: u8, k: u8 },
    Unary { op: UnaryOp, d: u8 },
    Movw { d: u8, r: u8 },
    Adiw { d: u8, k: u8 },
    Sbiw { d: u8, k: u8 },
    Bset { s: u8 },
    Bclr { s: u8 },
    Bld { d: u8, b: u8 },
    Bst { d: u8, b: u8 },
    Brbs { s: u8, k: i8 },
    Brbc { s: u8, k: i8 },
    Rjmp { k: i16 },
    Rcall { k: i16 },
    Jmp { k: u16 },
    Call { k: u16 },
    Ret,
    Reti,
    Cpse { d: u8, r: u8 },
    Sbrc { r: u8, b: u8 },
    Sbrs { r: u8, b: u8 },
    Sbic { a: u8, b: u8 },
    Sbis { a: u8, b: u8 },
    Cbi { a: u8, b: u8 },
    Sbi { a: u8, b: u8 },
    In { d: u8, a: u8 },
    Out { a: u8, r: u8 },
    Push { r: u8 },
    Pop { d: u8 },
    Lds { d: u8, k: u16 },
    Sts { k: u16, r: u8 },
    /// Load through the pointer pair at `p` (X, Y or Z), with displacement
    /// `q`, post-increment or pre-decrement.
    Ld { d: u8, p: u8, q: u8, inc: bool, dec: bool },
    /// Store through a pointer pair, as `Ld` loads.
    St { r: u8, p: u8, q: u8, inc: bool, dec: bool },
    /// Load a program memory byte addressed by Z, optionally incrementing Z.
    Lpm { d: u8, inc: bool },
    Mul { d: u8, r: u8 },
}

/// Whether the word opens a two-word instruction (CALL, JMP, LDS, STS).
pub open spec fn two_words(w: u16) -> bool {
    w & 0xfe0e == 0x940c || w & 0xfe0e == 0x940e || w & 0xfe0f == 0x9000 || w & 0xfe0f == 0x9200
}

/// Whether the low nibble of a `1001 00x. .... ....` word names a pointer
/// form: X, X+, -X, Y+, -Y, Z+, -Z, or (loads only) LPM Z and Z+.
pub open spec fn pointer_form(w: u16) -> bool {
    let n = w & 0x0f;
    n == 0x0c || n == 0x0d || n == 0x0e || n == 0x09 || n == 0x0a || n == 0x01 || n == 0x02 || (
    w & 0x0200 == 0 && (n == 4 || n == 5))
}

/// The pointer pair of a pointer form: X (r26), Y (r28) or Z (r30).
pub open spec fn pointer_of(w: u16) -> u8 {
    let n = w & 0x0f;
    if n >= 0x0c { 26 } else if n >= 0x09 { 28 } else { 30 }
}

pub open spec fn pointer_inc(w: u16) -> bool {
    let n = w & 0x0f;
    n == 0x0d || n == 0x09 || n == 0x01
}

pub open spec fn pointer_dec(w: u16) -> bool {
    let n = w & 0x0f;
    n == 0x0e || n == 0x0a || n == 0x02
}

/// Five-bit destination register of the `.... ...d dddd ....` forms.
pub open spec fn field_d5(w: u16) -> u8 {
    ((w >> 4u16) & 0x1f) as u8
}

/// Five-bit source register of the `.... ..r. .... rrrr` forms.
pub open spec fn field_r5(w: u16) -> u8 {
    ((w & 0x0f) | ((w >> 5u16) & 0x10)) as u8
}

/// Upper-half register of the immediate forms, r16 to r31.
pub open spec fn field_d16(w: u16) -> u8 {
    (16 + ((w >> 4u16) & 0x0f)) as u8
}

/// Eight-bit immediate of the `.... KKKK .... KKKK` forms.
pub open spec fn field_k8(w: u16) -> u8 {
    (((w >> 4u16) & 0xf0) | (w & 0x0f)) as u8
}

/// Signed seven-bit branch offset.
pub open spec fn field_k7(w: u16) -> i8 {
    let raw = (w >> 3u16) & 0x7f;
    (if raw >= 64 { raw - 128 } else { raw as int }) as i8
}

/// Signed twelve-bit relative jump offset.
pub open spec fn field_k12(w: u16) -> i16 {
    let raw = w & 0x0fff;
    (if raw >= 2048 { raw - 4096 } else { raw as int }) as i16
}

/// The instruction that the word `w` encodes, `next` being the word after
/// it; `None` for a word this core does not know.
pub open spec fn decode(w: u16, next: u16) -> Option<Instruction> {
    let d = field_d5(w);
    let r = field_r5(w);
    if w == 0 {
        Some(Instruction::Nop)
    } else if w == 0x9598 {
        Some(Instruction::Break)
    } else if w == 0x9588 || w == 0x95a8 {
        Some(Instruction::Sleep)
    } else if w == 0x9409 {
        Some(Instruction::Ijmp)
    } else if w == 0x9509 {
        Some(Instruction::Icall)
    } else if w == 0x9508 {
        Some(Instruction::Ret)
    } else if w == 0x9518 {
        Some(Instruction::Reti)
    } else if w & 0xff00 == 0x0100 {
        Some(Instruction::Movw { d: (((w >> 4u16) & 0x0f) * 2) as u8, r: ((w & 0x0f) * 2) as u8 })
    } else if w & 0xfc00 == 0x0400 {
        Some(Instruction::Alu { op: AluOp::Cpc, d, r })
    } else if w & 0xfc00 == 0x0800 {
        Some(Instruction::Alu { op: AluOp::Sbc, d, r })
    } else if w & 0xfc00 == 0x0c00 {
        Some(Instruction::Alu { op: AluOp::Add, d, r })
    } else if w & 0xfc00 == 0x1000 {
        Some(Instruction::Cpse { d, r })
    } else if w & 0xfc00 == 0x1400 {
        Some(Instruction::Alu { op: AluOp::Cp, d, r })
    } else if w & 0xfc00 == 0x1800 {
        Some(Instruction::Alu { op: AluOp::Sub, d, r })
    } else if w & 0xfc00 == 0x1c00 {
        Some(Instruction::Alu { op: AluOp::Adc, d, r })
    } else if w & 0xfc00 == 0x2000 {
        Some(Instruction::Alu { op: AluOp::And, d, r })
    } else if w & 0xfc00 == 0x2400 {
        Some(Instruction::Alu { op: AluOp::Eor, d, r })
    } else if w & 0xfc00 == 0x2800 {
        Some(Instruction::Alu { op: AluOp::Or, d, r })
    } else if w & 0xfc00 == 0x2c00 {
        Some(Instruction::Alu { op: AluOp::Mov, d, r })
    } else if w & 0xf000 == 0x3000 {
        Some(Instruction::Imm { op: AluOp::Cp, d: field_d16(w), k: field_k8(w) })
    } else if w & 0xf000 == 0x4000 {
        Some(Instruction::Imm { op: AluOp::Sbc, d: field_d16(w), k: field_k8(w) })
    } else if w & 0xf000 == 0x5000 {
        Some(Instruction::Imm { op: AluOp::Sub, d: field_d16(w), k: field_k8(w) })
    } else if w & 0xf000 == 0x6000 {
        Some(Instruction::Imm { op: AluOp::Or, d: field_d16(w), k: field_k8(w) })
    } else if w & 0xf000 == 0x7000 {
        Some(Instruction::Imm { op: AluOp::And, d: field_d16(w), k: field_k8(w) })
    } else if w & 0xf000 == 0xe000 {
        Some(Instruction::Imm { op: AluOp::Mov, d: field_d16(w), k: field_k8(w) })
    } else if w & 0xf000 == 0xc000 {
        Some(Instruction::Rjmp { k: field_k12(w) })
    } else if w & 0xf000 == 0xd000 {
        Some(Instruction::Rcall { k: field_k12(w) })
    } else if w == 0x95c8 {
        Some(Instruction::Lpm { d: 0, inc: false })
    } else if w & 0xfe0f == 0x9000 {
        Some(Instruction::Lds { d, k: next })
    } else if w & 0xfe0f == 0x9200 {
        Some(Instruction::Sts { k: next, r: d })
    } else if w & 0xfc00 == 0x9000 && pointer_form(w) {
        if w & 0x0200 == 0 {
            if w & 0x0f == 4 || w & 0x0f == 5 {
                Some(Instruction::Lpm { d, inc: w & 0x0f == 5 })
            } else {
                Some(Instruction::Ld { d, p: pointer_of(w), q: 0, inc: pointer_inc(w), dec: pointer_dec(w) })
            }
        } else {
            Some(Instruction::St { r: d, p: pointer_of(w), q: 0, inc: pointer_inc(w), dec: pointer_dec(w) })
        }
    } else if w & 0xd000 == 0x8000 {
        let p: u8 = if w & 0x08 != 0 { 28 } else { 30 };
        let q = (((w >> 8u16) & 0x20) | ((w >> 7u16) & 0x18) | (w & 0x07)) as u8;
        if w & 0x0200 == 0 {
            Some(Instruction::Ld { d, p, q, inc: false, dec: false })
        } else {
            Some(Instruction::St { r: d, p, q, inc: false, dec: false })
        }
    } else if w & 0xfc00 == 0x9c00 {
        Some(Instruction::Mul { d, r })
    } else if w & 0xfe0f == 0x900f {
        Some(Instruction::Pop { d })
    } else if w & 0xfe0f == 0x920f {
        Some(Instruction::Push { r: d })
    } else if w & 0xfe0e == 0x940c {
        Some(Instruction::Jmp { k: next })
    } else if w & 0xfe0e == 0x940e {
        Some(Instruction::Call { k: next })
    } else if w & 0xff8f == 0x9408 {
        Some(Instruction::Bset { s: ((w >> 4u16) & 7) as u8 })
    } else if w & 0xff8f == 0x9488 {
        Some(Instruction::Bclr { s: ((w >> 4u16) & 7) as u8 })
    } else if w & 0xfe0f == 0x9400 {
        Some(Instruction::Unary { op: UnaryOp::Com, d })
    } else if w & 0xfe0f == 0x9401 {
        Some(Instruction::Unary { op: UnaryOp::Neg, d })
    } else if w & 0xfe0f == 0x9402 {
        Some(Instruction::Unary { op: UnaryOp::Swap, d })
    } else if w & 0xfe0f == 0x9403 {
        Some(Instruction::Unary { op: UnaryOp::Inc, d })
    } else if w & 0xfe0f == 0x9405 {
        Some(Instruction::Unary { op: UnaryOp::Asr, d })
    } else if w & 0xfe0f == 0x9406 {
        Some(Instruction::Unary { op: UnaryOp::Lsr, d })
    } else if w & 0xfe0f == 0x9407 {
        Some(Instruction::Unary { op: UnaryOp::Ror, d })
    } else if w & 0xfe0f == 0x940a {
        Some(Instruction::Unary { op: UnaryOp::Dec, d })
    } else if w & 0xff00 == 0x9600 {
        Some(Instruction::Adiw { d: (24 + 2 * ((w >> 4u16) & 3)) as u8, k: (((w >> 2u16) & 0x30) | (w & 0x0f)) as u8 })
    } else if w & 0xff00 == 0x9700 {
        Some(Instruction::Sbiw { d: (24 + 2 * ((w >> 4u16) & 3)) as u8, k: (((w >> 2u16) & 0x30) | (w & 0x0f)) as u8 })
    } else if w & 0xff00 == 0x9800 {
        Some(Instruction::Cbi { a: ((w >> 3u16) & 0x1f) as u8, b: (w & 7) as u8 })
    } else if w & 0xff00 == 0x9900 {
        Some(Instruction::Sbic { a: ((w >> 3u16) & 0x1f) as u8, b: (w & 7) as u8 })
    } else if w & 0xff00 == 0x9a00 {
        Some(Instruction::Sbi { a: ((w >> 3u16) & 0x1f) as u8, b: (w & 7) as u8 })
    } else if w & 0xff00 == 0x9b00 {
        Some(Instruction::Sbis { a: ((w >> 3u16) & 0x1f) as u8, b: (w & 7) as u8 })
    } else if w & 0xf800 == 0xb000 {
        Some(Instruction::In { d, a: (((w >> 5u16) & 0x30) | (w & 0x0f)) as u8 })
    } else if w & 0xf800 == 0xb800 {
        Some(Instruction::Out { a: (((w >> 5u16) & 0x30) | (w & 0x0f)) as u8, r: d })
    } else if w & 0xfc00 == 0xf000 {
        Some(Instruction::Brbs { s: (w & 7) as u8, k: field_k7(w) })
    } else if w & 0xfc00 == 0xf400 {
        Some(Instruction::Brbc { s: (w & 7) as u8, k: field_k7(w) })
    } else if w & 0xfe08 == 0xf800 {
        Some(Instruction::Bld { d, b: (w & 7) as u8 })
    } else if w & 0xfe08 == 0xfa00 {
        Some(Instruction::Bst { d, b: (w & 7) as u8 })
    } else if w & 0xfe08 == 0xfc00 {
        Some(Instruction::Sbrc { r: d, b: (w & 7) as u8 })
    } else if w & 0xfe08 == 0xfe00 {
        Some(Instruction::Sbrs { r: d, b: (w & 7) as u8 })
    } else {
        None
    }
}

/// Operands lie in their documented ranges.
pub open spec fn operands_in_range(i: Instruction) -> bool {
    match i {
        Instruction::Alu { d, r, .. } => d < 32 && r < 32,
        Instruction::Imm { d, .. } => d < 32,
        Instruction::Unary { d, .. } => d < 32,
        Instruction::Movw { d, r } => d < 31 && r < 31,
        Instruction::Adiw { d, k } => 24 <= d <= 30 && k < 64,
        Instruction::Sbiw { d, k } => 24 <= d <= 30 && k < 64,
        Instruction::Bset { s } => s < 8,
        Instruction::Bclr { s } => s < 8,
        Instruction::Bld { d, b } => d < 32 && b < 8,
        Instruction::Bst { d, b } => d < 32 && b < 8,
        Instruction::Brbs { s, .. } => s < 8,
        Instruction::Brbc { s, .. } => s < 8,
        Instruction::Cpse { d, r } => d < 32 && r < 32,
        Instruction::Sbrc { r, b } => r < 32 && b < 8,
        Instruction::Sbrs { r, b } => r < 32 && b < 8,
        Instruction::Sbic { a, b } => a < 32 && b < 8,
        Instruction::Sbis { a, b } => a < 32 && b < 8,
        Instruction::Cbi { a, b } => a < 32 && b < 8,
        Instruction::Sbi { a, b } => a < 32 && b < 8,
        Instruction::In { d, a } => d < 32 && a < 64,
        Instruction::Out { a, r } => a < 64 && r < 32,
        Instruction::Rjmp { k } => -2048 <= k < 2048,
        Instruction::Rcall { k } => -2048 <= k < 2048,
        Instruction::Push { r } => r < 32,
        Instruction::Pop { d } => d < 32,
        Instruction::Lds { d, .. } => d < 32,
        Instruction::Sts { r, .. } => r < 32,
        Instruction::Ld { d, p, q, .. } => d < 32 && (p == 26 || p == 28 || p == 30) && q < 64,
        Instruction::St { r, p, q, .. } => r < 32 && (p == 26 || p == 28 || p == 30) && q < 64,
        Instruction::Lpm { d, .. } => d < 32,
        Instruction::Mul { d, r } => d < 32 && r < 32,
        _ => true,
    }
}

proof fn lemma_fields(w: u16)
    by (bit_vector)
    ensures
        (w >> 4u16) & 0x1f < 32,
        (w & 0x0f) | ((w >> 5u16) & 0x10) < 32,
        (w >> 4u16) & 0x0f < 16,
        (w & 0x0f) < 16,
        (w >> 4u16) & 3 < 4,
        ((w >> 2u16) & 0x30) | (w & 0x0f) < 64,
        (w >> 3u16) & 0x1f < 32,
        w & 7 < 8,
        (w >> 4u16) & 7 < 8,
        ((w >> 5u16) & 0x30) | (w & 0x0f) < 64,
        (w >> 3u16) & 0x7f < 128,
        w & 0x0fff < 4096,
        ((w >> 4u16) & 0xf0) | (w & 0x0f) < 256,
        ((w >> 8u16) & 0x20) | ((w >> 7u16) & 0x18) | (w & 0x07) < 64,
{
}

/// Decodes the word `w`, `next` being the word after it.
pub fn decode_exec(w: u16, next: u16) -> (r: Option<Instruction>)
    ensures
        r == decode(w, next),
        r matches Some(i) ==> operands_in_range(i),
{
    proof {
        lemma_fields(w);
    }
    let d = ((w >> 4u16) & 0x1f) as u8;
    let r = ((w & 0x0f) | ((w >> 5u16) & 0x10)) as u8;
    let d16 = (16 + ((w >> 4u16) & 0x0f)) as u8;
    let k8 = (((w >> 4u16) & 0xf0) | (w & 0x0f)) as u8;
    let raw7 = (w >> 3u16) & 0x7f;
    let k7 = (if raw7 >= 64 { raw7 as i16 - 128 } else { raw7 as i16 }) as i8;
    let raw12 = w & 0x0fff;
    let k12 = if raw12 >= 2048 { raw12 as i16 - 4096 } else { raw12 as i16 };
    let b = (w & 7) as u8;
    let a5 = ((w >> 3u16) & 0x1f) as u8;
    let a6 = (((w >> 5u16) & 0x30) | (w & 0x0f)) as u8;
    let dw = (24 + 2 * ((w >> 4u16) & 3)) as u8;
    let k6 = (((w >> 2u16) & 0x30) | (w & 0x0f)) as u8;
    let s3 = ((w >> 4u16) & 7) as u8;
    if w == 0 {
        Some(Instruction::Nop)
    } else if w == 0x9598 {
        Some(Instruction::Break)
    } else if w == 0x9588 || w == 0x95a8 {
        Some(Instruction::Sleep)
    } else if w == 0x9409 {
        Some(Instruction::Ijmp)
    } else if w == 0x9509 {
        Some(Instruction::Icall)
    } else if w == 0x9508 {
        Some(Instruction::Ret)
    } else if w == 0x9518 {
        Some(Instruction::Reti)
    } else if w & 0xff00 == 0x0100 {
        Some(Instruction::Movw { d: (((w >> 4u16) & 0x0f) * 2) as u8, r: ((w & 0x0f) * 2) as u8 })
    } else if w & 0xfc00 == 0x0400 {
        Some(Instruction::Alu { op: AluOp::Cpc, d, r })
    } else if w & 0xfc00 == 0x0800 {
        Some(Instruction::Alu { op: AluOp::Sbc, d, r })
    } else if w & 0xfc00 == 0x0c00 {
        Some(Instruction::Alu { op: AluOp::Add, d, r })
    } else if w & 0xfc00 == 0x1000 {
        Some(Instruction::Cpse { d, r })
    } else if w & 0xfc00 == 0x1400 {
        Some(Instruction::Alu { op: AluOp::Cp, d, r })
    } else if w & 0xfc00 == 0x1800 {
        Some(Instruction::Alu { op: AluOp::Sub, d, r })
    } else if w & 0xfc00 == 0x1c00 {
        Some(Instruction::Alu { op: AluOp::Adc, d, r })
    } else if w & 0xfc00 == 0x2000 {
        Some(Instruction::Alu { op: AluOp::And, d, r })
    } else if w & 0xfc00 == 0x2400 {
        Some(Instruction::Alu { op: AluOp::Eor, d, r })
    } else if w & 0xfc00 == 0x2800 {
        Some(Instruction::Alu { op: AluOp::Or, d, r })
    } else if w & 0xfc00 == 0x2c00 {
        Some(Instruction::Alu { op: AluOp::Mov, d, r })
    } else if w & 0xf000 == 0x3000 {
        Some(Instruction::Imm { op: AluOp::Cp, d: d16, k: k8 })
    } else if w & 0xf000 == 0x4000 {
        Some(Instruction::Imm { op: AluOp::Sbc, d: d16, k: k8 })
    } else if w & 0xf000 == 0x5000 {
        Some(Instruction::Imm { op: AluOp::Sub, d: d16, k: k8 })
    } else if w & 0xf000 == 0x6000 {
        Some(Instruction::Imm { op: AluOp::Or, d: d16, k: k8 })
    } else if w & 0xf000 == 0x7000 {
        Some(Instruction::Imm { op: AluOp::And, d: d16, k: k8 })
    } else if w & 0xf000 == 0xe000 {
        Some(Instruction::Imm { op: AluOp::Mov, d: d16, k: k8 })
    } else if w & 0xf000 == 0xc000 {
        Some(Instruction::Rjmp { k: k12 })
    } else if w & 0xf000 == 0xd000 {
        Some(Instruction::Rcall { k: k12 })
    } else if w == 0x95c8 {
        Some(Instruction::Lpm { d: 0, inc: false })
    } else if w & 0xfe0f == 0x9000 {
        Some(Instruction::Lds { d, k: next })
    } else if w & 0xfe0f == 0x9200 {
        Some(Instruction::Sts { k: next, r: d })
    } else if w & 0xfc00 == 0x9000 && is_pointer_form(w) {
        let n = w & 0x0f;
        let p: u8 = if n >= 0x0c { 26 } else if n >= 0x09 { 28 } else { 30 };
        let inc = n == 0x0d || n == 0x09 || n == 0x01;
        let dec = n == 0x0e || n == 0x0a || n == 0x02;
        if w & 0x0200 == 0 {
            if n == 4 || n == 5 {
                Some(Instruction::Lpm { d, inc: n == 5 })
            } else {
                Some(Instruction::Ld { d, p, q: 0, inc, dec })
            }
        } else {
            Some(Instruction::St { r: d, p, q: 0, inc, dec })
        }
    } else if w & 0xd000 == 0x8000 {
        let p: u8 = if w & 0x08 != 0 { 28 } else { 30 };
        let q = (((w >> 8u16) & 0x20) | ((w >> 7u16) & 0x18) | (w & 0x07)) as u8;
        if w & 0x0200 == 0 {
            Some(Instruction::Ld { d, p, q, inc: false, dec: false })
        } else {
            Some(Instruction::St { r: d, p, q, inc: false, dec: false })
        }
    } else if w & 0xfc00 == 0x9c00 {
        Some(Instruction::Mul { d, r })
    } else if w & 0xfe0f == 0x900f {
        Some(Instruction::Pop { d })
    } else if w & 0xfe0f == 0x920f {
        Some(Instruction::Push { r: d })
    } else if w & 0xfe0e == 0x940c {
        Some(Instruction::Jmp { k: next })
    } else if w & 0xfe0e == 0x940e {
        Some(Instruction::Call { k: next })
    } else if w & 0xff8f == 0x9408 {
        Some(Instruction::Bset { s: s3 })
    } else if w & 0xff8f == 0x9488 {
        Some(Instruction::Bclr { s: s3 })
    } else if w & 0xfe0f == 0x9400 {
        Some(Instruction::Unary { op: UnaryOp::Com, d })
    } else if w & 0xfe0f == 0x9401 {
        Some(Instruction::Unary { op: UnaryOp::Neg, d })
    } else if w & 0xfe0f == 0x9402 {
        Some(Instruction::Unary { op: UnaryOp::Swap, d })
    } else if w & 0xfe0f == 0x9403 {
        Some(Instruction::Unary { op: UnaryOp::Inc, d })
    } else if w & 0xfe0f == 0x9405 {
        Some(Instruction::Unary { op: UnaryOp::Asr, d })
    } else if w & 0xfe0f == 0x9406 {
        Some(Instruction::Unary { op: UnaryOp::Lsr, d })
    } else if w & 0xfe0f == 0x9407 {
        Some(Instruction::Unary { op: UnaryOp::Ror, d })
    } else if w & 0xfe0f == 0x940a {
        Some(Instruction::Unary { op: UnaryOp::Dec, d })
    } else if w & 0xff00 == 0x9600 {
        Some(Instruction::Adiw { d: dw, k: k6 })
    } else if w & 0xff00 == 0x9700 {
        Some(Instruction::Sbiw { d: dw, k: k6 })
    } else if w & 0xff00 == 0x9800 {
        Some(Instruction::Cbi { a: a5, b })
    } else if w & 0xff00 == 0x9900 {
        Some(Instruction::Sbic { a: a5, b })
    } else if w & 0xff00 == 0x9a00 {
        Some(Instruction::Sbi { a: a5, b })
    } else if w & 0xff00 == 0x9b00 {
        Some(Instruction::Sbis { a: a5, b })
    } else if w & 0xf800 == 0xb000 {
        Some(Instruction::In { d, a: a6 })
    } else if w & 0xf800 == 0xb800 {
        Some(Instruction::Out { a: a6, r: d })
    } else if w & 0xfc00 == 0xf000 {
        Some(Instruction::Brbs { s: b, k: k7 })
    } else if w & 0xfc00 == 0xf400 {
        Some(Instruction::Brbc { s: b, k: k7 })
    } else if w & 0xfe08 == 0xf800 {
        Some(Instruction::Bld { d, b })
    } else if w & 0xfe08 == 0xfa00 {
        Some(Instruction::Bst { d, b })
    } else if w & 0xfe08 == 0xfc00 {
        Some(Instruction::Sbrc { r: d, b })
    } else if w & 0xfe08 == 0xfe00 {
        Some(Instruction::Sbrs { r: d, b })
    } else {
        None
    }
}

fn is_pointer_form(w: u16) -> (r: bool)
    ensures
        r == pointer_form(w),
{
    let n = w & 0x0f;
    n == 0x0c || n == 0x0d || n == 0x0e || n == 0x09 || n == 0x0a || n == 0x01 || n == 0x02 || (
    w & 0x0200 == 0 && (n == 4 || n == 5))
}

/// Whether the word opens a two-word instruction.
pub fn is_two_words(w: u16) -> (r: bool)
    ensures
        r == two_words(w),
{
    w & 0xfe0e == 0x940c || w & 0xfe0e == 0x940e || w & 0xfe0f == 0x9000 || w & 0xfe0f == 0x9200
}

} // verus!
