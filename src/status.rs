use vstd::prelude::*;

verus! {

/// Whether bit `i` of `b` is set.
pub open spec fn bit_of(b: u8, i: u8) -> bool {
    (b >> i) & 1 == 1
}

/// The eight flags of SREG: I, T, H, S, V, N, Z, C.
#[derive(Clone, Copy, Debug, PartialEq, Eq, Structural)]
pub struct StatusRegister {
    pub i: bool,
    pub t: bool,
    pub h: bool,
    pub s: bool,
    pub v: bool,
    pub n: bool,
    pub z: bool,
    pub c: bool,
}

pub open spec fn bit_val(f: bool, i: u8) -> u8 {
    if f { (1u8 << i) as u8 } else { 0u8 }
}

/// Eight flags packed into a byte, the first one at bit 7.
pub open spec fn pack_flags(i: bool, t: bool, h: bool, s: bool, v: bool, n: bool, z: bool, c: bool) -> u8 {
    (bit_val(i, 7) | bit_val(t, 6) | bit_val(h, 5) | bit_val(s, 4) | bit_val(v, 3) | bit_val(n, 2)
        | bit_val(z, 1) | bit_val(c, 0))
}

proof fn lemma_pack_bits(i: bool, t: bool, h: bool, s: bool, v: bool, n: bool, z: bool, c: bool)
    by (bit_vector)
    ensures
        bit_of(pack_flags(i, t, h, s, v, n, z, c), 7) == i,
        bit_of(pack_flags(i, t, h, s, v, n, z, c), 6) == t,
        bit_of(pack_flags(i, t, h, s, v, n, z, c), 5) == h,
        bit_of(pack_flags(i, t, h, s, v, n, z, c), 4) == s,
        bit_of(pack_flags(i, t, h, s, v, n, z, c), 3) == v,
        bit_of(pack_flags(i, t, h, s, v, n, z, c), 2) == n,
        bit_of(pack_flags(i, t, h, s, v, n, z, c), 1) == z,
        bit_of(pack_flags(i, t, h, s, v, n, z, c), 0) == c,
        pack_flags(false, false, false, false, false, false, false, false) == 0,
{
}

proof fn lemma_unpack_bits(b: u8)
    by (bit_vector)
    ensures
        pack_flags(bit_of(b, 7), bit_of(b, 6), bit_of(b, 5), bit_of(b, 4), bit_of(b, 3),
            bit_of(b, 2), bit_of(b, 1), bit_of(b, 0)) == b,
        bit_of(b, 7) == (b & 0x80 != 0), bit_of(b, 6) == (b & 0x40 != 0),
        bit_of(b, 5) == (b & 0x20 != 0), bit_of(b, 4) == (b & 0x10 != 0),
        bit_of(b, 3) == (b & 0x08 != 0), bit_of(b, 2) == (b & 0x04 != 0),
        bit_of(b, 1) == (b & 0x02 != 0), bit_of(b, 0) == (b & 0x01 != 0),
        !bit_of(0, 7) && !bit_of(0, 6) && !bit_of(0, 5) && !bit_of(0, 4)
            && !bit_of(0, 3) && !bit_of(0, 2) && !bit_of(0, 1) && !bit_of(0, 0),
{
}

impl StatusRegister {
    /// The packed byte: bit 7 is I, down to bit 0, which is C.
    pub open spec fn byte(self) -> u8 {
        pack_flags(self.i, self.t, self.h, self.s, self.v, self.n, self.z, self.c)
    }

    /// The flag at index `k` (0 is C, 1 is Z, ..., 7 is I).
    pub open spec fn flag(self, k: u8) -> bool {
        if k == 0 { self.c }
        else if k == 1 { self.z }
        else if k == 2 { self.n }
        else if k == 3 { self.v }
        else if k == 4 { self.s }
        else if k == 5 { self.h }
        else if k == 6 { self.t }
        else { self.i }
    }

    /// The register with the flag at index `k` set to `value`.
    pub open spec fn with_flag(self, k: u8, value: bool) -> StatusRegister {
        if k == 0 { StatusRegister { c: value, ..self } }
        else if k == 1 { StatusRegister { z: value, ..self } }
        else if k == 2 { StatusRegister { n: value, ..self } }
        else if k == 3 { StatusRegister { v: value, ..self } }
        else if k == 4 { StatusRegister { s: value, ..self } }
        else if k == 5 { StatusRegister { h: value, ..self } }
        else if k == 6 { StatusRegister { t: value, ..self } }
        else { StatusRegister { i: value, ..self } }
    }

    /// The register unpacked from a byte.
    pub open spec fn unpacked(b: u8) -> StatusRegister {
        StatusRegister {
            i: bit_of(b, 7),
            t: bit_of(b, 6),
            h: bit_of(b, 5),
            s: bit_of(b, 4),
            v: bit_of(b, 3),
            n: bit_of(b, 2),
            z: bit_of(b, 1),
            c: bit_of(b, 0),
        }
    }

    /// All flags clear.
    pub fn cleared() -> (r: StatusRegister)
        ensures
            r.byte() == 0,
            r == StatusRegister::unpacked(0),
    {
        let r = StatusRegister {
            i: false,
            t: false,
            h: false,
            s: false,
            v: false,
            n: false,
            z: false,
            c: false,
        };
        proof {
            lemma_pack_bits(false, false, false, false, false, false, false, false);
            lemma_unpack_bits(0);
        }
        r
    }

    /// Packs the flags into a byte, bit 7 being I and bit 0 being C.
    pub fn to_u8(&self) -> (r: u8)
        ensures
            r == self.byte(),
            forall|k: u8| k < 8 ==> bit_of(r, k) == #[trigger] self.flag(k),
    {
        let r: u8 = (if self.i { 0x80u8 } else { 0u8 }) | (if self.t { 0x40u8 } else { 0u8 })
            | (if self.h { 0x20u8 } else { 0u8 }) | (if self.s { 0x10u8 } else { 0u8 })
            | (if self.v { 0x08u8 } else { 0u8 }) | (if self.n { 0x04u8 } else { 0u8 })
            | (if self.z { 0x02u8 } else { 0u8 }) | (if self.c { 0x01u8 } else { 0u8 });
        assert(bit_val(true, 7) == 0x80u8 && bit_val(true, 6) == 0x40u8 && bit_val(true, 5) == 0x20u8
            && bit_val(true, 4) == 0x10u8 && bit_val(true, 3) == 0x08u8 && bit_val(true, 2) == 0x04u8
            && bit_val(true, 1) == 0x02u8 && bit_val(true, 0) == 0x01u8) by (bit_vector);
        proof {
            lemma_pack_unpack(*self);
        }
        r
    }

    /// Unpacks a byte into the eight flags.
    pub fn from_u8(value: u8) -> (r: StatusRegister)
        ensures
            r == StatusRegister::unpacked(value),
            r.byte() == value,
    {
        let r = StatusRegister {
            i: value & 0x80 != 0,
            t: value & 0x40 != 0,
            h: value & 0x20 != 0,
            s: value & 0x10 != 0,
            v: value & 0x08 != 0,
            n: value & 0x04 != 0,
            z: value & 0x02 != 0,
            c: value & 0x01 != 0,
        };
        proof {
            lemma_unpack_bits(value);
        }
        proof {
            lemma_sreg_round_trip(value);
        }
        r
    }

    /// Unpacks the byte behind `byte` into the eight flags.
    pub fn new(byte: &u8) -> (r: StatusRegister)
        ensures
            r == StatusRegister::unpacked(*byte),
    {
        StatusRegister::from_u8(*byte)
    }

    /// Reads the flag selected by a three-bit index (0 is C, 7 is I).
    pub fn get(&self, index: u8) -> (r: bool)
        requires
            index < 8,
        ensures
            r == self.flag(index),
    {
        match index {
            0 => self.c,
            1 => self.z,
            2 => self.n,
            3 => self.v,
            4 => self.s,
            5 => self.h,
            6 => self.t,
            _ => self.i,
        }
    }

    /// Writes the flag selected by a three-bit index, leaving the others.
    pub fn set(&mut self, index: u8, value: bool)
        requires
            index < 8,
        ensures
            *final(self) == old(self).with_flag(index, value),
            final(self).flag(index) == value,
            forall|k: u8| k < 8 && k != index ==> #[trigger] final(self).flag(k) == old(self).flag(k),
    {
        match index {
            0 => self.c = value,
            1 => self.z = value,
            2 => self.n = value,
            3 => self.v = value,
            4 => self.s = value,
            5 => self.h = value,
            6 => self.t = value,
            _ => self.i = value,
        }
    }
}

/// Packing a register and reading back each bit gives its flags.
pub proof fn lemma_pack_unpack(s: StatusRegister)
    ensures
        StatusRegister::unpacked(s.byte()) == s,
        forall|k: u8| k < 8 ==> bit_of(s.byte(), k) == #[trigger] s.flag(k),
{
    lemma_pack_bits(s.i, s.t, s.h, s.s, s.v, s.n, s.z, s.c);
    assert forall|k: u8| k < 8 implies bit_of(s.byte(), k) == #[trigger] s.flag(k) by {
        if k == 0 {} else if k == 1 {} else if k == 2 {} else if k == 3 {}
        else if k == 4 {} else if k == 5 {} else if k == 6 {} else {}
    }
}

/// Unpacking any byte into flags and packing them again gives the byte back.
pub proof fn lemma_sreg_round_trip(b: u8)
    ensures
        StatusRegister::unpacked(b).byte() == b,
{
    lemma_unpack_bits(b);
}

/// The register unpacked from zero has every flag clear.
pub proof fn lemma_unpacked_zero()
    ensures
        StatusRegister::unpacked(0) == (StatusRegister {
            i: false,
            t: false,
            h: false,
            s: false,
            v: false,
            n: false,
            z: false,
            c: false,
        }),
{
    lemma_unpack_bits(0);
}

} // verus!
