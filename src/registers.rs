use vstd::prelude::*;

verus! {

pub const REGISTER_SIZE: usize = 32;
pub const REGISTER_W_INDEX: usize = 24;
pub const REGISTER_X_INDEX: usize = 26;
pub const REGISTER_Y_INDEX: usize = 28;
pub const REGISTER_Z_INDEX: usize = 30;

/// The little-endian 16-bit value of the pair of bytes at `i` and `i + 1`.
pub open spec fn pair_of(s: Seq<u8>, i: int) -> u16 {
    (s[i] + 256 * s[i + 1]) as u16
}

/// Splitting a word into its low and high byte and joining them again.
pub proof fn lemma_split_word(v: u16)
    ensures
        v == (v as u8) + 256 * ((v >> 8u16) as u8),
        (v as u8) == v % 256,
        ((v >> 8u16) as u8) == v / 256,
{
    assert(v == (v as u8) + 256 * ((v >> 8u16) as u8)) by (bit_vector);
    assert((v as u8) == v % 256) by (bit_vector);
    assert(((v >> 8u16) as u8) == v / 256) by (bit_vector);
}

/// The 32 general purpose registers r0 to r31. The 16-bit pairs W, X, Y
/// and Z are views of r24 to r31, not separate state.
pub struct GeneralRegisters {
    bytes: Vec<u8>,
}

impl View for GeneralRegisters {
    type V = Seq<u8>;

    closed spec fn view(&self) -> Seq<u8> {
        self.bytes@
    }
}

impl GeneralRegisters {
    pub open spec fn wf(&self) -> bool {
        self@.len() == REGISTER_SIZE
    }

    /// All registers zero.
    pub fn new() -> (r: GeneralRegisters)
        ensures
            r.wf(),
            r@ == Seq::new(REGISTER_SIZE as nat, |i: int| 0u8),
    {
        let mut bytes: Vec<u8> = Vec::with_capacity(REGISTER_SIZE);
        let mut i: usize = 0;
        while i < REGISTER_SIZE
            invariant
                i <= REGISTER_SIZE,
                bytes@ == Seq::new(i as nat, |j: int| 0u8),
            decreases REGISTER_SIZE - i,
        {
            bytes.push(0);
            i += 1;
            assert(bytes@ =~= Seq::new(i as nat, |j: int| 0u8));
        }
        GeneralRegisters { bytes }
    }

    /// The byte in register `index`.
    pub fn get(&self, index: usize) -> (r: u8)
        requires
            self.wf(),
            index < REGISTER_SIZE,
        ensures
            r == self@[index as int],
    {
        self.bytes[index]
    }

    /// Writes register `index`.
    pub fn set(&mut self, index: usize, value: u8)
        requires
            old(self).wf(),
            index < REGISTER_SIZE,
        ensures
            final(self)@ == old(self)@.update(index as int, value),
            final(self).wf(),
    {
        self.bytes.set(index, value);
    }

    /// The little-endian pair at `index` and `index + 1`.
    pub fn pair(&self, index: usize) -> (r: u16)
        requires
            self.wf(),
            index + 1 < REGISTER_SIZE,
        ensures
            r == pair_of(self@, index as int),
    {
        self.bytes[index] as u16 + 256 * self.bytes[index + 1] as u16
    }

    /// Writes the low byte of `value` to `index` and the high byte to
    /// `index + 1`.
    pub fn set_pair(&mut self, index: usize, value: u16)
        requires
            old(self).wf(),
            index + 1 < REGISTER_SIZE,
        ensures
            final(self).wf(),
            final(self)@ == old(self)@.update(index as int, value as u8).update(
                index + 1,
                (value >> 8u16) as u8,
            ),
            final(self)@[index as int] == value % 256,
            final(self)@[index + 1] == value / 256,
            pair_of(final(self)@, index as int) == value,
    {
        proof {
            lemma_split_word(value);
        }
        self.bytes.set(index, value as u8);
        self.bytes.set(index + 1, (value >> 8u16) as u8);
    }

    /// The W pair, r25:r24.
    pub fn w(&self) -> (r: u16)
        requires
            self.wf(),
        ensures
            r == pair_of(self@, REGISTER_W_INDEX as int),
    {
        self.pair(REGISTER_W_INDEX)
    }

    pub fn set_w(&mut self, value: u16)
        requires
            old(self).wf(),
        ensures
            final(self).wf(),
            final(self)@ == old(self)@.update(REGISTER_W_INDEX as int, value as u8).update(
                REGISTER_W_INDEX + 1,
                (value >> 8u16) as u8,
            ),
    {
        self.set_pair(REGISTER_W_INDEX, value)
    }

    /// The X pair, r27:r26.
    pub fn x(&self) -> (r: u16)
        requires
            self.wf(),
        ensures
            r == pair_of(self@, REGISTER_X_INDEX as int),
    {
        self.pair(REGISTER_X_INDEX)
    }

    pub fn set_x(&mut self, value: u16)
        requires
            old(self).wf(),
        ensures
            final(self).wf(),
            final(self)@ == old(self)@.update(REGISTER_X_INDEX as int, value as u8).update(
                REGISTER_X_INDEX + 1,
                (value >> 8u16) as u8,
            ),
    {
        self.set_pair(REGISTER_X_INDEX, value)
    }

    /// The Y pair, r29:r28.
    pub fn y(&self) -> (r: u16)
        requires
            self.wf(),
        ensures
            r == pair_of(self@, REGISTER_Y_INDEX as int),
    {
        self.pair(REGISTER_Y_INDEX)
    }

    pub fn set_y(&mut self, value: u16)
        requires
            old(self).wf(),
        ensures
            final(self).wf(),
            final(self)@ == old(self)@.update(REGISTER_Y_INDEX as int, value as u8).update(
                REGISTER_Y_INDEX + 1,
                (value >> 8u16) as u8,
            ),
    {
        self.set_pair(REGISTER_Y_INDEX, value)
    }

    /// The Z pair, r31:r30.
    pub fn z(&self) -> (r: u16)
        requires
            self.wf(),
        ensures
            r == pair_of(self@, REGISTER_Z_INDEX as int),
    {
        self.pair(REGISTER_Z_INDEX)
    }

    pub fn set_z(&mut self, value: u16)
        requires
            old(self).wf(),
        ensures
            final(self).wf(),
            final(self)@ == old(self)@.update(REGISTER_Z_INDEX as int, value as u8).update(
                REGISTER_Z_INDEX + 1,
                (value >> 8u16) as u8,
            ),
    {
        self.set_pair(REGISTER_Z_INDEX, value)
    }
}

/// Writing a pair and reading it back gives the value written, and the
/// two bytes hold its low and high byte.
pub proof fn lemma_pair_round_trip(s: Seq<u8>, i: int, v: u16)
    requires
        s.len() == REGISTER_SIZE,
        0 <= i,
        i + 1 < REGISTER_SIZE,
    ensures
        ({
            let t = s.update(i, v as u8).update(i + 1, (v >> 8u16) as u8);
            &&& pair_of(t, i) == v
            &&& t[i] == v & 0xff
            &&& t[i + 1] == v >> 8u16
        }),
{
    lemma_split_word(v);
    assert((v as u8) == v & 0xff) by (bit_vector);
    assert(((v >> 8u16) as u8) == v >> 8u16) by (bit_vector);
}

} // verus!
