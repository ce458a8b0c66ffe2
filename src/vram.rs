use vstd::prelude::*;

verus! {

/// Number of pixels in the display RAM: 128 columns by 64 rows.
pub const DISPLAY_PIXELS: usize = 8192;

/// The display RAM, one bit per pixel, kept in a packed bit array.
#[verifier::external_body]
pub struct Vram {
    bits: bitvec::array::BitArray<[u64; 128], bitvec::order::Lsb0>,
}

/// The pixels held by a display RAM, in row-major order.
pub uninterp spec fn vram_bits(v: Vram) -> Seq<bool>;

impl Vram {
    /// Relies on bitvec's `BitArray::ZERO`: a bit array whose bits are all clear.
    #[verifier::external_body]
    pub fn blank() -> (r: Vram)
        ensures
            vram_bits(r) == Seq::new(DISPLAY_PIXELS as nat, |k: int| false),
    {
        Vram { bits: bitvec::array::BitArray::ZERO }
    }

    /// Relies on indexing a bitvec `BitSlice`: the bit at `index`.
    #[verifier::external_body]
    pub fn get(&self, index: usize) -> (r: bool)
        requires
            index < vram_bits(*self).len(),
        ensures
            r == vram_bits(*self)[index as int],
    {
        self.bits[index]
    }

    /// Relies on bitvec's `BitSlice::set`: writes the bit at `index`, no other.
    #[verifier::external_body]
    pub fn set(&mut self, index: usize, value: bool)
        requires
            index < vram_bits(*old(self)).len(),
        ensures
            vram_bits(*final(self)) == vram_bits(*old(self)).update(index as int, value),
    {
        self.bits.set(index, value)
    }
}

} // verus!
