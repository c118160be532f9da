use vstd::prelude::*;

verus! {

/// The OR of the masks in `flag_translations` whose flag is set.
pub open spec fn spec_bit_flag_set(flag_translations: Seq<(bool, u32)>) -> u32
    decreases flag_translations.len(),
{
    if flag_translations.len() == 0 {
        0u32
    } else {
        let rest = spec_bit_flag_set(flag_translations.drop_last());
        let last = flag_translations.last();
        if last.0 {
            rest | last.1
        } else {
            rest
        }
    }
}

/// Translates booleans to bits in a bit set: each mask whose flag is `true`
/// is OR-ed into the result.
pub fn build_bit_flag_set(flag_translations: &Vec<(bool, u32)>) -> (r: u32)
    ensures
        r == spec_bit_flag_set(flag_translations@),
{
    let mut bit_flag_set: u32 = 0;
    let mut i: usize = 0;
    while i < flag_translations.len()
        invariant
            i <= flag_translations@.len(),
            bit_flag_set == spec_bit_flag_set(flag_translations@.take(i as int)),
        decreases flag_translations@.len() - i,
    {
        let (needed, flag_bit_mask) = flag_translations[i];
        proof {
            assert(flag_translations@.take(i + 1).drop_last() =~= flag_translations@.take(i as int));
            assert(flag_translations@.take(i + 1).last() == flag_translations@[i as int]);
        }
        if needed {
            bit_flag_set = bit_flag_set | flag_bit_mask;
        }
        i = i + 1;
    }
    proof {
        assert(flag_translations@.take(flag_translations@.len() as int) =~= flag_translations@);
    }
    bit_flag_set
}

/// A trait concerned with the least significant 16 bits of integer types.
pub trait Width16BitPortion: Sized {
    /// The value's least significant 16 bits, read as an unsigned word.
    spec fn portion_u16(self) -> u16;

    fn from_low_high_u8(low: u8, high: u8) -> (r: Self)
        ensures
            r.portion_u16() == (low as u16) | ((high as u16) << 8),
    ;

    fn from_high_low_u8(high: u8, low: u8) -> (r: Self)
        ensures
            r.portion_u16() == (low as u16) | ((high as u16) << 8),
    {
        Self::from_low_high_u8(low, high)
    }

    fn low_u8(self) -> (r: u8)
        ensures
            r == self.portion_u16() as u8,
    ;

    fn high_u8(self) -> (r: u8)
        ensures
            r == (self.portion_u16() >> 8) as u8,
    ;
}

impl Width16BitPortion for u16 {
    open spec fn portion_u16(self) -> u16 {
        self
    }

    fn from_low_high_u8(low: u8, high: u8) -> (r: u16) {
        (low as u16) | ((high as u16) << 8)
    }

    fn low_u8(self) -> (r: u8) {
        proof {
            assert((self & 0xff) as u8 == self as u8) by (bit_vector);
        }
        (self & 0xff) as u8
    }

    fn high_u8(self) -> (r: u8) {
        proof {
            assert(((self >> 8) & 0xff) as u8 == (self >> 8) as u8) by (bit_vector);
        }
        ((self >> 8) & 0xff) as u8
    }
}

impl Width16BitPortion for i16 {
    open spec fn portion_u16(self) -> u16 {
        self as u16
    }

    fn from_low_high_u8(low: u8, high: u8) -> (r: i16) {
        let word: u16 = (low as u16) | ((high as u16) << 8);
        proof {
            assert(word as i16 as u16 == word) by (bit_vector);
        }
        #[verifier::truncate] (word as i16)
    }

    fn low_u8(self) -> (r: u8) {
        let word: u16 = #[verifier::truncate] (self as u16);
        proof {
            assert((word & 0xff) as u8 == word as u8) by (bit_vector);
        }
        (word & 0xff) as u8
    }

    fn high_u8(self) -> (r: u8) {
        let word: u16 = #[verifier::truncate] (self as u16);
        proof {
            assert(((word >> 8) & 0xff) as u8 == (word >> 8) as u8) by (bit_vector);
        }
        ((word >> 8) & 0xff) as u8
    }
}

/// A trait concerned with the least significant 32 bits of integer types.
pub trait Width32BitPortion: Sized {
    /// The value's least significant 32 bits, read as an unsigned word.
    spec fn portion_u32(self) -> u32;

    /// The value the type stores for a packed 32-bit word: the packing
    /// operations below return exactly this value, so a caller knows the
    /// whole result, not only its low 32 bits.
    spec fn value_for_portion(word: u32) -> Self;

    fn from_low_high_u16(low: u16, high: u16) -> (r: Self)
        ensures
            r.portion_u32() == (low as u32) | ((high as u32) << 16),
            r == Self::value_for_portion((low as u32) | ((high as u32) << 16)),
    ;

    fn from_high_low_u16(high: u16, low: u16) -> (r: Self)
        ensures
            r.portion_u32() == (low as u32) | ((high as u32) << 16),
            r == Self::value_for_portion((low as u32) | ((high as u32) << 16)),
    {
        Self::from_low_high_u16(low, high)
    }

    fn from_low_high_i16(low: i16, high: i16) -> (r: Self)
        ensures
            r.portion_u32() == ((low as u16) as u32) | (((high as u16) as u32) << 16),
            r == Self::value_for_portion(((low as u16) as u32) | (((high as u16) as u32) << 16)),
    {
        Self::from_low_high_u16(
            #[verifier::truncate] (low as u16),
            #[verifier::truncate] (high as u16),
        )
    }

    fn from_high_low_i16(high: i16, low: i16) -> (r: Self)
        ensures
            r.portion_u32() == ((low as u16) as u32) | (((high as u16) as u32) << 16),
            r == Self::value_for_portion(((low as u16) as u32) | (((high as u16) as u32) << 16)),
    {
        Self::from_low_high_i16(low, high)
    }

    fn low_u16(self) -> (r: u16)
        ensures
            r == self.portion_u32() as u16,
    ;

    fn high_u16(self) -> (r: u16)
        ensures
            r == (self.portion_u32() >> 16) as u16,
    ;

    fn low_i16(self) -> (r: i16)
        ensures
            r == self.portion_u32() as u16 as i16,
    {
        let word: u16 = self.low_u16();
        proof {
            assert(word as i16 as u16 == word) by (bit_vector);
        }
        #[verifier::truncate] (word as i16)
    }

    fn high_i16(self) -> (r: i16)
        ensures
            r == (self.portion_u32() >> 16) as u16 as i16,
    {
        let word: u16 = self.high_u16();
        proof {
            assert(word as i16 as u16 == word) by (bit_vector);
        }
        #[verifier::truncate] (word as i16)
    }
}

impl Width32BitPortion for u32 {
    open spec fn portion_u32(self) -> u32 {
        self
    }

    open spec fn value_for_portion(word: u32) -> u32 {
        word
    }

    fn from_low_high_u16(low: u16, high: u16) -> (r: u32) {
        (low as u32) | ((high as u32) << 16)
    }

    fn low_u16(self) -> (r: u16) {
        proof {
            assert((self & 0xffff) as u16 == self as u16) by (bit_vector);
        }
        (self & 0xffff) as u16
    }

    fn high_u16(self) -> (r: u16) {
        proof {
            assert(((self >> 16) & 0xffff) as u16 == (self >> 16) as u16) by (bit_vector);
        }
        ((self >> 16) & 0xffff) as u16
    }
}

impl Width32BitPortion for i32 {
    open spec fn portion_u32(self) -> u32 {
        self as u32
    }

    open spec fn value_for_portion(word: u32) -> i32 {
        word as i32
    }

    fn from_low_high_u16(low: u16, high: u16) -> (r: i32) {
        let word: u32 = (low as u32) | ((high as u32) << 16);
        proof {
            assert(word as i32 as u32 == word) by (bit_vector);
        }
        #[verifier::truncate] (word as i32)
    }

    fn low_u16(self) -> (r: u16) {
        let word: u32 = #[verifier::truncate] (self as u32);
        proof {
            assert((word & 0xffff) as u16 == word as u16) by (bit_vector);
        }
        (word & 0xffff) as u16
    }

    fn high_u16(self) -> (r: u16) {
        let word: u32 = #[verifier::truncate] (self as u32);
        proof {
            assert(((word >> 16) & 0xffff) as u16 == (word >> 16) as u16) by (bit_vector);
        }
        ((word >> 16) & 0xffff) as u16
    }
}

impl Width32BitPortion for usize {
    open spec fn portion_u32(self) -> u32 {
        self as u32
    }

    /// The packed word zero-extended: the higher bits, where the type has
    /// them, are zero.
    open spec fn value_for_portion(word: u32) -> usize {
        word as usize
    }

    fn from_low_high_u16(low: u16, high: u16) -> (r: usize) {
        let word: u32 = (low as u32) | ((high as u32) << 16);
        proof {
            assert(word as usize as u32 == word) by (bit_vector);
        }
        word as usize
    }

    fn low_u16(self) -> (r: u16) {
        let word: u32 = #[verifier::truncate] (self as u32);
        proof {
            assert((word & 0xffff) as u16 == word as u16) by (bit_vector);
        }
        (word & 0xffff) as u16
    }

    fn high_u16(self) -> (r: u16) {
        let word: u32 = #[verifier::truncate] (self as u32);
        proof {
            assert(((word >> 16) & 0xffff) as u16 == (word >> 16) as u16) by (bit_vector);
        }
        ((word >> 16) & 0xffff) as u16
    }
}

impl Width32BitPortion for isize {
    open spec fn portion_u32(self) -> u32 {
        self as u32
    }

    /// The packed word converted as the plain cast does: zero-extended
    /// where the type is wider, reinterpreted where it is the same width.
    open spec fn value_for_portion(word: u32) -> isize {
        word as isize
    }

    fn from_low_high_u16(low: u16, high: u16) -> (r: isize) {
        let word: u32 = (low as u32) | ((high as u32) << 16);
        proof {
            assert(word as isize as u32 == word) by (bit_vector);
        }
        #[verifier::truncate] (word as isize)
    }

    fn low_u16(self) -> (r: u16) {
        let word: u32 = #[verifier::truncate] (self as u32);
        proof {
            assert((word & 0xffff) as u16 == word as u16) by (bit_vector);
        }
        (word & 0xffff) as u16
    }

    fn high_u16(self) -> (r: u16) {
        let word: u32 = #[verifier::truncate] (self as u32);
        proof {
            assert(((word >> 16) & 0xffff) as u16 == (word >> 16) as u16) by (bit_vector);
        }
        ((word >> 16) & 0xffff) as u16
    }
}

} // verus!
