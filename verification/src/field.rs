use vstd::arithmetic::div_mod::lemma_mod_bound;
use vstd::arithmetic::div_mod::lemma_small_mod;
use vstd::arithmetic::power2::lemma2_to64;
use vstd::arithmetic::power2::lemma_pow2_pos;
use vstd::arithmetic::power2::pow2;
use vstd::bits::lemma_u32_low_bits_mask_is_mod;
use vstd::bits::lemma_u32_pow2_no_overflow;
use vstd::bits::lemma_u32_shl_is_mul;
use vstd::bits::lemma_u32_shr_is_div;
use vstd::bits::low_bits_mask;
use vstd::prelude::*;

verus! {

/// The mathematical model of a bit field: `width` bits whose least
/// significant one is bit `lsb` of the word.
pub ghost struct BitRange {
    pub width: nat,
    pub lsb: nat,
}

impl BitRange {
    /// A range is well formed when it is non-empty and fits in 32 bits.
    pub open spec fn wf(self) -> bool {
        0 < self.width && self.width + self.lsb <= 32
    }

    /// Whether bit number `bit` of the word belongs to the range.
    pub open spec fn covers(self, bit: nat) -> bool {
        self.lsb <= bit < self.lsb + self.width
    }

    /// Register A of a three-register instruction: bits 8 to 6.
    pub open spec fn ra() -> BitRange {
        BitRange { width: 3, lsb: 6 }
    }

    /// Register B of a three-register instruction: bits 5 to 3.
    pub open spec fn rb() -> BitRange {
        BitRange { width: 3, lsb: 3 }
    }

    /// Register C of a three-register instruction: bits 2 to 0.
    pub open spec fn rc() -> BitRange {
        BitRange { width: 3, lsb: 0 }
    }

    /// The target register of a load-value instruction: bits 27 to 25.
    pub open spec fn rl() -> BitRange {
        BitRange { width: 3, lsb: 25 }
    }

    /// The immediate of a load-value instruction: bits 24 to 0.
    pub open spec fn vl() -> BitRange {
        BitRange { width: 25, lsb: 0 }
    }

    /// The opcode: bits 31 to 28.
    pub open spec fn op() -> BitRange {
        BitRange { width: 4, lsb: 28 }
    }
}

/// A bit field of a 32-bit instruction word.
///
/// Every `Field` that executable code can hold is well formed: it is at least
/// one bit wide and lies wholly inside the word, so reading it never shifts
/// out of range.
#[derive(Clone, Copy, Debug)]
pub struct Field {
    width: u32,
    lsb: u32,
}

impl View for Field {
    type V = BitRange;

    closed spec fn view(&self) -> BitRange {
        BitRange { width: self.width as nat, lsb: self.lsb as nat }
    }
}

impl Field {
    #[verifier::type_invariant]
    closed spec fn inv(&self) -> bool {
        self@.wf()
    }

    /// Builds the field of `width` bits that starts at bit `lsb`.
    pub(crate) fn spanning(width: u32, lsb: u32) -> (f: Field)
        requires
            0 < width,
            width + lsb <= 32,
        ensures
            f@ == (BitRange { width: width as nat, lsb: lsb as nat }),
    {
        Field { width, lsb }
    }

    /// The number of bits the field spans.
    pub fn width(&self) -> (w: u32)
        ensures
            w == self@.width,
            self@.wf(),
    {
        proof {
            use_type_invariant(self);
        }
        self.width
    }

    /// The position of the field's least significant bit.
    pub fn lsb(&self) -> (l: u32)
        ensures
            l == self@.lsb,
            self@.wf(),
    {
        proof {
            use_type_invariant(self);
        }
        self.lsb
    }

    /// Register A of a three-register instruction.
    pub fn ra() -> (f: Field)
        ensures
            f@ == BitRange::ra(),
    {
        Field { width: 3, lsb: 6 }
    }

    /// Register B of a three-register instruction.
    pub fn rb() -> (f: Field)
        ensures
            f@ == BitRange::rb(),
    {
        Field { width: 3, lsb: 3 }
    }

    /// Register C of a three-register instruction.
    pub fn rc() -> (f: Field)
        ensures
            f@ == BitRange::rc(),
    {
        Field { width: 3, lsb: 0 }
    }

    /// The target register of a load-value instruction.
    pub fn rl() -> (f: Field)
        ensures
            f@ == BitRange::rl(),
    {
        Field { width: 3, lsb: 25 }
    }

    /// The immediate of a load-value instruction.
    pub fn vl() -> (f: Field)
        ensures
            f@ == BitRange::vl(),
    {
        Field { width: 25, lsb: 0 }
    }

    /// The opcode.
    pub fn op() -> (f: Field)
        ensures
            f@ == BitRange::op(),
    {
        Field { width: 4, lsb: 28 }
    }
}

/// The value of the bits of `word` that lie in `range`: the word with the
/// bits below the range dropped and the bits above it cut off.
pub open spec fn extract(range: BitRange, word: u32) -> nat {
    (word as nat / pow2(range.lsb)) % pow2(range.width)
}

/// The number whose binary form is `bits` ones, for at most 32 of them.
pub open spec fn ones(bits: nat) -> nat {
    low_bits_mask(if bits < 32 { bits } else { 32 })
}

/// An extracted value always fits in the width of its range.
pub proof fn lemma_extract_in_range(range: BitRange, word: u32)
    ensures
        extract(range, word) < pow2(range.width),
{
    lemma_pow2_pos(range.width);
    lemma_mod_bound((word as nat / pow2(range.lsb)) as int, pow2(range.width) as int);
}

/// Extraction is a right shift by the range's offset followed by a mask of
/// the range's width.
pub proof fn lemma_extract_is_shift_and_mask(range: BitRange, word: u32)
    requires
        range.wf(),
    ensures
        ones(range.width) <= u32::MAX,
        extract(range, word) == (word >> (range.lsb as u32)) & (ones(range.width) as u32),
{
    let shift = range.lsb as u32;
    let shifted = word >> shift;
    lemma2_to64();
    lemma_u32_shr_is_div(word, shift);
    if range.width < 32 {
        lemma_u32_pow2_no_overflow(range.width);
        lemma_u32_low_bits_mask_is_mod(shifted, range.width);
    } else {
        assert(shifted & 0xffff_ffffu32 == shifted) by (bit_vector);
        lemma_small_mod(shifted as nat, pow2(32));
    }
}

/// What the six standard fields read, in plain arithmetic on the word.
pub proof fn lemma_standard_fields(word: u32)
    ensures
        extract(BitRange::ra(), word) == (word / 64) % 8,
        extract(BitRange::rb(), word) == (word / 8) % 8,
        extract(BitRange::rc(), word) == word % 8,
        extract(BitRange::rl(), word) == (word / 0x200_0000) % 8,
        extract(BitRange::vl(), word) == word % 0x200_0000,
        extract(BitRange::op(), word) == word / 0x1000_0000,
{
    lemma2_to64();
    let w = word as nat;
    assert(w / pow2(0) == w);
    assert(w / pow2(3) == w / 8);
    assert(w / pow2(6) == w / 64);
    assert(w / pow2(25) == w / 0x200_0000);
    assert(w / pow2(28) == w / 0x1000_0000);
    assert((w / 0x1000_0000) % 16 == w / 0x1000_0000);
}

/// Registers A, B and C together are the low nine bits of the word, each
/// in its own place.
pub proof fn lemma_registers_join(word: u32)
    ensures
        word % 512 == 64 * extract(BitRange::ra(), word) + 8 * extract(BitRange::rb(), word)
            + extract(BitRange::rc(), word),
{
    lemma_standard_fields(word);
    assert(word % 512 == 64 * ((word / 64) % 8) + 8 * ((word / 8) % 8) + word % 8)
        by (bit_vector);
}

/// The three register fields of a three-register instruction tile the low
/// nine bits of the word: each of those bits lies in exactly one of them,
/// and no other bit lies in any.
pub proof fn lemma_registers_disjoint(bit: nat)
    ensures
        BitRange::ra().covers(bit) <==> 6 <= bit <= 8,
        BitRange::rb().covers(bit) <==> 3 <= bit <= 5,
        BitRange::rc().covers(bit) <==> bit <= 2,
        !(BitRange::ra().covers(bit) && BitRange::rb().covers(bit)),
        !(BitRange::ra().covers(bit) && BitRange::rc().covers(bit)),
        !(BitRange::rb().covers(bit) && BitRange::rc().covers(bit)),
{
}

/// A mask with the low `bits` bits set; a word has no more than 32 to set.
pub fn mask(bits: u32) -> (m: u32)
    ensures
        m == ones(bits as nat),
{
    proof {
        lemma2_to64();
    }
    if bits >= 32 {
        u32::MAX
    } else {
        proof {
            lemma_u32_pow2_no_overflow(bits as nat);
            lemma_u32_shl_is_mul(1, bits);
        }
        (1u32 << bits) - 1
    }
}

/// Reads bit field `field` out of `instruction`.
pub fn get(field: &Field, instruction: u32) -> (value: u32)
    ensures
        value == extract(field@, instruction),
        value < pow2(field@.width),
{
    proof {
        use_type_invariant(field);
        lemma_extract_is_shift_and_mask(field@, instruction);
        lemma_extract_in_range(field@, instruction);
    }
    (instruction >> field.lsb) & mask(field.width)
}

} // verus!
