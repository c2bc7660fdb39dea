use vstd::prelude::*;

verus! {

/// An 8-bit machine value.
pub type Byte = u8;

/// A 16-bit machine value (addresses, program counter).
pub type Word = u16;

/// Location of the little-endian address the processor jumps to on reset.
pub const RESET_VECTOR: Word = 0xFFFC;

/// Location of the little-endian address the processor jumps to on `BRK`.
pub const BRK_INTERRUPT_VECTOR: Word = 0xFFFE;

/// High byte of every stack address: the stack lives in page one.
pub const STACK_PAGE_HI: Word = 0x0100;

/// How many executed instructions the debugger remembers.
pub const DEFAULT_INSTRUCTION_HISTORY_CAPACITY: usize = 32;

/// The word whose low byte is `lo` and high byte is `hi`.
pub open spec fn spec_word(lo: u8, hi: u8) -> u16 {
    (hi as int * 256 + lo as int) as u16
}

/// Low byte of a word.
pub open spec fn spec_lo(w: u16) -> u8 {
    (w % 256) as u8
}

/// High byte of a word.
pub open spec fn spec_hi(w: u16) -> u8 {
    (w / 256) as u8
}

/// Builds a word from its little-endian bytes.
pub fn word_from_le_bytes(lo: u8, hi: u8) -> (r: u16)
    ensures
        r == spec_word(lo, hi),
        spec_lo(r) == lo,
        spec_hi(r) == hi,
{
    (hi as u16) * 256 + (lo as u16)
}

/// Low byte of a word.
pub fn word_lo(w: u16) -> (r: u8)
    ensures
        r == spec_lo(w),
{
    (w % 256) as u8
}

/// High byte of a word.
pub fn word_hi(w: u16) -> (r: u8)
    ensures
        r == spec_hi(w),
{
    (w / 256) as u8
}

/// A word is determined by its two bytes.
pub proof fn lemma_word_bytes(w: u16)
    ensures
        spec_word(spec_lo(w), spec_hi(w)) == w,
{
}

/// The bytes of a word built from two bytes are those bytes.
pub proof fn lemma_word_parts(lo: u8, hi: u8)
    ensures
        spec_lo(spec_word(lo, hi)) == lo,
        spec_hi(spec_word(lo, hi)) == hi,
{
}

} // verus!
