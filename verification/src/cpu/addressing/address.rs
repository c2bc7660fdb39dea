use crate::consts::{spec_hi, spec_lo, spec_word, word_from_le_bytes, word_hi, word_lo, Byte, Word};
use crate::cpu::addressing::AddressingMode;
use vstd::prelude::*;

verus! {

/// The address an instruction works on, as it is being computed cycle by cycle.
///
/// `indirect` holds the operand or pointer read from the instruction stream,
/// `val` the effective address; `done` tells that addressing has finished.
#[derive(Debug, Clone, Copy)]
pub struct Address {
    pub indirect: Option<Word>,
    pub val: Option<Word>,
    pub mode: Option<AddressingMode>,
    pub done: bool,
}

/// High byte of an optional word, zero when there is none.
pub open spec fn hi_or_zero(w: Option<Word>) -> Byte {
    match w {
        Some(v) => spec_hi(v),
        None => 0,
    }
}

/// Low byte of an optional word, zero when there is none.
pub open spec fn lo_or_zero(w: Option<Word>) -> Byte {
    match w {
        Some(v) => spec_lo(v),
        None => 0,
    }
}

impl Address {
    /// This address with effective address `v`.
    pub open spec fn with_val(self, v: Word) -> Address {
        Address { val: Some(v), ..self }
    }

    /// This address with the low byte of the effective address replaced.
    pub open spec fn with_lo(self, lo: Byte) -> Address {
        self.with_val(spec_word(lo, hi_or_zero(self.val)))
    }

    /// This address with the high byte of the effective address replaced.
    pub open spec fn with_hi(self, hi: Byte) -> Address {
        self.with_val(spec_word(lo_or_zero(self.val), hi))
    }

    /// This address with the low byte of the indirect word replaced.
    pub open spec fn with_indirect_lo(self, lo: Byte) -> Address {
        Address { indirect: Some(spec_word(lo, hi_or_zero(self.indirect))), ..self }
    }

    /// This address with the high byte of the indirect word replaced.
    pub open spec fn with_indirect_hi(self, hi: Byte) -> Address {
        Address { indirect: Some(spec_word(lo_or_zero(self.indirect), hi)), ..self }
    }

    /// An empty address of the given mode, still being computed.
    pub open spec fn cleared(mode: AddressingMode, done: bool) -> Address {
        Address { indirect: None, val: None, mode: Some(mode), done }
    }

    /// This address marked as fully computed.
    pub open spec fn finished(self) -> Address {
        Address { done: true, ..self }
    }

    /// An address with nothing computed and no mode.
    pub open spec fn new_spec() -> Address {
        Address { indirect: None, val: None, mode: None, done: false }
    }

    /// An address with nothing computed and no mode.
    pub fn new() -> (r: Self)
        ensures
            r == Address::new_spec(),
    {
        Address { indirect: None, val: None, mode: None, done: false }
    }

    /// The effective address, if computed.
    pub fn value(&self) -> (r: Option<Word>)
        ensures
            r == self.val,
    {
        self.val
    }

    /// The indirect word, if read.
    pub fn indirect(&self) -> (r: Option<Word>)
        ensures
            r == self.indirect,
    {
        self.indirect
    }

    /// Sets the effective address.
    pub fn set(&mut self, val: Word)
        ensures
            *final(self) == old(self).with_val(val),
    {
        self.val = Some(val);
    }

    /// Replaces the low byte of the indirect word; its high byte is kept, or zero.
    pub fn set_indirect_lo(&mut self, lo: Byte)
        ensures
            *final(self) == old(self).with_indirect_lo(lo),
            final(self).indirect matches Some(w) && spec_lo(w) == lo && spec_hi(w) == hi_or_zero(
                old(self).indirect,
            ),
    {
        let hi: Byte = match self.indirect {
            Some(val) => word_hi(val),
            None => 0,
        };
        self.indirect = Some(word_from_le_bytes(lo, hi));
    }

    /// Replaces the high byte of the indirect word; its low byte is kept, or zero.
    pub fn set_indirect_hi(&mut self, hi: Byte)
        ensures
            *final(self) == old(self).with_indirect_hi(hi),
            final(self).indirect matches Some(w) && spec_hi(w) == hi && spec_lo(w) == lo_or_zero(
                old(self).indirect,
            ),
    {
        let lo: Byte = match self.indirect {
            Some(val) => word_lo(val),
            None => 0,
        };
        self.indirect = Some(word_from_le_bytes(lo, hi));
    }

    /// Replaces the low byte of the effective address; its high byte is kept, or zero.
    pub fn set_lo(&mut self, lo: Byte)
        ensures
            *final(self) == old(self).with_lo(lo),
            final(self).val matches Some(w) && spec_lo(w) == lo && spec_hi(w) == hi_or_zero(
                old(self).val,
            ),
    {
        let hi: Byte = match self.val {
            Some(val) => word_hi(val),
            None => 0,
        };
        self.val = Some(word_from_le_bytes(lo, hi));
    }

    /// Replaces the high byte of the effective address; its low byte is kept, or zero.
    pub fn set_hi(&mut self, hi: Byte)
        ensures
            *final(self) == old(self).with_hi(hi),
            final(self).val matches Some(w) && spec_hi(w) == hi && spec_lo(w) == lo_or_zero(
                old(self).val,
            ),
    {
        let lo: Byte = match self.val {
            Some(val) => word_lo(val),
            None => 0,
        };
        self.val = Some(word_from_le_bytes(lo, hi));
    }

    /// Starts computing an address of the given mode.
    pub fn reset(&mut self, mode: AddressingMode)
        ensures
            *final(self) == Address::cleared(mode, false),
    {
        self.indirect = None;
        self.val = None;
        self.mode = Some(mode);
        self.done = false;
    }

    /// Marks the instruction as one without an operand address.
    pub fn reset_implicit(&mut self)
        ensures
            *final(self) == Address::cleared(AddressingMode::Implicit, true),
    {
        self.indirect = None;
        self.val = None;
        self.mode = Some(AddressingMode::Implicit);
        self.done = true;
    }

    /// Marks the instruction as one working on the accumulator.
    pub fn reset_acc(&mut self)
        ensures
            *final(self) == Address::cleared(AddressingMode::Accumulator, true),
    {
        self.indirect = None;
        self.val = None;
        self.mode = Some(AddressingMode::Accumulator);
        self.done = true;
    }
}

/// Writing the low and then the high byte of a fresh address yields the word they form.
pub proof fn lemma_set_lo_then_hi(a: Address, lo: Byte, hi: Byte)
    requires
        a.val is None,
    ensures
        a.with_lo(lo).with_hi(hi).val == Some(spec_word(lo, hi)),
{
}

/// Writing one byte of the effective address keeps the other byte.
pub proof fn lemma_set_byte_keeps_other(a: Address, b: Byte)
    requires
        a.val is Some,
    ensures
        spec_hi(a.with_lo(b).val->0) == spec_hi(a.val->0),
        spec_lo(a.with_lo(b).val->0) == b,
        spec_lo(a.with_hi(b).val->0) == spec_lo(a.val->0),
        spec_hi(a.with_hi(b).val->0) == b,
{
}

} // verus!
