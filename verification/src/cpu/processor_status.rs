use crate::consts::Byte;
use vstd::prelude::*;
use vstd::string::StringExecFns;
use vstd::std_specs::cmp::PartialEqSpecImpl;
use vstd::std_specs::convert::FromSpecImpl;

verus! {

/// The seven status flags of the processor.
#[derive(Clone, Copy, Debug, PartialEq, Eq, Structural)]
pub enum Flags {
    Carry,
    Zero,
    InterruptDisable,
    DecimalMode,
    Break,
    Overflow,
    Negative,
}

/// Bit position of a flag in the status register.
pub open spec fn flag_bit(flag: Flags) -> u8 {
    match flag {
        Flags::Carry => 0,
        Flags::Zero => 1,
        Flags::InterruptDisable => 2,
        Flags::DecimalMode => 3,
        Flags::Break => 4,
        Flags::Overflow => 6,
        Flags::Negative => 7,
    }
}

/// Whether bit `i` of `x` is one.
pub open spec fn bit_set(x: u8, i: u8) -> bool {
    x & (1u8 << i) != 0
}

/// Bit position of the unused status bit, which reads as one on reset.
pub const UNUSED_BIT: u8 = 5;

/// The processor status register.
#[derive(Debug, Clone, Copy)]
pub struct ProcessorStatus {
    pub flags: Byte,
}

impl View for ProcessorStatus {
    type V = Byte;

    open spec fn view(&self) -> Byte {
        self.flags
    }
}

impl PartialEq for ProcessorStatus {
    fn eq(&self, other: &Self) -> (r: bool) {
        self.flags == other.flags
    }
}

impl PartialEqSpecImpl for ProcessorStatus {
    open spec fn obeys_eq_spec() -> bool {
        true
    }

    open spec fn eq_spec(&self, other: &ProcessorStatus) -> bool {
        self.flags == other.flags
    }
}

impl Eq for ProcessorStatus {
}

impl PartialEq<Byte> for ProcessorStatus {
    fn eq(&self, other: &Byte) -> (r: bool) {
        self.flags == *other
    }
}

impl PartialEqSpecImpl<Byte> for ProcessorStatus {
    open spec fn obeys_eq_spec() -> bool {
        true
    }

    open spec fn eq_spec(&self, other: &Byte) -> bool {
        self.flags == *other
    }
}

impl From<Byte> for ProcessorStatus {
    fn from(value: Byte) -> (r: Self) {
        ProcessorStatus { flags: value }
    }
}

impl FromSpecImpl<Byte> for ProcessorStatus {
    open spec fn obeys_from_spec() -> bool {
        true
    }

    open spec fn from_spec(v: Byte) -> ProcessorStatus {
        ProcessorStatus { flags: v }
    }
}

impl From<ProcessorStatus> for Byte {
    fn from(val: ProcessorStatus) -> (r: Self) {
        val.flags
    }
}

impl FromSpecImpl<ProcessorStatus> for Byte {
    open spec fn obeys_from_spec() -> bool {
        true
    }

    open spec fn from_spec(v: ProcessorStatus) -> Byte {
        v.flags
    }
}

/// Setting a bit makes it one; clearing makes it zero; the other bits keep their value.
pub proof fn lemma_bit_update(x: u8, a: u8)
    requires
        a < 8,
    ensures
        bit_set(x | (1u8 << a), a),
        !bit_set(x & !(1u8 << a), a),
        forall|b: u8| b < 8 && b != a ==> bit_set(x | (1u8 << a), b) == bit_set(x, b),
        forall|b: u8| b < 8 && b != a ==> bit_set(x & !(1u8 << a), b) == bit_set(x, b),
{
    assert(bit_set(x | (1u8 << a), a)) by (bit_vector)
        requires
            a < 8,
    ;
    assert(!bit_set(x & !(1u8 << a), a)) by (bit_vector)
        requires
            a < 8,
    ;
    assert(forall|b: u8| b < 8 && b != a ==> bit_set(x | (1u8 << a), b) == bit_set(x, b))
        by (bit_vector)
        requires
            a < 8,
    ;
    assert(forall|b: u8| b < 8 && b != a ==> bit_set(x & !(1u8 << a), b) == bit_set(x, b))
        by (bit_vector)
        requires
            a < 8,
    ;
}

/// Two bytes that agree on every bit are equal.
pub proof fn lemma_bits_determine(x: u8, y: u8)
    requires
        forall|b: u8| b < 8 ==> bit_set(x, b) == bit_set(y, b),
    ensures
        x == y,
{
    assert(bit_set(x, 0) == bit_set(y, 0));
    assert(bit_set(x, 1) == bit_set(y, 1));
    assert(bit_set(x, 2) == bit_set(y, 2));
    assert(bit_set(x, 3) == bit_set(y, 3));
    assert(bit_set(x, 4) == bit_set(y, 4));
    assert(bit_set(x, 5) == bit_set(y, 5));
    assert(bit_set(x, 6) == bit_set(y, 6));
    assert(bit_set(x, 7) == bit_set(y, 7));
    assert(x == y) by (bit_vector)
        requires
            bit_set(x, 0) == bit_set(y, 0),
            bit_set(x, 1) == bit_set(y, 1),
            bit_set(x, 2) == bit_set(y, 2),
            bit_set(x, 3) == bit_set(y, 3),
            bit_set(x, 4) == bit_set(y, 4),
            bit_set(x, 5) == bit_set(y, 5),
            bit_set(x, 6) == bit_set(y, 6),
            bit_set(x, 7) == bit_set(y, 7),
    ;
}

/// A changed flag reads back as set, and the other flags keep their values.
pub proof fn lemma_flag_read_back(ps: ProcessorStatus, f: Flags, g: Flags, v: bool)
    ensures
        ps.with_flag(f, v).flag(f) == v,
        f != g ==> ps.with_flag(f, v).flag(g) == ps.flag(g),
{
    lemma_bit_update(ps.flags, flag_bit(f));
}

/// Setting a flag to the value it already has leaves the status as it is.
pub proof fn lemma_flag_unchanged(ps: ProcessorStatus, f: Flags)
    ensures
        ps.with_flag(f, ps.flag(f)) == ps,
{
    let after = ps.with_flag(f, ps.flag(f));
    lemma_bit_update(ps.flags, flag_bit(f));
    assert forall|b: u8| b < 8 implies bit_set(after.flags, b) == bit_set(ps.flags, b) by {}
    lemma_bits_determine(after.flags, ps.flags);
}

/// Changes of two different flags do not interfere: their order does not matter.
pub proof fn lemma_flags_commute(ps: ProcessorStatus, f: Flags, g: Flags, v: bool, w: bool)
    requires
        f != g,
    ensures
        ps.with_flag(f, v).with_flag(g, w) == ps.with_flag(g, w).with_flag(f, v),
{
    let x = ps.with_flag(f, v);
    let y = ps.with_flag(g, w);
    lemma_bit_update(ps.flags, flag_bit(f));
    lemma_bit_update(ps.flags, flag_bit(g));
    lemma_bit_update(x.flags, flag_bit(g));
    lemma_bit_update(y.flags, flag_bit(f));
    let a = x.with_flag(g, w).flags;
    let b = y.with_flag(f, v).flags;
    assert(flag_bit(f) != flag_bit(g));
    assert forall|i: u8| i < 8 implies bit_set(a, i) == bit_set(b, i) by {
        if i == flag_bit(f) {
            assert(bit_set(x.flags, i) == v);
            assert(bit_set(a, i) == bit_set(x.flags, i));
            assert(bit_set(b, i) == v);
        } else if i == flag_bit(g) {
            assert(bit_set(y.flags, i) == w);
            assert(bit_set(b, i) == bit_set(y.flags, i));
            assert(bit_set(a, i) == w);
        } else {
            assert(bit_set(a, i) == bit_set(x.flags, i));
            assert(bit_set(x.flags, i) == bit_set(ps.flags, i));
            assert(bit_set(b, i) == bit_set(y.flags, i));
            assert(bit_set(y.flags, i) == bit_set(ps.flags, i));
        }
    }
    lemma_bits_determine(a, b);
}

impl ProcessorStatus {
    /// Value of `flag` in this status.
    pub open spec fn flag(self, flag: Flags) -> bool {
        bit_set(self.flags, flag_bit(flag))
    }

    /// This status with `flag` changed to `value` and every other bit kept.
    pub open spec fn with_flag(self, flag: Flags, value: bool) -> ProcessorStatus {
        ProcessorStatus {
            flags: if value {
                self.flags | (1u8 << flag_bit(flag))
            } else {
                self.flags & !(1u8 << flag_bit(flag))
            },
        }
    }

    /// A status holding exactly the given byte.
    pub open spec fn from_byte(b: Byte) -> ProcessorStatus {
        ProcessorStatus { flags: b }
    }

    /// The status a freshly reset register holds: only the unused bit is one.
    pub fn default() -> (r: Self)
        ensures
            r@ == 0b0010_0000,
    {
        ProcessorStatus { flags: 0b0010_0000 }
    }

    /// A status holding exactly `value`.
    pub fn from_byte_value(value: Byte) -> (r: Self)
        ensures
            r@ == value,
    {
        ProcessorStatus { flags: value }
    }

    /// The raw byte of this status.
    pub fn to_byte(&self) -> (r: Byte)
        ensures
            r == self@,
    {
        self.flags
    }

    pub fn change_break_flag(&mut self, value_set: bool)
        ensures
            *final(self) == old(self).with_flag(Flags::Break, value_set),
    {
        self.change_flag(Flags::Break, value_set);
    }

    pub fn get_break_flag(&self) -> (r: bool)
        ensures
            r == self.flag(Flags::Break),
    {
        self.get_flag(Flags::Break)
    }

    pub fn change_carry_flag(&mut self, value_set: bool)
        ensures
            *final(self) == old(self).with_flag(Flags::Carry, value_set),
    {
        self.change_flag(Flags::Carry, value_set);
    }

    pub fn get_carry_flag(&self) -> (r: bool)
        ensures
            r == self.flag(Flags::Carry),
    {
        self.get_flag(Flags::Carry)
    }

    pub fn change_decimal_mode_flag(&mut self, value_set: bool)
        ensures
            *final(self) == old(self).with_flag(Flags::DecimalMode, value_set),
    {
        self.change_flag(Flags::DecimalMode, value_set);
    }

    pub fn get_decimal_mode_flag(&self) -> (r: bool)
        ensures
            r == self.flag(Flags::DecimalMode),
    {
        self.get_flag(Flags::DecimalMode)
    }

    pub fn change_interrupt_disable_flag(&mut self, value_set: bool)
        ensures
            *final(self) == old(self).with_flag(Flags::InterruptDisable, value_set),
    {
        self.change_flag(Flags::InterruptDisable, value_set);
    }

    pub fn get_interrupt_disable_flag(&self) -> (r: bool)
        ensures
            r == self.flag(Flags::InterruptDisable),
    {
        self.get_flag(Flags::InterruptDisable)
    }

    pub fn change_overflow_flag(&mut self, value_set: bool)
        ensures
            *final(self) == old(self).with_flag(Flags::Overflow, value_set),
    {
        self.change_flag(Flags::Overflow, value_set);
    }

    pub fn get_overflow_flag(&self) -> (r: bool)
        ensures
            r == self.flag(Flags::Overflow),
    {
        self.get_flag(Flags::Overflow)
    }

    pub fn change_negative_flag(&mut self, value_set: bool)
        ensures
            *final(self) == old(self).with_flag(Flags::Negative, value_set),
    {
        self.change_flag(Flags::Negative, value_set);
    }

    pub fn get_negative_flag(&self) -> (r: bool)
        ensures
            r == self.flag(Flags::Negative),
    {
        self.get_flag(Flags::Negative)
    }

    /// Loads `val` into the register; the unused bit always reads as one.
    pub fn set(&mut self, val: Byte)
        ensures
            final(self)@ == val | 0b0010_0000,
    {
        self.flags = val | 0b0010_0000;
    }

    pub fn change_zero_flag(&mut self, value_set: bool)
        ensures
            *final(self) == old(self).with_flag(Flags::Zero, value_set),
    {
        self.change_flag(Flags::Zero, value_set);
    }

    pub fn get_zero_flag(&self) -> (r: bool)
        ensures
            r == self.flag(Flags::Zero),
    {
        self.get_flag(Flags::Zero)
    }

    /// Changes one flag; every other bit of the register keeps its value.
    pub fn change_flag(&mut self, flag: Flags, value_set: bool)
        ensures
            *final(self) == old(self).with_flag(flag, value_set),
            final(self).flag(flag) == value_set,
            forall|other: Flags| other != flag ==> final(self).flag(other) == old(self).flag(other),
            bit_set(final(self)@, UNUSED_BIT) == bit_set(old(self)@, UNUSED_BIT),
    {
        let shift = flag_shift(flag);
        if value_set {
            self.flags = self.flags | (1u8 << shift);
        } else {
            self.flags = self.flags & !(1u8 << shift);
        }
        proof {
            lemma_bit_update(old(self).flags, shift);
            assert forall|other: Flags| other != flag implies final(self).flag(other) == old(
                self,
            ).flag(other) by {
                assert(flag_bit(other) != flag_bit(flag));
            }
        }
    }

    /// Reads one flag.
    pub fn get_flag(&self, flag: Flags) -> (r: bool)
        ensures
            r == self.flag(flag),
    {
        let shift = flag_shift(flag);
        (self.flags & (1u8 << shift)) != 0
    }

    /// Every flag by name, as one line of text.
    pub open spec fn text(self) -> Seq<char> {
        labelled("Carry: ", self.flag(Flags::Carry)) + labelled(
            "; Zero: ",
            self.flag(Flags::Zero),
        ) + labelled(", IntDisable: ", self.flag(Flags::InterruptDisable)) + labelled(
            ", Decimal: ",
            self.flag(Flags::DecimalMode),
        ) + labelled(", Break: ", self.flag(Flags::Break)) + labelled(
            "; Overflow: ",
            self.flag(Flags::Overflow),
        ) + labelled("; Negative: ", self.flag(Flags::Negative))
    }

    /// The flags as text: `Carry: true; Zero: false, IntDisable: ...; Negative: false`.
    pub fn to_string(&self) -> (r: String)
        ensures
            r@ == self.text(),
    {
        let mut s = String::new();
        push_labelled(&mut s, "Carry: ", self.get_flag(Flags::Carry));
        push_labelled(&mut s, "; Zero: ", self.get_flag(Flags::Zero));
        push_labelled(&mut s, ", IntDisable: ", self.get_flag(Flags::InterruptDisable));
        push_labelled(&mut s, ", Decimal: ", self.get_flag(Flags::DecimalMode));
        push_labelled(&mut s, ", Break: ", self.get_flag(Flags::Break));
        push_labelled(&mut s, "; Overflow: ", self.get_flag(Flags::Overflow));
        push_labelled(&mut s, "; Negative: ", self.get_flag(Flags::Negative));
        proof {
            assert(s@ =~= self.text());
        }
        s
    }
}

/// A label followed by `true` or `false`.
pub open spec fn labelled(label: &str, b: bool) -> Seq<char> {
    label@ + bool_text(b)
}

/// Appends a label and `true` or `false`.
fn push_labelled(s: &mut String, label: &str, b: bool)
    ensures
        final(s)@ == old(s)@ + labelled(label, b),
{
    s.append(label);
    push_bool(s, b);
    proof {
        assert(s@ =~= old(s)@ + labelled(label, b));
    }
}

/// `true` or `false`.
pub open spec fn bool_text(b: bool) -> Seq<char> {
    if b {
        seq!['t', 'r', 'u', 'e']
    } else {
        seq!['f', 'a', 'l', 's', 'e']
    }
}

/// Appends `true` or `false`.
fn push_bool(s: &mut String, b: bool)
    ensures
        final(s)@ == old(s)@ + bool_text(b),
{
    proof {
        reveal_strlit("true");
        reveal_strlit("false");
    }
    if b {
        s.append("true");
    } else {
        s.append("false");
    }
}

/// Bit position of a flag in the status register.
fn flag_shift(flag: Flags) -> (r: u8)
    ensures
        r == flag_bit(flag),
        r < 8,
{
    match flag {
        Flags::Carry => 0,
        Flags::Zero => 1,
        Flags::InterruptDisable => 2,
        Flags::DecimalMode => 3,
        Flags::Break => 4,
        Flags::Overflow => 6,
        Flags::Negative => 7,
    }
}

} // verus!
