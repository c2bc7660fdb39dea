use crate::consts::{Byte, Word};
use crate::cpu::addressing::address::Address;
use crate::cpu::addressing::AddressingMode;
use crate::cpu::debugger::text::{
    dec_text, hex_text, pad2, push_dec, push_hex, push_hex2, push_signed, signed_text,
};
use vstd::prelude::*;
use vstd::string::StringExecFns;

verus! {

/// What the debugger remembers of one executed instruction.
pub struct DebugInstructionInfo {
    pub addr: Word,
    pub addr_symbol: Option<String>,
    pub opcode: Byte,
    pub name: &'static str,
    pub starting_cycle: usize,
    pub target_addr: Option<Address>,
    pub target_val: Option<Byte>,
    pub target_symbol: Option<String>,
}

/// The signed value of the low byte of a word (two's complement).
pub open spec fn low_byte_signed(w: Word) -> int {
    let lo = w % 256;
    if lo >= 128 {
        lo - 256
    } else {
        lo as int
    }
}

/// An operand written after the mnemonic: `text` when the word is known, `?` otherwise.
pub open spec fn operand_or_unknown(w: Option<Word>, prefix: Seq<char>, suffix: Seq<char>) -> Seq<
    char,
> {
    match w {
        Some(v) => prefix + hex_text(v as nat) + suffix,
        None => seq!['?'],
    }
}

/// How the operand of an instruction is shown, after the mnemonic and a space;
/// `None` when nothing follows the mnemonic.
pub open spec fn operand_text(
    target_addr: Option<Address>,
    target_val: Option<Byte>,
    target_symbol: Option<Seq<char>>,
) -> Option<Seq<char>> {
    match target_symbol {
        Some(sym) => Some(sym),
        None => match target_addr {
            None => Some(seq!['?']),
            Some(ta) => match ta.mode {
                None => Some(seq!['?']),
                Some(mode) => match mode {
                    AddressingMode::Implicit => None,
                    AddressingMode::Immediate => Some(
                        match target_val {
                            Some(v) => seq!['#'] + dec_text(v as nat),
                            None => seq!['?'],
                        },
                    ),
                    AddressingMode::Relative => Some(
                        match ta.indirect {
                            Some(v) => seq!['*'] + signed_text(low_byte_signed(v)),
                            None => seq!['?'],
                        },
                    ),
                    AddressingMode::Indirect => Some(
                        operand_or_unknown(ta.indirect, seq!['(', '$'], seq![')']),
                    ),
                    AddressingMode::ZeroPage => Some(
                        operand_or_unknown(ta.val, seq!['$'], Seq::empty()),
                    ),
                    AddressingMode::ZeroPageX => Some(
                        operand_or_unknown(ta.val, seq!['$'], seq![',', 'X']),
                    ),
                    AddressingMode::ZeroPageY => Some(
                        operand_or_unknown(ta.val, seq!['$'], seq![',', 'Y']),
                    ),
                    AddressingMode::Absolute => Some(
                        operand_or_unknown(ta.val, seq!['$'], Seq::empty()),
                    ),
                    AddressingMode::AbsoluteX => Some(
                        operand_or_unknown(ta.indirect, seq!['$'], seq![',', 'X']),
                    ),
                    AddressingMode::AbsoluteY => Some(
                        operand_or_unknown(ta.indirect, seq!['$'], seq![',', 'Y']),
                    ),
                    AddressingMode::IndexIndirectX => Some(
                        operand_or_unknown(ta.indirect, seq!['(', '$'], seq![',', 'X', ')']),
                    ),
                    AddressingMode::IndirectIndexY => Some(
                        operand_or_unknown(ta.indirect, seq!['(', '$'], seq![')', ',', 'Y']),
                    ),
                    AddressingMode::Accumulator => Some(seq!['A']),
                },
            },
        },
    }
}

/// An optional text by its characters.
pub open spec fn opt_text(s: Option<String>) -> Option<Seq<char>> {
    match s {
        Some(t) => Some(t@),
        None => None,
    }
}

/// The address of an instruction as `0x` and at least two upper-case hex digits.
pub open spec fn addr_text(addr: Word) -> Seq<char> {
    seq!['0', 'x'] + pad2(hex_text(addr as nat))
}

impl DebugInstructionInfo {
    /// Where the instruction was fetched: its symbol, or its address.
    pub open spec fn location_text(&self) -> Seq<char> {
        match self.addr_symbol {
            Some(sym) => sym@,
            None => addr_text(self.addr),
        }
    }

    /// `<cycle>@<address or symbol>: <mnemonic>`, then a space and the operand if there is one.
    pub open spec fn text(&self) -> Seq<char> {
        let head = dec_text(self.starting_cycle as nat) + seq!['@'] + self.location_text() + seq![
            ':',
            ' ',
        ] + self.name@;
        match operand_text(self.target_addr, self.target_val, opt_text(self.target_symbol)) {
            Some(op) => head + seq![' '] + op,
            None => head,
        }
    }

    /// The instruction as one line of text, e.g. `3@0x21: LDA $5955` or `3@0x21: BMI *-3`.
    pub fn to_string(&self) -> (r: String)
        ensures
            r@ == self.text(),
    {
        let mut s = String::new();
        proof {
            reveal_strlit("@");
            reveal_strlit("0x");
            reveal_strlit(": ");
            reveal_strlit(" ");
        }
        push_dec(&mut s, self.starting_cycle as u64);
        s.append("@");
        match &self.addr_symbol {
            Some(sym) => s.append(sym.as_str()),
            None => {
                s.append("0x");
                push_hex2(&mut s, self.addr as u64);
            },
        }
        s.append(": ");
        s.append(self.name);
        let ghost head = s@;
        proof {
            assert(head =~= dec_text(self.starting_cycle as nat) + seq!['@'] + self.location_text() + seq![
                ':',
                ' ',
            ] + self.name@);
        }
        let has_operand = match &self.target_symbol {
            Some(_) => true,
            None => match self.target_addr {
                None => true,
                Some(ta) => match ta.mode {
                    Some(AddressingMode::Implicit) => false,
                    _ => true,
                },
            },
        };
        if has_operand {
            s.append(" ");
            push_operand(&mut s, self.target_addr, self.target_val, &self.target_symbol);
        }
        proof {
            match operand_text(self.target_addr, self.target_val, opt_text(self.target_symbol)) {
                Some(op) => {
                    assert(s@ =~= head + seq![' '] + op);
                },
                None => {},
            }
        }
        s
    }
}

/// Appends the operand of an instruction (nothing for implicit addressing).
fn push_operand(
    s: &mut String,
    target_addr: Option<Address>,
    target_val: Option<Byte>,
    target_symbol: &Option<String>,
)
    ensures
        final(s)@ == old(s)@ + match operand_text(target_addr, target_val, opt_text(*target_symbol)) {
            Some(op) => op,
            None => Seq::empty(),
        },
{
    proof {
        reveal_strlit("?");
        reveal_strlit("#");
        reveal_strlit("*");
        reveal_strlit("A");
        reveal_strlit("($");
        reveal_strlit(")");
        reveal_strlit("$");
        reveal_strlit("");
        reveal_strlit(",X");
        reveal_strlit(",Y");
        reveal_strlit(",X)");
        reveal_strlit("),Y");
    }
    match target_symbol {
        Some(sym) => {
            s.append(sym.as_str());
            return ;
        },
        None => {},
    }
    let ta = match target_addr {
        None => {
            s.append("?");
            return ;
        },
        Some(ta) => ta,
    };
    let mode = match ta.mode {
        None => {
            s.append("?");
            return ;
        },
        Some(mode) => mode,
    };
    match mode {
        AddressingMode::Implicit => {
            proof {
                assert(s@ =~= old(s)@ + Seq::<char>::empty());
            }
        },
        AddressingMode::Immediate => match target_val {
            Some(v) => {
                s.append("#");
                push_dec(s, v as u64);
            },
            None => s.append("?"),
        },
        AddressingMode::Relative => match ta.indirect {
            Some(v) => {
                s.append("*");
                let lo = (v % 256) as u8;
                let signed: i8 = if lo >= 128 {
                    (lo as i16 - 256) as i8
                } else {
                    lo as i8
                };
                push_signed(s, signed);
            },
            None => s.append("?"),
        },
        AddressingMode::Indirect => push_word_operand(s, ta.indirect, "($", ")"),
        AddressingMode::ZeroPage => push_word_operand(s, ta.val, "$", ""),
        AddressingMode::ZeroPageX => push_word_operand(s, ta.val, "$", ",X"),
        AddressingMode::ZeroPageY => push_word_operand(s, ta.val, "$", ",Y"),
        AddressingMode::Absolute => push_word_operand(s, ta.val, "$", ""),
        AddressingMode::AbsoluteX => push_word_operand(s, ta.indirect, "$", ",X"),
        AddressingMode::AbsoluteY => push_word_operand(s, ta.indirect, "$", ",Y"),
        AddressingMode::IndexIndirectX => push_word_operand(s, ta.indirect, "($", ",X)"),
        AddressingMode::IndirectIndexY => push_word_operand(s, ta.indirect, "($", "),Y"),
        AddressingMode::Accumulator => s.append("A"),
    }
    proof {
        assert(s@ =~= old(s)@ + match operand_text(
            target_addr,
            target_val,
            opt_text(*target_symbol),
        ) {
            Some(op) => op,
            None => Seq::empty(),
        });
    }
}

/// Appends `prefix`, the word in hexadecimal and `suffix`, or `?` when the word is unknown.
fn push_word_operand(s: &mut String, w: Option<Word>, prefix: &str, suffix: &str)
    ensures
        final(s)@ == old(s)@ + operand_or_unknown(w, prefix@, suffix@),
{
    match w {
        Some(v) => {
            s.append(prefix);
            push_hex(s, v as u64);
            s.append(suffix);
            proof {
                assert(s@ =~= old(s)@ + operand_or_unknown(w, prefix@, suffix@));
            }
        },
        None => {
            proof {
                reveal_strlit("?");
            }
            s.append("?");
        },
    }
}

} // verus!
