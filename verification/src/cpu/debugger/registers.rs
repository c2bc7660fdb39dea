use crate::consts::Byte;
use crate::cpu::debugger::text::{dec_text, hex_text, pad2, push_dec, push_hex2};
use vstd::prelude::*;
use vstd::string::StringExecFns;

verus! {

/// The three data registers of the processor, as the debugger reports them.
#[derive(Clone, Copy, Debug, PartialEq, Eq, Structural)]
pub struct Registers {
    pub a: Byte,
    pub x: Byte,
    pub y: Byte,
}

/// One register shown as `decimal / $HEX` (hexadecimal at least two digits wide).
pub open spec fn register_text(v: Byte) -> Seq<char> {
    dec_text(v as nat) + seq![' ', '/', ' ', '$'] + pad2(hex_text(v as nat))
}

impl Registers {
    /// The line `A: <a>; X: <x>; Y: <y>` followed by a line break.
    pub open spec fn text(&self) -> Seq<char> {
        seq!['A', ':', ' '] + register_text(self.a) + seq![';', ' ', 'X', ':', ' '] + register_text(
            self.x,
        ) + seq![';', ' ', 'Y', ':', ' '] + register_text(self.y) + seq!['\n']
    }

    /// The registers as one line of text: `A: 89 / $59; X: 253 / $FD; Y: 160 / $A0`.
    pub fn to_string(&self) -> (r: String)
        ensures
            r@ == self.text(),
    {
        let mut s = String::new();
        proof {
            reveal_strlit("A: ");
            reveal_strlit("; X: ");
            reveal_strlit("; Y: ");
            reveal_strlit("\n");
        }
        s.append("A: ");
        push_register(&mut s, self.a);
        s.append("; X: ");
        push_register(&mut s, self.x);
        s.append("; Y: ");
        push_register(&mut s, self.y);
        s.append("\n");
        proof {
            assert(s@ =~= self.text());
        }
        s
    }
}

/// Appends one register as `decimal / $HEX`.
fn push_register(s: &mut String, v: Byte)
    ensures
        final(s)@ == old(s)@ + register_text(v),
{
    push_dec(s, v as u64);
    proof {
        reveal_strlit(" / $");
    }
    s.append(" / $");
    push_hex2(s, v as u64);
    proof {
        assert(s@ =~= old(s)@ + register_text(v));
    }
}

} // verus!
