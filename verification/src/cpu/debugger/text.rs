use vstd::prelude::*;
use vstd::string::StringExecFns;

verus! {

/// The digit of value `d` in base sixteen, upper case.
pub open spec fn digit_char(d: int) -> char {
    if d == 0 {
        '0'
    } else if d == 1 {
        '1'
    } else if d == 2 {
        '2'
    } else if d == 3 {
        '3'
    } else if d == 4 {
        '4'
    } else if d == 5 {
        '5'
    } else if d == 6 {
        '6'
    } else if d == 7 {
        '7'
    } else if d == 8 {
        '8'
    } else if d == 9 {
        '9'
    } else if d == 10 {
        'A'
    } else if d == 11 {
        'B'
    } else if d == 12 {
        'C'
    } else if d == 13 {
        'D'
    } else if d == 14 {
        'E'
    } else {
        'F'
    }
}

/// `n` written in base `base` without leading zeros (`0` for zero).
pub open spec fn digits(n: nat, base: nat) -> Seq<char>
    recommends
        2 <= base <= 16,
    decreases n,
{
    if n < base || base < 2 {
        seq![digit_char(n as int)]
    } else {
        proof {
            lemma_quotient_smaller(n, base);
        }
        digits(n / base, base).push(digit_char((n % base) as int))
    }
}

/// Dividing by a base of at least two makes a number of at least that base smaller.
pub proof fn lemma_quotient_smaller(n: nat, base: nat)
    requires
        2 <= base <= n,
    ensures
        n / base < n,
        n % base < base,
{
    assert(n / base < n) by (nonlinear_arith)
        requires
            2 <= base <= n,
    ;
}

/// `n` in decimal.
pub open spec fn dec_text(n: nat) -> Seq<char> {
    digits(n, 10)
}

/// `n` in upper-case hexadecimal.
pub open spec fn hex_text(n: nat) -> Seq<char> {
    digits(n, 16)
}

/// `t` left-padded with zeros to at least two characters.
pub open spec fn pad2(t: Seq<char>) -> Seq<char> {
    if t.len() < 2 {
        seq!['0'] + t
    } else {
        t
    }
}

/// A signed number with its sign always shown (`+0`, `+4`, `-3`).
pub open spec fn signed_text(v: int) -> Seq<char> {
    if v < 0 {
        seq!['-'] + dec_text((-v) as nat)
    } else {
        seq!['+'] + dec_text(v as nat)
    }
}

/// A one-character text holding the digit `d`.
fn digit_str(d: u8) -> (r: &'static str)
    requires
        d < 16,
    ensures
        r@ == seq![digit_char(d as int)],
{
    if d == 0 {
        proof { reveal_strlit("0"); }
        "0"
    } else if d == 1 {
        proof { reveal_strlit("1"); }
        "1"
    } else if d == 2 {
        proof { reveal_strlit("2"); }
        "2"
    } else if d == 3 {
        proof { reveal_strlit("3"); }
        "3"
    } else if d == 4 {
        proof { reveal_strlit("4"); }
        "4"
    } else if d == 5 {
        proof { reveal_strlit("5"); }
        "5"
    } else if d == 6 {
        proof { reveal_strlit("6"); }
        "6"
    } else if d == 7 {
        proof { reveal_strlit("7"); }
        "7"
    } else if d == 8 {
        proof { reveal_strlit("8"); }
        "8"
    } else if d == 9 {
        proof { reveal_strlit("9"); }
        "9"
    } else if d == 10 {
        proof { reveal_strlit("A"); }
        "A"
    } else if d == 11 {
        proof { reveal_strlit("B"); }
        "B"
    } else if d == 12 {
        proof { reveal_strlit("C"); }
        "C"
    } else if d == 13 {
        proof { reveal_strlit("D"); }
        "D"
    } else if d == 14 {
        proof { reveal_strlit("E"); }
        "E"
    } else {
        proof { reveal_strlit("F"); }
        "F"
    }
}

/// Appends `n` written in base `base`.
pub fn push_digits(s: &mut String, n: u64, base: u64)
    requires
        2 <= base <= 16,
    ensures
        final(s)@ == old(s)@ + digits(n as nat, base as nat),
    decreases n,
{
    if n < base {
        s.append(digit_str(n as u8));
    } else {
        proof {
            lemma_quotient_smaller(n as nat, base as nat);
        }
        push_digits(s, n / base, base);
        let d = (n % base) as u8;
        s.append(digit_str(d));
        proof {
            assert(digits(n as nat, base as nat) == digits((n / base) as nat, base as nat).push(
                digit_char((n % base) as int),
            ));
            assert(old(s)@ + digits(n as nat, base as nat) =~= old(s)@ + digits(
                (n / base) as nat,
                base as nat,
            ) + seq![digit_char(d as int)]);
        }
    }
}

/// Appends `n` in decimal.
pub fn push_dec(s: &mut String, n: u64)
    ensures
        final(s)@ == old(s)@ + dec_text(n as nat),
{
    push_digits(s, n, 10);
}

/// Appends `n` in upper-case hexadecimal.
pub fn push_hex(s: &mut String, n: u64)
    ensures
        final(s)@ == old(s)@ + hex_text(n as nat),
{
    push_digits(s, n, 16);
}

/// Appends `n` in upper-case hexadecimal, at least two digits wide.
pub fn push_hex2(s: &mut String, n: u64)
    ensures
        final(s)@ == old(s)@ + pad2(hex_text(n as nat)),
{
    if n < 16 {
        proof { reveal_strlit("0"); }
        s.append("0");
        push_hex(s, n);
        proof {
            assert(hex_text(n as nat).len() == 1);
            assert(old(s)@ + pad2(hex_text(n as nat)) =~= old(s)@ + "0"@ + hex_text(n as nat));
        }
    } else {
        push_hex(s, n);
        proof {
            assert(hex_text(n as nat) == digits((n / 16) as nat, 16).push(
                digit_char((n % 16) as int),
            ));
            assert(digits((n / 16) as nat, 16).len() >= 1) by {
                if n / 16 >= 16 {
                    assert(digits((n / 16) as nat, 16) == digits((n / 256) as nat, 16).push(
                        digit_char(((n / 16) % 16) as int),
                    ));
                }
            }
        }
    }
}

/// Appends a signed number with its sign always shown.
pub fn push_signed(s: &mut String, v: i8)
    ensures
        final(s)@ == old(s)@ + signed_text(v as int),
{
    if v < 0 {
        proof { reveal_strlit("-"); }
        s.append("-");
        let magnitude: u64 = (0i16 - v as i16) as u64;
        push_dec(s, magnitude);
        proof {
            assert(old(s)@ + signed_text(v as int) =~= old(s)@ + "-"@ + dec_text(magnitude as nat));
        }
    } else {
        proof { reveal_strlit("+"); }
        s.append("+");
        push_dec(s, v as u64);
        proof {
            assert(old(s)@ + signed_text(v as int) =~= old(s)@ + "+"@ + dec_text(v as nat));
        }
    }
}

} // verus!
