//! Field extraction helpers shared by the interpreter and its tooling:
//! opcode nibbles and decimal digit decomposition.
use vstd::prelude::*;

use vstd::arithmetic::div_mod::lemma_div_denominator;

use crate::instruction::{nib1, nib2, nib3, nib4, opcode_field_facts};

verus! {

pub struct Chip8Util;

/// Hundreds digit of the decimal decomposition of a byte.
pub open spec fn bcd_hundreds(v: u8) -> u8 {
    v / 100
}

/// Tens digit of the decimal decomposition of a byte.
pub open spec fn bcd_tens(v: u8) -> u8 {
    (v / 10) % 10
}

/// Ones digit of the decimal decomposition of a byte.
pub open spec fn bcd_ones(v: u8) -> u8 {
    v % 10
}

/// The decimal digits of `n`, most significant first; 0 is the single
/// digit 0.
pub open spec fn decimal_digits(n: int) -> Seq<u8>
    decreases n,
{
    if n < 10 {
        seq![n as u8]
    } else {
        decimal_digits(n / 10).push((n % 10) as u8)
    }
}

/// The decimal decomposition of a byte has one, two or three digits,
/// and they are exactly the hundreds, tens and ones digits.
pub proof fn lemma_decimal_digits_u8(v: u8)
    ensures
        v < 10 ==> decimal_digits(v as int) == seq![v],
        10 <= v < 100 ==> decimal_digits(v as int) == seq![v / 10, v % 10],
        v >= 100 ==> decimal_digits(v as int) == seq![bcd_hundreds(v), bcd_tens(v), bcd_ones(v)],
{
    reveal_with_fuel(decimal_digits, 4);
    let n = v as int;
    if v < 10 {
        assert(decimal_digits(n) =~= seq![v]);
    } else if v < 100 {
        assert(decimal_digits(n) =~= seq![v / 10, v % 10]);
    } else {
        lemma_div_denominator(n, 10, 10);
        assert((n / 10) / 10 == n / 100);
        assert(decimal_digits(n) =~= seq![bcd_hundreds(v), bcd_tens(v), bcd_ones(v)]);
    }
}

impl Chip8Util {
    /// Split an opcode word into its four 4-bit fields.
    pub fn extract_nibbles(op_code: u16) -> (digits: (u16, u16, u16, u16))
        ensures
            digits.0 == nib1(op_code),
            digits.1 == nib2(op_code),
            digits.2 == nib3(op_code),
            digits.3 == nib4(op_code),
            digits.0 < 16,
            digits.1 < 16,
            digits.2 < 16,
            digits.3 < 16,
    {
        proof {
            opcode_field_facts(op_code);
        }
        let digit1: u16 = (op_code & 0xf000) >> 12;
        let digit2: u16 = (op_code & 0x0f00) >> 8;
        let digit3: u16 = (op_code & 0x00f0) >> 4;
        let digit4: u16 = op_code & 0x000f;
        (digit1, digit2, digit3, digit4)
    }

    /// The decimal digits of a byte in order, most significant first;
    /// `extract_digits(153)` is `[1, 5, 3]` and `extract_digits(0)` is
    /// `[0]`.
    pub fn extract_digits(n: u8) -> (digits: Vec<u8>)
        ensures
            digits@ == decimal_digits(n as int),
            1 <= digits@.len() <= 3,
    {
        proof {
            lemma_decimal_digits_u8(n);
        }
        if n == 0 {
            let mut digits: Vec<u8> = Vec::new();
            digits.push(0);
            assert(digits@ =~= decimal_digits(0));
            return digits;
        }
        let mut reversed: Vec<u8> = Vec::new();
        let mut m: u8 = n;
        while m > 0
            invariant
                m > 0 ==> decimal_digits(n as int) =~= decimal_digits(m as int)
                    + reversed@.reverse(),
                m == 0 ==> decimal_digits(n as int) =~= reversed@.reverse(),
                m > 0 || reversed@.len() > 0,
            decreases m,
        {
            let d = m % 10;
            proof {
                let s = reversed@;
                assert(s.push(d).reverse() =~= seq![d] + s.reverse());
                if m >= 10 {
                    assert(decimal_digits(m as int) == decimal_digits(m as int / 10).push(
                        (m as int % 10) as u8,
                    ));
                    assert(decimal_digits(m as int / 10).push(d) + s.reverse()
                        =~= decimal_digits(m as int / 10) + (seq![d] + s.reverse()));
                } else {
                    assert(decimal_digits(m as int) =~= seq![d]);
                    assert(seq![d] + s.reverse() =~= decimal_digits(m as int) + s.reverse());
                }
            }
            reversed.push(d);
            m = m / 10;
        }
        let ghost collected = reversed@;
        let mut digits: Vec<u8> = Vec::new();
        while reversed.len() > 0
            invariant
                collected.reverse() =~= digits@ + reversed@.reverse(),
            decreases reversed@.len(),
        {
            proof {
                let s = reversed@;
                assert(s.reverse() =~= seq![s.last()] + s.drop_last().reverse());
                assert((digits@ + seq![s.last()]) + s.drop_last().reverse()
                    =~= digits@ + s.reverse());
                assert(digits@.push(s.last()) =~= digits@ + seq![s.last()]);
            }
            let d = match reversed.pop() {
                Some(d) => d,
                None => 0,
            };
            digits.push(d);
        }
        proof {
            assert(digits@ + reversed@.reverse() =~= digits@);
            assert(digits@ =~= decimal_digits(n as int));
        }
        digits
    }
}

} // verus!
