//! Numbers as text.
use vstd::prelude::*;

verus! {

/// A digit as a character.
pub open spec fn digit_of(digit: nat) -> char {
    if digit == 0 {
        '0'
    } else if digit == 1 {
        '1'
    } else if digit == 2 {
        '2'
    } else if digit == 3 {
        '3'
    } else if digit == 4 {
        '4'
    } else if digit == 5 {
        '5'
    } else if digit == 6 {
        '6'
    } else if digit == 7 {
        '7'
    } else if digit == 8 {
        '8'
    } else if digit == 9 {
        '9'
    } else if digit == 10 {
        'a'
    } else if digit == 11 {
        'b'
    } else if digit == 12 {
        'c'
    } else if digit == 13 {
        'd'
    } else if digit == 14 {
        'e'
    } else {
        'f'
    }
}

/// A number's digits in a base, without leading zeros.
pub open spec fn digits_of(value: nat, base: nat) -> Seq<char>
    decreases value,
{
    if base < 2 || value < base {
        seq![digit_of(value)]
    } else {
        proof {
            assert(value / base < value) by (nonlinear_arith)
                requires
                    value >= base,
                    base >= 2,
            ;
        }
        digits_of(value / base, base).push(digit_of(value % base))
    }
}

/// A number in decimal.
pub open spec fn decimal_of(value: int) -> Seq<char> {
    if value < 0 {
        seq!['-'] + digits_of((-value) as nat, 10)
    } else {
        digits_of(value as nat, 10)
    }
}

/// A digit as text.
fn digit(value: u64) -> (text: &'static str)
    requires
        value < 16,
    ensures
        text@ == seq![digit_of(value as nat)],
{
    proof {
        reveal_strlit("0");
        reveal_strlit("1");
        reveal_strlit("2");
        reveal_strlit("3");
        reveal_strlit("4");
        reveal_strlit("5");
        reveal_strlit("6");
        reveal_strlit("7");
        reveal_strlit("8");
        reveal_strlit("9");
        reveal_strlit("a");
        reveal_strlit("b");
        reveal_strlit("c");
        reveal_strlit("d");
        reveal_strlit("e");
        reveal_strlit("f");
    }
    let text: &'static str = match value {
        0 => "0",
        1 => "1",
        2 => "2",
        3 => "3",
        4 => "4",
        5 => "5",
        6 => "6",
        7 => "7",
        8 => "8",
        9 => "9",
        10 => "a",
        11 => "b",
        12 => "c",
        13 => "d",
        14 => "e",
        _ => "f",
    };
    assert(text@ =~= seq![digit_of(value as nat)]);
    text
}

/// A number's digits in a base.
pub fn digits(value: u64, base: u64) -> (text: String)
    requires
        2 <= base <= 16,
    ensures
        text@ == digits_of(value as nat, base as nat),
    decreases value,
{
    if value < base {
        let mut text = String::new();
        text.append(digit(value));
        assert(text@ =~= digits_of(value as nat, base as nat));
        return text;
    }
    proof {
        assert(value / base < value) by (nonlinear_arith)
            requires
                value >= base,
                base >= 2,
        ;
        assert(value % base < base) by (nonlinear_arith)
            requires
                base >= 2,
        ;
    }
    let mut text = digits(value / base, base);
    text.append(digit(value % base));
    assert(text@ =~= digits_of(value as nat, base as nat));
    text
}

/// A number in decimal.
pub fn decimal(value: i64) -> (text: String)
    ensures
        text@ == decimal_of(value as int),
{
    if value >= 0 {
        return digits(value as u64, 10);
    }
    proof {
        reveal_strlit("-");
    }
    let mut text = String::new();
    text.append("-");
    let magnitude: u64 = (-(value + 1)) as u64 + 1;
    text.append(digits(magnitude, 10).as_str());
    assert(text@ =~= decimal_of(value as int));
    text
}

/// A code's bits in hexadecimal, with their prefix.
pub fn hexadecimal(value: i32) -> (text: String)
    ensures
        text@ == "0x"@ + digits_of(crate::wire::i32_bits(value) as nat, 16),
{
    let mut text = String::new();
    text.append("0x");
    let bits: u32 = crate::wire::bits_of_i32(value);
    text.append(digits(bits as u64, 16).as_str());
    assert(text@ =~= "0x"@ + digits_of(crate::wire::i32_bits(value) as nat, 16));
    text
}

} // verus!
