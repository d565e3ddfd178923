//! Numbers as text.

use vstd::prelude::*;

verus! {

/// The decimal digit for a value below ten.
pub open spec fn digit_char(digit: nat) -> char {
    if digit == 0 {
        '0'
    } else if digit == 1 {
        '1'
    } else if digit == 2 {
        '2'
    } else if digit == 3 {
        '3'
    } else if digit == 4 {
        '4'
    } else if digit == 5 {
        '5'
    } else if digit == 6 {
        '6'
    } else if digit == 7 {
        '7'
    } else if digit == 8 {
        '8'
    } else {
        '9'
    }
}

/// A number in decimal, without leading zeros.
pub open spec fn decimal_text(value: nat) -> Seq<char>
    decreases value,
{
    if value < 10 {
        seq![digit_char(value)]
    } else {
        decimal_text(value / 10).push(digit_char(value % 10))
    }
}

/// The decimal digit for a value below ten, as text.
fn digit_text(digit: u32) -> (text: &'static str)
    requires
        digit < 10,
    ensures
        text@ == seq![digit_char(digit as nat)],
{
    proof {
        reveal_strlit("0");
        reveal_strlit("1");
        reveal_strlit("2");
        reveal_strlit("3");
        reveal_strlit("4");
        reveal_strlit("5");
        reveal_strlit("6");
        reveal_strlit("7");
        reveal_strlit("8");
        reveal_strlit("9");
    }
    let text = if digit == 0 {
        "0"
    } else if digit == 1 {
        "1"
    } else if digit == 2 {
        "2"
    } else if digit == 3 {
        "3"
    } else if digit == 4 {
        "4"
    } else if digit == 5 {
        "5"
    } else if digit == 6 {
        "6"
    } else if digit == 7 {
        "7"
    } else if digit == 8 {
        "8"
    } else {
        "9"
    };
    assert(text@ =~= seq![digit_char(digit as nat)]);
    text
}

/// A number in decimal, without leading zeros.
pub fn decimal(value: u32) -> (text: String)
    ensures
        text@ == decimal_text(value as nat),
    decreases value,
{
    if value < 10 {
        digit_text(value).to_owned()
    } else {
        let text = decimal(value / 10).concat(digit_text(value % 10));
        assert(text@ =~= decimal_text(value as nat));
        text
    }
}

/// The eight bits of a byte, the highest first.
pub open spec fn binary_text(value: u8) -> Seq<char> {
    Seq::new(
        8,
        |i: int|
            if (value >> ((7 - i) as u8)) & 1u8 == 1u8 {
                '1'
            } else {
                '0'
            },
    )
}

/// The eight bits of a byte, the highest first.
pub fn binary(value: u8) -> (text: String)
    ensures
        text@ == binary_text(value),
{
    proof {
        reveal_strlit("0");
        reveal_strlit("1");
    }
    let mut text = String::new();
    let mut i: u8 = 0;
    while i < 8
        invariant
            i <= 8,
            text@.len() == i,
            forall|j: int| 0 <= j < i ==> text@[j] == binary_text(value)[j],
            "0"@ == seq!['0'],
            "1"@ == seq!['1'],
        decreases 8 - i,
    {
        let shift: u8 = 7 - i;
        let bit: u8 = (value >> shift) & 1u8;
        if bit == 1 {
            text.append("1");
        } else {
            text.append("0");
        }
        i += 1;
    }
    assert(text@ =~= binary_text(value));
    text
}

} // verus!
