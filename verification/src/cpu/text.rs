use vstd::prelude::*;

verus! {

/// The character of the digit `d`, up to 15 (upper-case hexadecimal).
pub open spec fn digit_char(d: u8) -> char {
    match d {
        0 => '0',
        1 => '1',
        2 => '2',
        3 => '3',
        4 => '4',
        5 => '5',
        6 => '6',
        7 => '7',
        8 => '8',
        9 => '9',
        10 => 'A',
        11 => 'B',
        12 => 'C',
        13 => 'D',
        14 => 'E',
        _ => 'F',
    }
}

/// The decimal representation of `n`, without leading zeros.
pub open spec fn decimal(n: nat) -> Seq<char>
    decreases n,
{
    if n < 10 {
        seq![digit_char(n as u8)]
    } else {
        decimal(n / 10).push(digit_char((n % 10) as u8))
    }
}

/// The decimal representation of `i`, with a leading minus sign when it is negative.
pub open spec fn signed_decimal(i: int) -> Seq<char> {
    if i < 0 {
        seq!['-'] + decimal((-i) as nat)
    } else {
        decimal(i as nat)
    }
}

/// `b` as `0x` and two upper-case hexadecimal digits.
pub open spec fn hex_byte(b: u8) -> Seq<char> {
    seq!['0', 'x', digit_char(b / 16), digit_char(b % 16)]
}

/// The one-character text of the digit `d`.
fn digit_str(d: u8) -> (s: &'static str)
    requires
        d < 16,
    ensures
        s@ == seq![digit_char(d)],
{
    proof {
        reveal_strlit("0");
        reveal_strlit("1");
        reveal_strlit("2");
        reveal_strlit("3");
        reveal_strlit("4");
        reveal_strlit("5");
        reveal_strlit("6");
        reveal_strlit("7");
        reveal_strlit("8");
        reveal_strlit("9");
        reveal_strlit("A");
        reveal_strlit("B");
        reveal_strlit("C");
        reveal_strlit("D");
        reveal_strlit("E");
        reveal_strlit("F");
    }
    match d {
        0 => "0",
        1 => "1",
        2 => "2",
        3 => "3",
        4 => "4",
        5 => "5",
        6 => "6",
        7 => "7",
        8 => "8",
        9 => "9",
        10 => "A",
        11 => "B",
        12 => "C",
        13 => "D",
        14 => "E",
        _ => "F",
    }
}

/// The decimal text of `n`, as `to_string` writes it.
pub fn u8_to_decimal(n: u8) -> (s: String)
    ensures
        s@ == decimal(n as nat),
{
    proof {
        reveal_with_fuel(decimal, 3);
    }
    let mut s = String::new();
    if n >= 100 {
        s.append(digit_str(n / 100));
    }
    if n >= 10 {
        s.append(digit_str((n / 10) % 10));
    }
    s.append(digit_str(n % 10));
    proof {
        if n >= 100 {
            assert(decimal((n / 100) as nat) == seq![digit_char(n / 100)]);
            assert(decimal((n / 10) as nat) == decimal((n / 100) as nat).push(
                digit_char((n / 10) % 10),
            ));
        } else if n >= 10 {
            assert(decimal((n / 10) as nat) == seq![digit_char(n / 10)]);
        }
    }
    s
}

/// The decimal text of `n`, with a minus sign when it is negative, as `format!("{}", n)` writes it.
pub fn i8_to_decimal(n: i8) -> (s: String)
    ensures
        s@ == signed_decimal(n as int),
{
    if n < 0 {
        proof {
            reveal_strlit("-");
        }
        let magnitude = (-(n as i16)) as u8;
        let digits = u8_to_decimal(magnitude);
        let mut s = String::from_str("-");
        s.append(digits.as_str());
        s
    } else {
        u8_to_decimal(n as u8)
    }
}

/// `b` as `0x` and two upper-case hexadecimal digits, as `format!("{:#04X}", b)` writes it.
pub fn u8_to_hex(b: u8) -> (s: String)
    ensures
        s@ == hex_byte(b),
{
    proof {
        reveal_strlit("0x");
    }
    let mut s = String::from_str("0x");
    s.append(digit_str(b / 16));
    s.append(digit_str(b % 16));
    s
}

} // verus!
