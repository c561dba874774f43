//! Amounts of data in words that people read: a number and a unit.

use vstd::prelude::*;
use vstd::string::StringExecFns;

verus! {

/// The character of the decimal digit `digit`.
pub open spec fn digit_char(digit: nat) -> char {
    if digit == 0 {
        '0'
    } else if digit == 1 {
        '1'
    } else if digit == 2 {
        '2'
    } else if digit == 3 {
        '3'
    } else if digit == 4 {
        '4'
    } else if digit == 5 {
        '5'
    } else if digit == 6 {
        '6'
    } else if digit == 7 {
        '7'
    } else if digit == 8 {
        '8'
    } else {
        '9'
    }
}

/// The decimal numeral of `n`, without leading zeros.
pub open spec fn decimal(n: nat) -> Seq<char>
    decreases n,
{
    if n < 10 {
        seq![digit_char(n)]
    } else {
        decimal(n / 10).push(digit_char(n % 10))
    }
}

/// The amount of `bytes` bytes in the largest binary unit of which it
/// holds at least one, rounded down to a whole number of that unit. (An
/// amount in megabytes starts with a blank.)
pub open spec fn data_size_str(bytes: nat) -> Seq<char> {
    let k_bytes = bytes / 1024;
    let m_bytes = k_bytes / 1024;
    let g_bytes = m_bytes / 1024;
    if g_bytes != 0 {
        decimal(g_bytes) + seq![' ', 'G', 'B']
    } else if m_bytes != 0 {
        seq![' '] + decimal(m_bytes) + seq![' ', 'M', 'B']
    } else if k_bytes != 0 {
        decimal(k_bytes) + seq![' ', 'K', 'B']
    } else {
        decimal(bytes) + seq![' ', 'B']
    }
}

/// The numeral of one decimal digit.
fn digit_str(digit: u8) -> (numeral: &'static str)
    requires
        digit < 10,
    ensures
        numeral@ == seq![digit_char(digit as nat)],
{
    proof {
        reveal_strlit("0");
        reveal_strlit("1");
        reveal_strlit("2");
        reveal_strlit("3");
        reveal_strlit("4");
        reveal_strlit("5");
        reveal_strlit("6");
        reveal_strlit("7");
        reveal_strlit("8");
        reveal_strlit("9");
    }
    if digit == 0 {
        "0"
    } else if digit == 1 {
        "1"
    } else if digit == 2 {
        "2"
    } else if digit == 3 {
        "3"
    } else if digit == 4 {
        "4"
    } else if digit == 5 {
        "5"
    } else if digit == 6 {
        "6"
    } else if digit == 7 {
        "7"
    } else if digit == 8 {
        "8"
    } else {
        "9"
    }
}

/// Appends the decimal numeral of `n` to `out`.
pub fn push_decimal(out: &mut String, n: u64)
    ensures
        final(out)@ == old(out)@ + decimal(n as nat),
    decreases n,
{
    if n >= 10 {
        push_decimal(out, n / 10);
    }
    out.append(digit_str((n % 10) as u8));
}

/// Writes an amount of data for people to read: in gigabytes where it
/// holds at least one, else in megabytes, kilobytes or bytes, rounded down
/// to a whole number.
pub fn get_human_friendly_data_size_str(bytes: u64) -> (text: String)
    ensures
        text@ == data_size_str(bytes as nat),
{
    let k_bytes: u64 = bytes / 1024;
    let m_bytes: u64 = k_bytes / 1024;
    let g_bytes: u64 = m_bytes / 1024;
    proof {
        reveal_strlit(" GB");
        reveal_strlit(" MB");
        reveal_strlit(" KB");
        reveal_strlit(" B");
        reveal_strlit(" ");
    }
    let mut text: String = String::new();
    if g_bytes != 0 {
        push_decimal(&mut text, g_bytes);
        text.append(" GB");
    } else if m_bytes != 0 {
        text.append(" ");
        push_decimal(&mut text, m_bytes);
        text.append(" MB");
    } else if k_bytes != 0 {
        push_decimal(&mut text, k_bytes);
        text.append(" KB");
    } else {
        push_decimal(&mut text, bytes);
        text.append(" B");
    }
    text
}

} // verus!
