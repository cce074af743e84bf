//! Decimal rendering of counters, written out digit by digit.
use vstd::prelude::*;

verus! {

/// The character of a decimal digit `d` (`0 <= d < 10`).
pub open spec fn digit_char(d: int) -> char {
    ((48 + d) as u32) as char
}

/// The shortest decimal spelling of `n`, as `format!("{}", n)` writes it.
pub open spec fn decimal(n: nat) -> Seq<char>
    decreases n,
{
    if n < 10 {
        seq![digit_char(n as int)]
    } else {
        decimal(n / 10).push(digit_char((n % 10) as int))
    }
}

/// Two decimal digits, zero-padded, as `format!("{:02}", n)` writes a value below 100.
pub open spec fn two_digits(n: nat) -> Seq<char> {
    seq![digit_char((n / 10) as int), digit_char((n % 10) as int)]
}

/// The one-character text of the decimal digit `d`.
pub fn digit_text(d: u64) -> (text: &'static str)
    requires
        d < 10,
    ensures
        text@ == seq![digit_char(d as int)],
{
    match d {
        0 => { proof { reveal_strlit("0"); } "0" },
        1 => { proof { reveal_strlit("1"); } "1" },
        2 => { proof { reveal_strlit("2"); } "2" },
        3 => { proof { reveal_strlit("3"); } "3" },
        4 => { proof { reveal_strlit("4"); } "4" },
        5 => { proof { reveal_strlit("5"); } "5" },
        6 => { proof { reveal_strlit("6"); } "6" },
        7 => { proof { reveal_strlit("7"); } "7" },
        8 => { proof { reveal_strlit("8"); } "8" },
        _ => { proof { reveal_strlit("9"); } "9" },
    }
}

/// Appends the decimal spelling of `n` to `out`.
pub fn push_decimal(out: &mut String, n: u64)
    ensures
        final(out)@ == old(out)@ + decimal(n as nat),
    decreases n,
{
    if n >= 10 {
        push_decimal(out, n / 10);
    }
    out.append(digit_text(n % 10));
}

/// A decimal digit character, `'0'` to `'9'`.
pub open spec fn is_digit(c: char) -> bool {
    48 <= (c as int) <= 57
}

/// The number a run of decimal digit characters spells, most significant first.
pub open spec fn digits_value(s: Seq<char>) -> int
    decreases s.len(),
{
    if s.len() == 0 {
        0
    } else {
        digits_value(s.drop_last()) * 10 + ((s.last() as int) - 48)
    }
}

proof fn digit_char_is_digit(d: int)
    requires
        0 <= d < 10,
    ensures
        digit_char(d) as int == 48 + d,
        is_digit(digit_char(d)),
{
}

/// The decimal spelling of `n` is made of digits only, has no leading zero (a lone
/// `0` for zero), and reads back as `n`.
pub proof fn decimal_reads_back(n: nat)
    ensures
        decimal(n).len() > 0,
        forall|i: int| 0 <= i < decimal(n).len() ==> is_digit(#[trigger] decimal(n)[i]),
        n > 0 ==> decimal(n)[0] != '0',
        n == 0 ==> decimal(n) == seq!['0'],
        digits_value(decimal(n)) == n,
    decreases n,
{
    if n < 10 {
        digit_char_is_digit(n as int);
        assert(seq![digit_char(n as int)].drop_last() =~= Seq::<char>::empty());
        assert(digits_value(Seq::<char>::empty()) == 0);
    } else {
        decimal_reads_back(n / 10);
        digit_char_is_digit((n % 10) as int);
        let front = decimal(n / 10);
        let d = digit_char((n % 10) as int);
        assert(front.push(d).drop_last() =~= front);
        assert(front.push(d)[0] == front[0]);
        assert((n / 10) * 10 + n % 10 == n) by (nonlinear_arith);
        assert(digits_value(front.push(d)) == digits_value(front) * 10 + (d as int - 48));
    }
}

proof fn digits_value_of_pair(s: Seq<char>)
    requires
        s.len() == 2,
    ensures
        digits_value(s) == ((s[0] as int) - 48) * 10 + ((s[1] as int) - 48),
{
    let front = s.drop_last();
    assert(front.drop_last() =~= Seq::<char>::empty());
    assert(digits_value(front.drop_last()) == 0);
    assert(digits_value(front) == digits_value(front.drop_last()) * 10 + ((front.last() as int) - 48));
    assert(front.last() == s[0]);
}

/// Two zero-padded digits of `n < 100`: two digit characters that read back as `n`,
/// tens first.
pub proof fn two_digits_read_back(n: nat)
    requires
        n < 100,
    ensures
        two_digits(n).len() == 2,
        is_digit(two_digits(n)[0]),
        is_digit(two_digits(n)[1]),
        ((two_digits(n)[0] as int) - 48) * 10 + ((two_digits(n)[1] as int) - 48) == n,
        digits_value(two_digits(n)) == n,
{
    digits_value_of_pair(two_digits(n));
    digit_char_is_digit((n / 10) as int);
    digit_char_is_digit((n % 10) as int);
    assert((n / 10) * 10 + n % 10 == n) by (nonlinear_arith);
}

} // verus!
