//! Small text helpers shared by the other modules: decimal digits and
//! appending single characters to a `String`.

use vstd::prelude::*;

verus! {

/// An ASCII decimal digit.
pub open spec fn is_digit(c: char) -> bool {
    '0' <= c && c <= '9'
}

/// The value of an ASCII decimal digit.
pub open spec fn digit_value(c: char) -> int {
    (c as int) - ('0' as int)
}

/// The ASCII digit for a value below ten.
pub open spec fn digit_char(v: int) -> char {
    (v + ('0' as int)) as char
}

/// The characters of `s` that are ASCII digits, in order.
pub open spec fn digits_of(s: Seq<char>) -> Seq<char>
    decreases s.len(),
{
    if s.len() == 0 {
        Seq::empty()
    } else if is_digit(s.last()) {
        digits_of(s.drop_last()).push(s.last())
    } else {
        digits_of(s.drop_last())
    }
}

/// The decimal text of `n`, with no leading zeros.
pub open spec fn decimal(n: nat) -> Seq<char>
    decreases n,
{
    if n < 10 {
        seq![digit_char(n as int)]
    } else {
        decimal(n / 10).push(digit_char((n % 10) as int))
    }
}

/// Exactly two decimal digits of `n` (`n` below one hundred).
pub open spec fn two_digits(n: int) -> Seq<char> {
    seq![digit_char(n / 10), digit_char(n % 10)]
}

/// Exactly four decimal digits of `n` (`n` below ten thousand).
pub open spec fn four_digits(n: int) -> Seq<char> {
    seq![digit_char(n / 1000), digit_char((n / 100) % 10), digit_char((n / 10) % 10), digit_char(n % 10)]
}

/// Appends one ASCII character among the digits and the punctuation used in
/// dates, times and signs.
pub fn push_ascii(s: &mut String, c: char)
    requires
        is_digit(c) || c == '/' || c == ',' || c == ':' || c == '+' || c == '-',
    ensures
        final(s)@ == old(s)@.push(c),
{
    let piece: &str = match c {
        '0' => "0",
        '1' => "1",
        '2' => "2",
        '3' => "3",
        '4' => "4",
        '5' => "5",
        '6' => "6",
        '7' => "7",
        '8' => "8",
        '9' => "9",
        '/' => "/",
        ',' => ",",
        ':' => ":",
        '+' => "+",
        _ => "-",
    };
    proof {
        reveal_strlit("0");
        reveal_strlit("1");
        reveal_strlit("2");
        reveal_strlit("3");
        reveal_strlit("4");
        reveal_strlit("5");
        reveal_strlit("6");
        reveal_strlit("7");
        reveal_strlit("8");
        reveal_strlit("9");
        reveal_strlit("/");
        reveal_strlit(",");
        reveal_strlit(":");
        reveal_strlit("+");
        reveal_strlit("-");
    }
    assert(piece@ =~= seq![c]);
    s.append(piece);
}

/// Appends the digit for `v`, which is below ten.
pub fn push_digit(s: &mut String, v: u32)
    requires
        v < 10,
    ensures
        final(s)@ == old(s)@.push(digit_char(v as int)),
{
    let c: char = ((v + 48) as u8) as char;
    assert(c == digit_char(v as int));
    push_ascii(s, c);
}

/// Appends `n` as exactly two digits.
pub fn push_two_digits(s: &mut String, n: u32)
    requires
        n < 100,
    ensures
        final(s)@ == old(s)@ + two_digits(n as int),
{
    push_digit(s, n / 10);
    push_digit(s, n % 10);
    assert(final(s)@ =~= old(s)@ + two_digits(n as int));
}

/// Appends `n` as exactly four digits.
pub fn push_four_digits(s: &mut String, n: u32)
    requires
        n < 10000,
    ensures
        final(s)@ == old(s)@ + four_digits(n as int),
{
    push_digit(s, n / 1000);
    push_digit(s, (n / 100) % 10);
    push_digit(s, (n / 10) % 10);
    push_digit(s, n % 10);
    assert(final(s)@ =~= old(s)@ + four_digits(n as int));
}

/// Appends the decimal text of `n`.
pub fn push_decimal(s: &mut String, n: u64)
    ensures
        final(s)@ == old(s)@ + decimal(n as nat),
    decreases n,
{
    if n >= 10 {
        push_decimal(s, n / 10);
    }
    push_digit(s, (n % 10) as u32);
    assert(final(s)@ =~= old(s)@ + decimal(n as nat));
}

/// The ASCII digits of `s`, in order.
pub fn collect_digits(s: &str) -> (r: Vec<char>)
    ensures
        r@ == digits_of(s@),
{
    let n = s.unicode_len();
    let mut r: Vec<char> = Vec::new();
    let mut i: usize = 0;
    while i < n
        invariant
            n == s@.len(),
            i <= n,
            r@ == digits_of(s@.take(i as int)),
        decreases n - i,
    {
        let c = s.get_char(i);
        assert(s@.take(i as int + 1).drop_last() =~= s@.take(i as int));
        if '0' <= c && c <= '9' {
            r.push(c);
        }
        i = i + 1;
    }
    assert(s@.take(n as int) =~= s@);
    r
}

} // verus!
