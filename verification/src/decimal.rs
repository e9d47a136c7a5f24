//! Decimal rendering of integers, as `{}` formats them in messages.

use vstd::prelude::*;

verus! {

/// The character of a decimal digit `d` (`0 <= d < 10`).
pub open spec fn digit_char(d: int) -> char {
    seq!['0', '1', '2', '3', '4', '5', '6', '7', '8', '9'][d]
}

/// The decimal digits of a natural number, most significant first, with no leading zero.
pub open spec fn digits(n: nat) -> Seq<char>
    decreases n,
{
    if n < 10 {
        seq![digit_char(n as int)]
    } else {
        digits(n / 10).push(digit_char((n % 10) as int))
    }
}

/// The text of an integer in base ten: a minus sign for negative numbers, then its digits.
pub open spec fn decimal(n: int) -> Seq<char> {
    if n < 0 {
        seq!['-'] + digits((-n) as nat)
    } else {
        digits(n as nat)
    }
}

fn digit_str(d: u64) -> (s: &'static str)
    requires
        d < 10,
    ensures
        s@ == seq![digit_char(d as int)],
{
    proof {
        reveal_strlit("0");
        reveal_strlit("1");
        reveal_strlit("2");
        reveal_strlit("3");
        reveal_strlit("4");
        reveal_strlit("5");
        reveal_strlit("6");
        reveal_strlit("7");
        reveal_strlit("8");
        reveal_strlit("9");
    }
    match d {
        0 => "0",
        1 => "1",
        2 => "2",
        3 => "3",
        4 => "4",
        5 => "5",
        6 => "6",
        7 => "7",
        8 => "8",
        _ => "9",
    }
}

/// Renders a natural number in base ten.
pub fn render_digits(n: u64) -> (s: String)
    ensures
        s@ == digits(n as nat),
    decreases n,
{
    if n < 10 {
        String::from_str(digit_str(n))
    } else {
        let mut s = render_digits(n / 10);
        s.append(digit_str(n % 10));
        s
    }
}

/// Renders an `i32` in base ten, as `format!("{}", n)` does.
pub fn render_i32(n: i32) -> (s: String)
    ensures
        s@ == decimal(n as int),
{
    if n < 0 {
        let magnitude: u64 = (0i64 - (n as i64)) as u64;
        let mut s = String::from_str("-");
        proof {
            reveal_strlit("-");
        }
        let rest = render_digits(magnitude);
        s.append(rest.as_str());
        s
    } else {
        render_digits(n as u64)
    }
}

/// The value of a decimal digit character.
pub open spec fn digit_value(c: char) -> int {
    c as int - '0' as int
}

/// The number that a string of decimal digits denotes, most significant first.
pub open spec fn read_digits(s: Seq<char>) -> int
    decreases s.len(),
{
    if s.len() == 0 {
        0
    } else {
        read_digits(s.drop_last()) * 10 + digit_value(s.last())
    }
}

/// Every character of `s` is a decimal digit.
pub open spec fn all_digits(s: Seq<char>) -> bool {
    forall|i: int| 0 <= i < s.len() ==> '0' <= #[trigger] s[i] <= '9'
}

proof fn lemma_digit_char(d: int)
    requires
        0 <= d < 10,
    ensures
        digit_value(digit_char(d)) == d,
        '0' <= digit_char(d) <= '9',
{
    assert(seq!['0', '1', '2', '3', '4', '5', '6', '7', '8', '9'][d] == digit_char(d));
    if d == 0 { assert(digit_char(0) == '0'); }
    else if d == 1 { assert(digit_char(1) == '1'); }
    else if d == 2 { assert(digit_char(2) == '2'); }
    else if d == 3 { assert(digit_char(3) == '3'); }
    else if d == 4 { assert(digit_char(4) == '4'); }
    else if d == 5 { assert(digit_char(5) == '5'); }
    else if d == 6 { assert(digit_char(6) == '6'); }
    else if d == 7 { assert(digit_char(7) == '7'); }
    else if d == 8 { assert(digit_char(8) == '8'); }
    else { assert(digit_char(9) == '9'); }
}

/// The digits of a natural number are decimal digits, start with a nonzero digit
/// unless the number is 0, and read back as the number.
pub proof fn law_digits_read_back(n: nat)
    ensures
        digits(n).len() > 0,
        all_digits(digits(n)),
        read_digits(digits(n)) == n,
        n > 0 ==> digits(n)[0] != '0',
    decreases n,
{
    if n < 10 {
        lemma_digit_char(n as int);
        assert(digits(n).drop_last() =~= Seq::<char>::empty());
        assert(read_digits(Seq::<char>::empty()) == 0);
        assert(read_digits(digits(n)) == read_digits(digits(n).drop_last()) * 10 + digit_value(
            digits(n).last(),
        ));
        if n > 0 {
            assert(digit_value(digits(n)[0]) == n);
        }
    } else {
        law_digits_read_back(n / 10);
        lemma_digit_char((n % 10) as int);
        let head = digits(n / 10);
        assert(digits(n).drop_last() =~= head);
        assert(digits(n).last() == digit_char((n % 10) as int));
        assert(read_digits(digits(n)) == read_digits(head) * 10 + digit_value(digits(n).last()));
        assert((n / 10) * 10 + n % 10 == n) by (nonlinear_arith);
        assert(digits(n)[0] == head[0]);
        assert forall|i: int| 0 <= i < digits(n).len() implies '0' <= #[trigger] digits(n)[i] <= '9' by {
            if i < head.len() {
                assert(digits(n)[i] == head[i]);
            }
        }
    }
}

/// The decimal text of an integer starts with `-` exactly when it is negative,
/// and the rest is the digits of its magnitude, which read back as the magnitude;
/// so different integers have different texts.
pub proof fn law_decimal_reads_back(n: int)
    ensures
        n >= 0 ==> all_digits(decimal(n)) && read_digits(decimal(n)) == n,
        n < 0 ==> decimal(n)[0] == '-' && all_digits(decimal(n).drop_first()) && read_digits(
            decimal(n).drop_first(),
        ) == -n,
        decimal(n).len() > 0,
{
    if n < 0 {
        law_digits_read_back((-n) as nat);
        assert(decimal(n).drop_first() =~= digits((-n) as nat));
    } else {
        law_digits_read_back(n as nat);
    }
}

} // verus!
