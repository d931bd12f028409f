//! Numbers written out in decimal.
use vstd::prelude::*;

verus! {

/// The digit that stands for `d`.
pub open spec fn digit(d: nat) -> char {
    if d == 0 {
        '0'
    } else if d == 1 {
        '1'
    } else if d == 2 {
        '2'
    } else if d == 3 {
        '3'
    } else if d == 4 {
        '4'
    } else if d == 5 {
        '5'
    } else if d == 6 {
        '6'
    } else if d == 7 {
        '7'
    } else if d == 8 {
        '8'
    } else {
        '9'
    }
}

/// `n` in decimal, without leading zeros.
pub open spec fn decimal(n: nat) -> Seq<char>
    decreases n,
{
    if n < 10 {
        seq![digit(n)]
    } else {
        decimal(n / 10) + seq![digit(n % 10)]
    }
}

/// `num / den` to the nearest whole number; a number halfway between two goes to
/// the even one.
pub open spec fn nearest(num: nat, den: nat) -> nat
    recommends
        den > 0,
{
    let low = num / den;
    let twice = 2 * (num % den);
    if twice < den || (twice == den && low % 2 == 0) {
        low
    } else {
        low + 1
    }
}

/// `cents / 100` in decimal, with two places after the point.
pub open spec fn two_places(cents: nat) -> Seq<char> {
    decimal(cents / 100) + seq!['.', digit(cents / 10 % 10), digit(cents % 10)]
}

fn digit_text(d: u64) -> (r: &'static str)
    requires
        d < 10,
    ensures
        r@ == seq![digit(d as nat)],
{
    proof {
        reveal_strlit("0");
        reveal_strlit("1");
        reveal_strlit("2");
        reveal_strlit("3");
        reveal_strlit("4");
        reveal_strlit("5");
        reveal_strlit("6");
        reveal_strlit("7");
        reveal_strlit("8");
        reveal_strlit("9");
    }
    if d == 0 {
        "0"
    } else if d == 1 {
        "1"
    } else if d == 2 {
        "2"
    } else if d == 3 {
        "3"
    } else if d == 4 {
        "4"
    } else if d == 5 {
        "5"
    } else if d == 6 {
        "6"
    } else if d == 7 {
        "7"
    } else if d == 8 {
        "8"
    } else {
        "9"
    }
}

/// Append `n` in decimal.
pub fn append_decimal(line: &mut String, n: u64)
    ensures
        final(line)@ == old(line)@ + decimal(n as nat),
    decreases n,
{
    if n >= 10 {
        append_decimal(line, n / 10);
    }
    line.append(digit_text(n % 10));
}

/// `num / den` to the nearest whole number, halves to the even one.
pub fn nearest_whole(num: u64, den: u64) -> (r: u64)
    requires
        1 <= den <= u64::MAX / 2,
    ensures
        r == nearest(num as nat, den as nat),
{
    let low: u64 = num / den;
    let twice: u64 = 2 * (num % den);
    if twice < den || (twice == den && low % 2 == 0) {
        low
    } else {
        proof {
            let n = num as int;
            let d = den as int;
            assert(d == 1 ==> n % d == 0) by (nonlinear_arith)
                requires
                    d >= 1,
            ;
            assert(d >= 2 ==> n / d <= n / 2) by (nonlinear_arith)
                requires
                    n >= 0,
            ;
        }
        low + 1
    }
}

/// Append `cents / 100` with two places after the point.
pub fn append_two_places(line: &mut String, cents: u64)
    ensures
        final(line)@ == old(line)@ + two_places(cents as nat),
{
    append_decimal(line, cents / 100);
    proof {
        reveal_strlit(".");
    }
    line.append(".");
    line.append(digit_text(cents / 10 % 10));
    line.append(digit_text(cents % 10));
    assert(line@ =~= old(line)@ + two_places(cents as nat));
}

/// The number that a row of digits stands for.
pub open spec fn read_decimal(text: Seq<char>) -> int
    decreases text.len(),
{
    if text.len() == 0 {
        0
    } else {
        10 * read_decimal(text.drop_last()) + (text.last() as int - 48)
    }
}

/// A number written out reads back as itself. It is written in digits, without a
/// leading zero unless it is zero.
pub proof fn law_decimal_reads_back(n: nat)
    ensures
        read_decimal(decimal(n)) == n,
        decimal(n).len() >= 1,
        forall|i: int| 0 <= i < decimal(n).len() ==> 48 <= #[trigger] decimal(n)[i] as int <= 57,
        decimal(n)[0] == '0' <==> n == 0,
        n == 0 ==> decimal(n).len() == 1,
    decreases n,
{
    lemma_digit(n % 10);
    if n < 10 {
        lemma_digit(n);
        assert(decimal(n).drop_last() =~= Seq::<char>::empty());
        assert(read_decimal(Seq::<char>::empty()) == 0);
    } else {
        law_decimal_reads_back(n / 10);
        assert(decimal(n).drop_last() =~= decimal(n / 10));
        assert(decimal(n)[0] == decimal(n / 10)[0]);
        assert forall|i: int| 0 <= i < decimal(n).len() implies 48 <= #[trigger] decimal(n)[i] as int
            <= 57 by {
            if i < decimal(n / 10).len() {
                assert(decimal(n)[i] == decimal(n / 10)[i]);
            }
        }
    }
}

proof fn lemma_digit(d: nat)
    requires
        d < 10,
    ensures
        digit(d) as int == 48 + d,
{
}

/// A rounded quotient is at most half away from the quotient, and even where it is
/// just half away.
pub proof fn law_nearest(num: nat, den: nat)
    requires
        den > 0,
    ensures
        2 * num <= 2 * nearest(num, den) * den + den,
        2 * nearest(num, den) * den <= 2 * num + den,
        2 * num == 2 * nearest(num, den) * den + den ==> nearest(num, den) % 2 == 0,
        2 * nearest(num, den) * den == 2 * num + den ==> nearest(num, den) % 2 == 0,
{
    vstd::arithmetic::div_mod::lemma_fundamental_div_mod(num as int, den as int);
    let low = (num / den) as int;
    let rest = (num % den) as int;
    let d = den as int;
    assert(2 * low * d == 2 * (d * low)) by (nonlinear_arith);
    assert(2 * (low + 1) * d == 2 * (d * low) + 2 * d) by (nonlinear_arith);
}

/// Hundredths written out: the whole part, a point and two digits, which read
/// together as the number of hundredths.
pub proof fn law_two_places(cents: nat)
    ensures
        ({
            let text = two_places(cents);
            let point = text.len() - 3;
            &&& text.len() >= 4
            &&& text[point] == '.'
            &&& text.take(point) == decimal(cents / 100)
            &&& 48 <= text[point + 1] as int <= 57
            &&& 48 <= text[point + 2] as int <= 57
            &&& read_decimal(text.take(point) + text.skip(point + 1)) == cents
        }),
{
    let text = two_places(cents);
    let point = text.len() - 3;
    let whole = decimal(cents / 100);
    law_decimal_reads_back(cents / 100);
    lemma_digit(cents / 10 % 10);
    lemma_digit(cents % 10);
    assert(text.take(point) =~= whole);
    let digits = text.take(point) + text.skip(point + 1);
    assert(digits.drop_last().drop_last() =~= whole);
    assert(digits.last() == digit(cents % 10));
    assert(digits.drop_last().last() == digit(cents / 10 % 10));
    assert(read_decimal(digits.drop_last()) == 10 * read_decimal(whole) + (cents / 10 % 10));
    assert(read_decimal(digits) == 10 * read_decimal(digits.drop_last()) + (cents % 10));
}

} // verus!
