//! Decimal rendering of integers, as it appears in timestamps and query values.

use vstd::prelude::*;

verus! {

/// The character that stands for the digit `d`, for `0 <= d <= 9`.
pub open spec fn digit_char(d: int) -> char {
    if d == 0 {
        '0'
    } else if d == 1 {
        '1'
    } else if d == 2 {
        '2'
    } else if d == 3 {
        '3'
    } else if d == 4 {
        '4'
    } else if d == 5 {
        '5'
    } else if d == 6 {
        '6'
    } else if d == 7 {
        '7'
    } else if d == 8 {
        '8'
    } else {
        '9'
    }
}

/// The digits of `n` in base ten, most significant first, without leading
/// zeros; zero is the single digit `0`.
pub open spec fn decimal_digits(n: nat) -> Seq<char>
    decreases n,
{
    if n < 10 {
        seq![digit_char(n as int)]
    } else {
        decimal_digits(n / 10).push(digit_char((n % 10) as int))
    }
}

/// The decimal text of an integer: a minus sign before the digits of a
/// negative number, no sign otherwise.
pub open spec fn decimal(i: int) -> Seq<char> {
    if i < 0 {
        seq!['-'] + decimal_digits((-i) as nat)
    } else {
        decimal_digits(i as nat)
    }
}

/// The number that a sequence of digit characters denotes in base ten.
pub open spec fn digits_value(s: Seq<char>) -> nat
    decreases s.len(),
{
    if s.len() == 0 {
        0
    } else {
        digits_value(s.drop_last()) * 10 + char_digit(s.last())
    }
}

/// The digit that a character stands for; zero for any other character.
pub open spec fn char_digit(c: char) -> nat {
    if c == '1' {
        1
    } else if c == '2' {
        2
    } else if c == '3' {
        3
    } else if c == '4' {
        4
    } else if c == '5' {
        5
    } else if c == '6' {
        6
    } else if c == '7' {
        7
    } else if c == '8' {
        8
    } else if c == '9' {
        9
    } else {
        0
    }
}

/// Reading the digits of `n` gives `n` back.
pub proof fn lemma_digits_value(n: nat)
    ensures
        digits_value(decimal_digits(n)) == n,
        decimal_digits(n).len() >= 1,
        forall|i: int| 0 <= i < decimal_digits(n).len() ==> decimal_digits(n)[i] != '-',
    decreases n,
{
    if n < 10 {
        let s = decimal_digits(n);
        assert(s.drop_last().len() == 0);
        assert(digits_value(s.drop_last()) == 0);
    } else {
        lemma_digits_value(n / 10);
        let s = decimal_digits(n);
        assert(s.drop_last() =~= decimal_digits(n / 10));
    }
}

/// A decimal text holds digits and at most a minus sign: visible ASCII
/// characters all.
pub proof fn lemma_decimal_visible(i: int)
    ensures
        forall|k: int| 0 <= k < decimal(i).len() ==> ' ' <= #[trigger] decimal(i)[k] <= '~',
{
    let n: nat = if i < 0 { (-i) as nat } else { i as nat };
    lemma_digits_visible(n);
    let d = decimal_digits(n);
    assert forall|k: int| 0 <= k < decimal(i).len() implies ' ' <= #[trigger] decimal(i)[k] <= '~' by {
        if i < 0 {
            if k > 0 {
                assert(decimal(i)[k] == d[k - 1]);
            }
        }
    }
}

proof fn lemma_digits_visible(n: nat)
    ensures
        forall|k: int| 0 <= k < decimal_digits(n).len() ==> ' ' <= #[trigger] decimal_digits(n)[k] <= '~',
    decreases n,
{
    let s = decimal_digits(n);
    if n >= 10 {
        lemma_digits_visible(n / 10);
        let shorter = decimal_digits(n / 10);
        assert forall|k: int| 0 <= k < s.len() implies ' ' <= #[trigger] s[k] <= '~' by {
            if k < shorter.len() {
                assert(s[k] == shorter[k]);
            } else {
                assert(s[k] == digit_char((n % 10) as int));
            }
        }
    } else {
        assert(s[0] == digit_char(n as int));
    }
}

/// Two integers with the same decimal text are the same integer.
pub proof fn lemma_decimal_injective(a: int, b: int)
    requires
        decimal(a) == decimal(b),
    ensures
        a == b,
{
    let na: nat = if a < 0 { (-a) as nat } else { a as nat };
    let nb: nat = if b < 0 { (-b) as nat } else { b as nat };
    lemma_digits_value(na);
    lemma_digits_value(nb);
    let da = decimal_digits(na);
    let db = decimal_digits(nb);
    if a < 0 {
        assert(decimal(a)[0] == '-');
        assert((seq!['-'] + da).subrange(1, 1 + da.len() as int) =~= da);
    } else {
        assert(decimal(a)[0] == da[0]);
    }
    if b < 0 {
        assert(decimal(b)[0] == '-');
        assert((seq!['-'] + db).subrange(1, 1 + db.len() as int) =~= db);
    } else {
        assert(decimal(b)[0] == db[0]);
    }
}

fn digit_text(d: u8) -> (text: &'static str)
    requires
        d < 10,
    ensures
        text@ == seq![digit_char(d as int)],
{
    proof {
        reveal_strlit("0");
        reveal_strlit("1");
        reveal_strlit("2");
        reveal_strlit("3");
        reveal_strlit("4");
        reveal_strlit("5");
        reveal_strlit("6");
        reveal_strlit("7");
        reveal_strlit("8");
        reveal_strlit("9");
    }
    let text = if d == 0 {
        "0"
    } else if d == 1 {
        "1"
    } else if d == 2 {
        "2"
    } else if d == 3 {
        "3"
    } else if d == 4 {
        "4"
    } else if d == 5 {
        "5"
    } else if d == 6 {
        "6"
    } else if d == 7 {
        "7"
    } else if d == 8 {
        "8"
    } else {
        "9"
    };
    assert(text@ =~= seq![digit_char(d as int)]);
    text
}

/// Appends the digits of `n` to `text`.
pub fn push_decimal(text: &mut String, n: u64)
    ensures
        final(text)@ == old(text)@ + decimal_digits(n as nat),
    decreases n,
{
    if n >= 10 {
        push_decimal(text, n / 10);
    }
    let ghost before = text@;
    let d: u8 = (n % 10) as u8;
    text.append(digit_text(d));
    proof {
        if n >= 10 {
            assert(text@ =~= old(text)@ + decimal_digits(n as nat));
        } else {
            assert(text@ =~= old(text)@ + decimal_digits(n as nat));
        }
    }
}

/// The decimal text of an unsigned integer.
pub fn decimal_u64(n: u64) -> (text: String)
    ensures
        text@ == decimal(n as int),
{
    let mut text = String::new();
    push_decimal(&mut text, n);
    assert(text@ =~= decimal(n as int));
    text
}

/// The decimal text of a signed integer.
pub fn decimal_i64(value: i64) -> (text: String)
    ensures
        text@ == decimal(value as int),
{
    let mut text = String::new();
    if value < 0 {
        let magnitude: u64 = if value == i64::MIN {
            9223372036854775808u64
        } else {
            (-value) as u64
        };
        proof {
            reveal_strlit("-");
        }
        text.append("-");
        push_decimal(&mut text, magnitude);
        assert(text@ =~= decimal(value as int));
    } else {
        push_decimal(&mut text, value as u64);
        assert(text@ =~= decimal(value as int));
    }
    text
}

} // verus!
