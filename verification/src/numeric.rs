//! Numeric texts: the texts that denote a floating-point number.

use vstd::prelude::*;
use vstd::slice::slice_subrange;

verus! {

/// Whether `c` is a decimal digit.
pub open spec fn is_digit(c: char) -> bool {
    '0' <= c && c <= '9'
}

/// Whether `c` is a plus or a minus sign.
pub open spec fn is_sign(c: char) -> bool {
    c == '+' || c == '-'
}

/// Whether `c` is the mark of an exponent.
pub open spec fn is_exponent_mark(c: char) -> bool {
    c == 'e' || c == 'E'
}

/// Whether `s` holds digits only.
pub open spec fn all_digits(s: Seq<char>) -> bool {
    forall|i: int| 0 <= i < s.len() ==> is_digit(#[trigger] s[i])
}

/// Whether `s` is one digit or more.
pub open spec fn is_digits(s: Seq<char>) -> bool {
    s.len() > 0 && all_digits(s)
}

/// Whether `s` has a point at `k` with digits only before and after it.
pub open spec fn splits_at_point(s: Seq<char>, k: int) -> bool {
    0 <= k < s.len() && s[k] == '.' && all_digits(s.subrange(0, k)) && all_digits(
        s.subrange(k + 1, s.len() as int),
    )
}

/// Whether `s` is a mantissa: digits, or digits around a point with a
/// digit on one side of it at least.
pub open spec fn is_mantissa(s: Seq<char>) -> bool {
    is_digits(s) || (s.len() > 1 && exists|k: int| splits_at_point(s, k))
}

/// Whether `s` is what follows the mark of an exponent: digits, perhaps
/// after a sign.
pub open spec fn is_exponent(s: Seq<char>) -> bool {
    is_digits(s) || (s.len() > 0 && is_sign(s[0]) && is_digits(s.subrange(1, s.len() as int)))
}

/// Whether `s` has the mark of an exponent at `k`, a mantissa before it and
/// an exponent after it.
pub open spec fn splits_at_mark(s: Seq<char>, k: int) -> bool {
    0 <= k < s.len() && is_exponent_mark(s[k]) && is_mantissa(s.subrange(0, k)) && is_exponent(
        s.subrange(k + 1, s.len() as int),
    )
}

/// Whether `s` is a number without a sign: a mantissa, perhaps followed by
/// the mark of an exponent and an exponent.
pub open spec fn is_number(s: Seq<char>) -> bool {
    is_mantissa(s) || exists|k: int| splits_at_mark(s, k)
}

/// Whether `c` is the letter `lower` in either case.
pub open spec fn is_letter(c: char, lower: char, upper: char) -> bool {
    c == lower || c == upper
}

/// Whether `s` is `inf`, `infinity` or `nan`, in any mix of cases.
pub open spec fn is_special(s: Seq<char>) -> bool {
    ||| (s.len() == 3 && is_letter(s[0], 'i', 'I') && is_letter(s[1], 'n', 'N') && is_letter(
        s[2],
        'f',
        'F',
    ))
    ||| (s.len() == 3 && is_letter(s[0], 'n', 'N') && is_letter(s[1], 'a', 'A') && is_letter(
        s[2],
        'n',
        'N',
    ))
    ||| (s.len() == 8 && is_letter(s[0], 'i', 'I') && is_letter(s[1], 'n', 'N') && is_letter(
        s[2],
        'f',
        'F',
    ) && is_letter(s[3], 'i', 'I') && is_letter(s[4], 'n', 'N') && is_letter(s[5], 'i', 'I')
        && is_letter(s[6], 't', 'T') && is_letter(s[7], 'y', 'Y'))
}

/// Whether `s` is a numeric text without a sign.
pub open spec fn is_unsigned_numeric(s: Seq<char>) -> bool {
    is_special(s) || is_number(s)
}

/// Whether `s` is a numeric text: a number or one of the three words,
/// perhaps after a sign, with nothing before or after.
pub open spec fn is_numeric(s: Seq<char>) -> bool {
    is_unsigned_numeric(s) || (s.len() > 0 && is_sign(s[0]) && is_unsigned_numeric(
        s.subrange(1, s.len() as int),
    ))
}

/// A mantissa holds digits and points only.
pub proof fn lemma_mantissa_characters(s: Seq<char>)
    requires
        is_mantissa(s),
    ensures
        forall|i: int| 0 <= i < s.len() ==> is_digit(#[trigger] s[i]) || s[i] == '.',
{
    if !is_digits(s) {
        let k = choose|k: int| splits_at_point(s, k);
        assert forall|i: int| 0 <= i < s.len() implies is_digit(#[trigger] s[i]) || s[i] == '.' by {
            if i < k {
                assert(s.subrange(0, k)[i] == s[i]);
            } else if i > k {
                assert(s.subrange(k + 1, s.len() as int)[i - k - 1] == s[i]);
            }
        }
    }
}

fn digit(c: char) -> (r: bool)
    ensures
        r == is_digit(c),
{
    '0' <= c && c <= '9'
}

fn sign(c: char) -> (r: bool)
    ensures
        r == is_sign(c),
{
    c == '+' || c == '-'
}

fn letter(c: char, lower: char, upper: char) -> (r: bool)
    ensures
        r == is_letter(c, lower, upper),
{
    c == lower || c == upper
}

/// The end of the run of digits that begins at `from`.
fn digits_end(s: &[char], from: usize) -> (end: usize)
    requires
        from <= s@.len(),
    ensures
        from <= end <= s@.len(),
        forall|i: int| from <= i < end ==> is_digit(#[trigger] s@[i]),
        end < s@.len() ==> !is_digit(s@[end as int]),
{
    let mut end: usize = from;
    while end < s.len() && digit(s[end])
        invariant
            from <= end <= s@.len(),
            forall|i: int| from <= i < end ==> is_digit(#[trigger] s@[i]),
        decreases s@.len() - end,
    {
        end += 1;
    }
    end
}

fn digits(s: &[char]) -> (r: bool)
    ensures
        r == is_digits(s@),
{
    let end = digits_end(s, 0);
    s.len() > 0 && end == s.len()
}

fn mantissa(s: &[char]) -> (r: bool)
    ensures
        r == is_mantissa(s@),
{
    let a = digits_end(s, 0);
    if a == s.len() {
        proof {
            assert(all_digits(s@));
            assert forall|k: int| !splits_at_point(s@, k) by {
                if 0 <= k < s@.len() {
                    assert(is_digit(s@[k]));
                }
            }
        }
        return a > 0;
    }
    proof {
        assert(!is_digit(s@[a as int]));
        assert(!all_digits(s@));
        assert forall|k: int| k != a implies !splits_at_point(s@, k) by {
            if 0 <= k < s@.len() {
                if k < a {
                    assert(is_digit(s@[k]));
                } else {
                    assert(s@.subrange(0, k)[a as int] == s@[a as int]);
                }
            }
        }
    }
    if s[a] != '.' {
        return false;
    }
    let b = digits_end(s, a + 1);
    proof {
        if b == s@.len() {
            assert(all_digits(s@.subrange(0, a as int)));
            assert(all_digits(s@.subrange(a + 1, s@.len() as int)));
            assert(splits_at_point(s@, a as int));
        } else {
            assert(s@.subrange(a + 1, s@.len() as int)[b - a - 1] == s@[b as int]);
            assert(!splits_at_point(s@, a as int));
        }
    }
    b == s.len() && s.len() > 1
}

fn exponent(s: &[char]) -> (r: bool)
    ensures
        r == is_exponent(s@),
{
    if s.len() == 0 {
        return false;
    }
    if sign(s[0]) {
        assert(!is_digit(s@[0]));
        digits(slice_subrange(s, 1, s.len()))
    } else {
        digits(s)
    }
}

/// The place of the first mark of an exponent, or the length where there
/// is none.
fn first_mark(s: &[char]) -> (k: usize)
    ensures
        k <= s@.len(),
        forall|i: int| 0 <= i < k ==> !is_exponent_mark(#[trigger] s@[i]),
        k < s@.len() ==> is_exponent_mark(s@[k as int]),
{
    let mut k: usize = 0;
    while k < s.len() && !(s[k] == 'e' || s[k] == 'E')
        invariant
            k <= s@.len(),
            forall|i: int| 0 <= i < k ==> !is_exponent_mark(#[trigger] s@[i]),
        decreases s@.len() - k,
    {
        k += 1;
    }
    k
}

fn number(s: &[char]) -> (r: bool)
    ensures
        r == is_number(s@),
{
    let k = first_mark(s);
    if k == s.len() {
        proof {
            assert forall|j: int| !splits_at_mark(s@, j) by {
                if 0 <= j < s@.len() {
                    assert(!is_exponent_mark(s@[j]));
                }
            }
        }
        return mantissa(s);
    }
    proof {
        if is_mantissa(s@) {
            lemma_mantissa_characters(s@);
            assert(is_digit(s@[k as int]) || s@[k as int] == '.');
        }
        assert forall|j: int| j != k implies !splits_at_mark(s@, j) by {
            if 0 <= j < s@.len() {
                if j < k {
                    assert(!is_exponent_mark(s@[j]));
                } else if is_mantissa(s@.subrange(0, j)) {
                    lemma_mantissa_characters(s@.subrange(0, j));
                    assert(s@.subrange(0, j)[k as int] == s@[k as int]);
                }
            }
        }
    }
    let before = mantissa(slice_subrange(s, 0, k));
    let after = exponent(slice_subrange(s, k + 1, s.len()));
    proof {
        assert(is_exponent_mark(s@[k as int]));
        assert(!is_digit(s@[k as int]) && s@[k as int] != '.');
        assert(!is_mantissa(s@));
        assert((before && after) == splits_at_mark(s@, k as int));
        if is_number(s@) {
            let j = choose|j: int| splits_at_mark(s@, j);
            assert(j == k);
        }
    }
    before && after
}

fn special(s: &[char]) -> (r: bool)
    ensures
        r == is_special(s@),
{
    if s.len() == 3 {
        (letter(s[0], 'i', 'I') && letter(s[1], 'n', 'N') && letter(s[2], 'f', 'F')) || (letter(
            s[0],
            'n',
            'N',
        ) && letter(s[1], 'a', 'A') && letter(s[2], 'n', 'N'))
    } else if s.len() == 8 {
        letter(s[0], 'i', 'I') && letter(s[1], 'n', 'N') && letter(s[2], 'f', 'F') && letter(
            s[3],
            'i',
            'I',
        ) && letter(s[4], 'n', 'N') && letter(s[5], 'i', 'I') && letter(s[6], 't', 'T') && letter(
            s[7],
            'y',
            'Y',
        )
    } else {
        false
    }
}

fn unsigned_numeric(s: &[char]) -> (r: bool)
    ensures
        r == is_unsigned_numeric(s@),
{
    special(s) || number(s)
}

/// Whether a sequence of characters is a numeric text.
pub fn numeric(s: &[char]) -> (r: bool)
    ensures
        r == is_numeric(s@),
{
    if unsigned_numeric(s) {
        return true;
    }
    s.len() > 0 && sign(s[0]) && unsigned_numeric(slice_subrange(s, 1, s.len()))
}

/// The characters of a text.
pub fn characters(text: &str) -> (chars: Vec<char>)
    ensures
        chars@ == text@,
{
    let n = text.unicode_len();
    let mut chars: Vec<char> = Vec::new();
    let mut i: usize = 0;
    while i < n
        invariant
            0 <= i <= n,
            n == text@.len(),
            chars@ == text@.subrange(0, i as int),
        decreases n - i,
    {
        chars.push(text.get_char(i));
        assert(chars@ =~= text@.subrange(0, i + 1));
        i += 1;
    }
    assert(text@.subrange(0, n as int) =~= text@);
    chars
}

/// Whether a text is numeric: whether it denotes a floating-point number.
pub fn is_numeric_text(text: &str) -> (r: bool)
    ensures
        r == is_numeric(text@),
{
    let chars = characters(text);
    numeric(chars.as_slice())
}

} // verus!
