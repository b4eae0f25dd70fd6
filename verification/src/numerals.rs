//! Decimal numerals inside raw cursor strings.
//!
//! Offset cursors carry their numeric fields as plain decimal digit runs.
//! Parsing is deliberately lenient at the call sites (see the cursor types):
//! a segment parses only when it is a non-empty run of ASCII digits whose
//! value fits an `i32`; anything else is "unparsable" and the caller falls
//! back to a default instead of failing.

use vstd::prelude::*;

verus! {

/// Whether `c` is an ASCII decimal digit.
pub open spec fn is_digit(c: char) -> bool {
    c == '0' || c == '1' || c == '2' || c == '3' || c == '4' || c == '5' || c == '6' || c == '7'
        || c == '8' || c == '9'
}

/// The numeric value of a digit character (zero on non-digits).
pub open spec fn digit_val(c: char) -> int {
    if c == '1' {
        1
    } else if c == '2' {
        2
    } else if c == '3' {
        3
    } else if c == '4' {
        4
    } else if c == '5' {
        5
    } else if c == '6' {
        6
    } else if c == '7' {
        7
    } else if c == '8' {
        8
    } else if c == '9' {
        9
    } else {
        0
    }
}

/// The digit character for a value in `0..10` (zero otherwise).
pub open spec fn digit_char(v: int) -> char {
    if v == 1 {
        '1'
    } else if v == 2 {
        '2'
    } else if v == 3 {
        '3'
    } else if v == 4 {
        '4'
    } else if v == 5 {
        '5'
    } else if v == 6 {
        '6'
    } else if v == 7 {
        '7'
    } else if v == 8 {
        '8'
    } else if v == 9 {
        '9'
    } else {
        '0'
    }
}

/// Whether every character of `s` is an ASCII decimal digit.
pub open spec fn all_digits(s: Seq<char>) -> bool {
    forall|i: int| 0 <= i < s.len() ==> is_digit(#[trigger] s[i])
}

/// The value of a digit run read as a decimal numeral.
pub open spec fn digits_val(s: Seq<char>) -> int
    decreases s.len(),
{
    if s.len() == 0 {
        0
    } else {
        digits_val(s.drop_last()) * 10 + digit_val(s.last())
    }
}

/// The canonical decimal numeral of a non-negative value (no leading zeros,
/// except for the single digit `0` itself).
pub open spec fn dec_str(n: int) -> Seq<char>
    decreases n,
{
    if n < 10 {
        seq![digit_char(n)]
    } else {
        dec_str(n / 10) + seq![digit_char(n % 10)]
    }
}

/// How a cursor segment is read as a number: a non-empty all-digit run whose
/// value fits an `i32` parses to that value; everything else is unparsable.
pub open spec fn parse_nonneg(s: Seq<char>) -> Option<i32> {
    if s.len() > 0 && all_digits(s) && digits_val(s) <= i32::MAX {
        Some(digits_val(s) as i32)
    } else {
        None
    }
}

/// A digit run has a non-negative value.
pub proof fn lemma_digits_val_nonneg(s: Seq<char>)
    requires
        all_digits(s),
    ensures
        digits_val(s) >= 0,
    decreases s.len(),
{
    if s.len() > 0 {
        assert(all_digits(s.drop_last())) by {
            assert(forall|i: int| 0 <= i < s.len() - 1 ==> s.drop_last()[i] == s[i]);
        }
        lemma_digits_val_nonneg(s.drop_last());
    }
}

/// Extending a digit run to the right never lowers its value.
pub proof fn lemma_digits_val_prefix(s: Seq<char>, k: int)
    requires
        all_digits(s),
        0 <= k <= s.len(),
    ensures
        digits_val(s.take(k)) <= digits_val(s),
    decreases s.len() - k,
{
    if k < s.len() {
        let t = s.take(k + 1);
        assert(all_digits(t)) by {
            assert(forall|i: int| 0 <= i < k + 1 ==> t[i] == s[i]);
        }
        assert(t.drop_last() =~= s.take(k));
        lemma_digits_val_nonneg(t.drop_last());
        assert(digits_val(t) == digits_val(s.take(k)) * 10 + digit_val(t.last()));
        assert(digits_val(s.take(k)) <= digits_val(t));
        lemma_digits_val_prefix(s, k + 1);
        assert(s.take(k + 1) == t);
    } else {
        assert(s.take(k) =~= s);
    }
}

/// The canonical numeral of a non-negative value is a non-empty digit run.
pub proof fn lemma_dec_str_digits(n: int)
    requires
        n >= 0,
    ensures
        dec_str(n).len() >= 1,
        all_digits(dec_str(n)),
    decreases n,
{
    if n >= 10 {
        lemma_dec_str_digits(n / 10);
        assert forall|i: int| 0 <= i < dec_str(n).len() implies is_digit(dec_str(n)[i]) by {
            if i < dec_str(n / 10).len() {
                assert(dec_str(n)[i] == dec_str(n / 10)[i]);
            } else {
                assert(dec_str(n)[i] == digit_char(n % 10));
            }
        }
    }
}

/// Reading the canonical numeral of `n` back gives `n`.
pub proof fn lemma_dec_str_val(n: int)
    requires
        n >= 0,
    ensures
        digits_val(dec_str(n)) == n,
    decreases n,
{
    if n < 10 {
        let s = dec_str(n);
        assert(s =~= seq![digit_char(n)]);
        assert(s.drop_last() =~= Seq::<char>::empty());
        assert(digits_val(s.drop_last()) == 0);
        assert(s.last() == digit_char(n));
        assert(digit_val(digit_char(n)) == n);
        assert(digits_val(s) == digits_val(s.drop_last()) * 10 + digit_val(s.last()));
    } else {
        lemma_dec_str_val(n / 10);
        let s = dec_str(n);
        assert(s.len() == dec_str(n / 10).len() + 1);
        assert(s.drop_last() =~= dec_str(n / 10));
        assert(s.last() == digit_char(n % 10));
        assert(digit_val(digit_char(n % 10)) == n % 10);
        assert(digits_val(s) == digits_val(s.drop_last()) * 10 + digit_val(s.last()));
        assert(digits_val(s) == (n / 10) * 10 + n % 10);
        assert((n / 10) * 10 + n % 10 == n);
    }
}

/// The canonical numeral of an `i32`-sized value parses back to it.
pub proof fn lemma_parse_dec_str(n: int)
    requires
        0 <= n <= i32::MAX,
    ensures
        parse_nonneg(dec_str(n)) == Some(n as i32),
{
    lemma_dec_str_digits(n);
    lemma_dec_str_val(n);
}

/// Returns the digit value of `c`, or `None` when `c` is not a digit.
fn digit_of(c: char) -> (r: Option<i32>)
    ensures
        r matches Some(v) ==> is_digit(c) && v == digit_val(c),
        r is None ==> !is_digit(c),
{
    match c {
        '0' => Some(0),
        '1' => Some(1),
        '2' => Some(2),
        '3' => Some(3),
        '4' => Some(4),
        '5' => Some(5),
        '6' => Some(6),
        '7' => Some(7),
        '8' => Some(8),
        '9' => Some(9),
        _ => None,
    }
}

/// Parses a segment as a non-negative decimal number, exactly as
/// [`parse_nonneg`] describes.
pub fn parse_decimal(s: &str) -> (r: Option<i32>)
    ensures
        r == parse_nonneg(s@),
{
    let n = s.unicode_len();
    if n == 0 {
        return None;
    }
    let mut acc: i32 = 0;
    let mut i: usize = 0;
    while i < n
        invariant
            0 < n == s@.len(),
            0 <= i <= n,
            all_digits(s@.take(i as int)),
            acc == digits_val(s@.take(i as int)),
            0 <= acc <= i32::MAX,
        decreases n - i,
    {
        let c = s.get_char(i);
        match digit_of(c) {
            None => {
                assert(!all_digits(s@)) by {
                    assert(s@[i as int] == c);
                }
                return None;
            },
            Some(d) => {
                if acc > (i32::MAX - d) / 10 {
                    proof {
                        assert(all_digits(s@.take(i + 1))) by {
                            assert(forall|j: int| 0 <= j < i ==> s@.take(i + 1)[j] == s@.take(
                                i as int,
                            )[j]);
                            assert(s@.take(i + 1)[i as int] == c);
                        }
                        assert(s@.take(i + 1).drop_last() =~= s@.take(i as int));
                        assert(digits_val(s@.take(i + 1)) == acc * 10 + d);
                        if all_digits(s@) {
                            lemma_digits_val_prefix(s@, i + 1);
                            assert(digits_val(s@) > i32::MAX);
                        }
                    }
                    return None;
                }
                proof {
                    assert(s@.take(i + 1).drop_last() =~= s@.take(i as int));
                    assert(s@.take(i + 1).last() == c);
                    assert(forall|j: int| 0 <= j < i ==> s@.take(i + 1)[j] == s@.take(
                        i as int,
                    )[j]);
                }
                acc = acc * 10 + d;
                i = i + 1;
            },
        }
    }
    proof {
        assert(s@.take(n as int) =~= s@);
    }
    Some(acc)
}

/// Returns a one-character string for a digit value in `0..10`.
fn digit_str(d: i32) -> (r: &'static str)
    requires
        0 <= d <= 9,
    ensures
        r@ == seq![digit_char(d as int)],
{
    proof {
        reveal_strlit("0");
        reveal_strlit("1");
        reveal_strlit("2");
        reveal_strlit("3");
        reveal_strlit("4");
        reveal_strlit("5");
        reveal_strlit("6");
        reveal_strlit("7");
        reveal_strlit("8");
        reveal_strlit("9");
    }
    let r = match d {
        0 => "0",
        1 => "1",
        2 => "2",
        3 => "3",
        4 => "4",
        5 => "5",
        6 => "6",
        7 => "7",
        8 => "8",
        _ => "9",
    };
    proof {
        assert(r@ =~= seq![digit_char(d as int)]);
    }
    r
}

/// Writes a non-negative value as its canonical decimal numeral.
pub fn format_decimal(n: i32) -> (r: String)
    requires
        n >= 0,
    ensures
        r@ == dec_str(n as int),
    decreases n,
{
    if n < 10 {
        let r = digit_str(n).to_owned();
        r
    } else {
        let mut r = format_decimal(n / 10);
        r.append(digit_str(n % 10));
        proof {
            assert(r@ =~= dec_str(n as int));
        }
        r
    }
}

} // verus!
