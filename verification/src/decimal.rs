//! Unsigned decimal numerals: the text form in which settings are written,
//! and the text form in which limits are reported back.
use vstd::prelude::*;

verus! {

/// Whether `c` is one of the ASCII digits `0` to `9`.
pub open spec fn is_ascii_digit(c: char) -> bool {
    '0' <= c && c <= '9'
}

/// The number that an ASCII digit stands for.
pub open spec fn digit_value(c: char) -> nat {
    ((c as int) - ('0' as int)) as nat
}

/// The ASCII digit that stands for `d` (for `d < 10`).
pub open spec fn digit_char(d: nat) -> char {
    (('0' as int) + d) as char
}

/// Whether every character of `s` is an ASCII digit.
pub open spec fn all_digits(s: Seq<char>) -> bool {
    forall|i: int| 0 <= i < s.len() ==> is_ascii_digit(#[trigger] s[i])
}

/// The number that a string of digits denotes, most significant digit first.
pub open spec fn digits_value(s: Seq<char>) -> nat
    decreases s.len(),
{
    if s.len() == 0 {
        0
    } else {
        digits_value(s.drop_last()) * 10 + digit_value(s.last())
    }
}

/// The digits after an optional leading `+`.
pub open spec fn unsigned_digits(s: Seq<char>) -> Seq<char> {
    if s.len() > 0 && s[0] == '+' {
        s.drop_first()
    } else {
        s
    }
}

/// The number that `s` denotes as an unsigned decimal numeral: an optional `+`
/// followed by at least one ASCII digit, and nothing else (no sign `-`, no
/// whitespace, no separators). `None` for any other text.
pub open spec fn unsigned_decimal(s: Seq<char>) -> Option<nat> {
    let digits = unsigned_digits(s);
    if digits.len() > 0 && all_digits(digits) {
        Some(digits_value(digits))
    } else {
        None
    }
}

/// The number that `s` denotes as an unsigned decimal numeral, where it is at
/// most `max`.
pub open spec fn decimal_at_most(s: Seq<char>, max: nat) -> Option<nat> {
    match unsigned_decimal(s) {
        Some(v) => if v <= max {
            Some(v)
        } else {
            None
        },
        None => None,
    }
}

/// The shortest decimal numeral of `n`: no sign, no leading zero.
pub open spec fn decimal_digits(n: nat) -> Seq<char>
    decreases n,
{
    if n < 10 {
        seq![digit_char(n)]
    } else {
        decimal_digits(n / 10).push(digit_char(n % 10))
    }
}

proof fn lemma_digit_char(d: nat)
    requires
        d < 10,
    ensures
        is_ascii_digit(digit_char(d)),
        digit_value(digit_char(d)) == d,
        digit_char(d) != '+',
{
}

proof fn lemma_digits_value_extends(s: Seq<char>, k: int)
    requires
        all_digits(s),
        0 <= k <= s.len(),
    ensures
        digits_value(s.take(k)) <= digits_value(s),
    decreases s.len() - k,
{
    if k < s.len() {
        lemma_digits_value_extends(s, k + 1);
        assert(s.take(k + 1).drop_last() =~= s.take(k));
    }
    assert(s.take(s.len() as int) =~= s);
}

/// The numeral of a number is a non-empty string of digits that denotes it.
pub proof fn lemma_decimal_digits_shape(n: nat)
    ensures
        decimal_digits(n).len() > 0,
        all_digits(decimal_digits(n)),
        digits_value(decimal_digits(n)) == n,
        decimal_digits(n)[0] != '+',
    decreases n,
{
    if n < 10 {
        lemma_digit_char(n);
        assert(seq![digit_char(n)].drop_last() =~= Seq::<char>::empty());
        assert(digits_value(Seq::<char>::empty()) == 0);
    } else {
        lemma_decimal_digits_shape(n / 10);
        lemma_digit_char(n % 10);
        let prefix = decimal_digits(n / 10);
        assert(decimal_digits(n).drop_last() =~= prefix);
        assert(decimal_digits(n).last() == digit_char(n % 10));
        assert(digits_value(decimal_digits(n)) == digits_value(prefix) * 10 + digit_value(
            digit_char(n % 10),
        ));
        assert((n / 10) * 10 + n % 10 == n);
        assert(all_digits(decimal_digits(n))) by {
            assert forall|i: int| 0 <= i < decimal_digits(n).len() implies is_ascii_digit(
                #[trigger] decimal_digits(n)[i],
            ) by {
                if i < prefix.len() {
                    assert(decimal_digits(n)[i] == prefix[i]);
                }
            }
        }
    }
}

/// A leading zero does not change the number of a string of digits.
pub proof fn lemma_leading_zero(s: Seq<char>)
    requires
        all_digits(s),
    ensures
        digits_value(seq!['0'] + s) == digits_value(s),
    decreases s.len(),
{
    if s.len() == 0 {
        assert((seq!['0'] + s).drop_last() =~= Seq::<char>::empty());
        assert(digits_value(Seq::<char>::empty()) == 0);
    } else {
        let p = s.drop_last();
        assert(all_digits(p)) by {
            assert forall|k: int| 0 <= k < p.len() implies is_ascii_digit(#[trigger] p[k]) by {
                assert(p[k] == s[k]);
            }
        }
        lemma_leading_zero(p);
        assert((seq!['0'] + s).drop_last() =~= seq!['0'] + p);
        assert((seq!['0'] + s).last() == s.last());
    }
}

/// Reading back the numeral of a number gives that number.
pub proof fn lemma_decimal_round_trip(n: nat)
    ensures
        unsigned_decimal(decimal_digits(n)) == Some(n),
{
    lemma_decimal_digits_shape(n);
}

/// Reads `text` as an unsigned decimal numeral no greater than `max`.
pub fn parse_unsigned_at_most(text: &str, max: u64) -> (res: Option<u64>)
    ensures
        match decimal_at_most(text@, max as nat) {
            Some(v) => res == Some(v as u64),
            None => res is None,
        },
{
    let len = text.unicode_len();
    let ghost s = text@;
    let mut start: usize = 0;
    if len > 0 && text.get_char(0) == '+' {
        start = 1;
    }
    let ghost digits = unsigned_digits(s);
    assert(digits =~= s.subrange(start as int, s.len() as int));
    if start == len {
        return None;
    }
    let mut acc: u64 = 0;
    let mut i: usize = start;
    while i < len
        invariant
            s == text@,
            len == s.len(),
            start <= i <= len,
            start < len,
            digits == s.subrange(start as int, len as int),
            digits == unsigned_digits(s),
            all_digits(digits.take(i - start)),
            acc == digits_value(digits.take(i - start)),
            acc <= max,
        decreases len - i,
    {
        let c = text.get_char(i);
        assert(c == digits[i - start]);
        if !('0' <= c && c <= '9') {
            assert(!all_digits(digits));
            assert(unsigned_decimal(s) is None);
            return None;
        }
        let d: u64 = (c as u32 - '0' as u32) as u64;
        assert(digits.take(i + 1 - start).drop_last() =~= digits.take(i - start));
        assert(digits.take(i + 1 - start).last() == c);
        assert(digit_value(c) == d);
        assert(digits_value(digits.take(i + 1 - start)) == acc * 10 + d);
        if acc > max / 10 {
            assert(acc * 10 > max) by (nonlinear_arith)
                requires
                    acc > max / 10,
            ;
            proof {
                if all_digits(digits) {
                    lemma_digits_value_extends(digits, i + 1 - start);
                    assert(digits_value(digits) > max);
                }
                assert(decimal_at_most(s, max as nat) is None);
            }
            return None;
        }
        assert(acc * 10 <= max) by (nonlinear_arith)
            requires
                acc <= max / 10,
        ;
        if d > max || acc * 10 > max - d {
            proof {
                if all_digits(digits) {
                    lemma_digits_value_extends(digits, i + 1 - start);
                    assert(digits_value(digits) > max);
                }
                assert(decimal_at_most(s, max as nat) is None);
            }
            return None;
        }
        acc = acc * 10 + d;
        assert(all_digits(digits.take(i + 1 - start))) by {
            assert forall|j: int| 0 <= j < digits.take(i + 1 - start).len() implies is_ascii_digit(
                #[trigger] digits.take(i + 1 - start)[j],
            ) by {
                if j < i - start {
                    assert(digits.take(i + 1 - start)[j] == digits.take(i - start)[j]);
                }
            }
        }
        i = i + 1;
    }
    assert(digits.take(len - start) =~= digits);
    Some(acc)
}

/// A one-character string holding the digit for `d`.
fn digit_text(d: u64) -> (res: &'static str)
    requires
        d < 10,
    ensures
        res@ == seq![digit_char(d as nat)],
{
    proof {
        reveal_strlit("0");
        reveal_strlit("1");
        reveal_strlit("2");
        reveal_strlit("3");
        reveal_strlit("4");
        reveal_strlit("5");
        reveal_strlit("6");
        reveal_strlit("7");
        reveal_strlit("8");
        reveal_strlit("9");
    }
    match d {
        0 => "0",
        1 => "1",
        2 => "2",
        3 => "3",
        4 => "4",
        5 => "5",
        6 => "6",
        7 => "7",
        8 => "8",
        _ => "9",
    }
}

/// The shortest decimal numeral of `n`.
pub fn decimal_text(n: u64) -> (res: String)
    ensures
        res@ == decimal_digits(n as nat),
    decreases n,
{
    if n < 10 {
        String::from_str(digit_text(n))
    } else {
        let mut text = decimal_text(n / 10);
        text.append(digit_text(n % 10));
        text
    }
}

} // verus!
