//! Unsigned decimal numbers written as text, as `str::parse` reads them for
//! unsigned integer types: an optional `+` sign, then one or more ASCII
//! digits, and nothing else.
use vstd::prelude::*;
use vstd::string::{is_ascii, is_ascii_spec_bytes, StringSliceAdditionalSpecFns};

verus! {

/// Whether `c` is one of the ASCII decimal digits.
pub open spec fn is_digit(c: char) -> bool {
    '0' <= c && c <= '9'
}

/// The value of the digit `c`.
pub open spec fn digit_value(c: char) -> nat {
    (c as nat - '0' as nat) as nat
}

/// Whether every character of `s` is a decimal digit.
pub open spec fn all_digits(s: Seq<char>) -> bool {
    forall|i: int| 0 <= i < s.len() ==> is_digit(#[trigger] s[i])
}

/// The number that the digits `s` spell, most significant first.
pub open spec fn digits_value(s: Seq<char>) -> nat
    decreases s.len(),
{
    if s.len() == 0 {
        0
    } else {
        digits_value(s.drop_last()) * 10 + digit_value(s.last())
    }
}

/// `s` without the one `+` sign that may stand in front of the digits.
pub open spec fn unsigned_digits(s: Seq<char>) -> Seq<char> {
    if s.len() > 0 && s[0] == '+' {
        s.skip(1)
    } else {
        s
    }
}

/// The number that `s` writes in decimal, where it writes one no larger than
/// `max`; `None` for any other text (empty, a lone sign, a `-` sign,
/// whitespace, any other character, or a number above `max`).
pub open spec fn unsigned_value(s: Seq<char>, max: nat) -> Option<nat> {
    let d = unsigned_digits(s);
    if d.len() > 0 && all_digits(d) && digits_value(d) <= max {
        Some(digits_value(d))
    } else {
        None
    }
}

/// The digit that stands for `d`, for `d` below ten.
pub open spec fn digit_char(d: nat) -> char {
    seq!['0', '1', '2', '3', '4', '5', '6', '7', '8', '9'][d as int]
}

/// The shortest decimal text of `n`: no sign and no leading zero.
pub open spec fn decimal_text(n: nat) -> Seq<char>
    decreases n,
{
    if n < 10 {
        seq![digit_char(n)]
    } else {
        decimal_text(n / 10).push(digit_char(n % 10))
    }
}

/// The digit for `d` is a digit, and it is worth `d`.
proof fn lemma_digit_char(d: nat)
    requires
        d < 10,
    ensures
        is_digit(digit_char(d)),
        digit_value(digit_char(d)) == d,
{
    let digits = seq!['0', '1', '2', '3', '4', '5', '6', '7', '8', '9'];
    assert(digits[0] == '0' && digits[1] == '1' && digits[2] == '2' && digits[3] == '3');
    assert(digits[4] == '4' && digits[5] == '5' && digits[6] == '6');
    assert(digits[7] == '7' && digits[8] == '8' && digits[9] == '9');
}

/// A prefix of a string of digits is worth no more than the whole.
proof fn lemma_prefix_value_bounded(s: Seq<char>, j: int)
    requires
        0 <= j <= s.len(),
        all_digits(s),
    ensures
        digits_value(s.take(j)) <= digits_value(s),
    decreases s.len(),
{
    if j < s.len() {
        let p = s.drop_last();
        assert(p.take(j) =~= s.take(j));
        lemma_prefix_value_bounded(p, j);
    } else {
        assert(s.take(j) =~= s);
    }
}

/// The text `decimal_text(n)` is a string of digits that spells `n`.
proof fn lemma_decimal_text_spells(n: nat)
    ensures
        decimal_text(n).len() > 0,
        all_digits(decimal_text(n)),
        digits_value(decimal_text(n)) == n,
        decimal_text(n)[0] != '+',
    decreases n,
{
    if n < 10 {
        lemma_digit_char(n);
        let t = decimal_text(n);
        assert(t.drop_last() =~= Seq::<char>::empty());
        assert(digits_value(t.drop_last()) == 0);
    } else {
        lemma_digit_char(n % 10);
        lemma_decimal_text_spells(n / 10);
        let t = decimal_text(n);
        assert(t.drop_last() =~= decimal_text(n / 10));
        assert(t.last() == digit_char(n % 10));
        assert(n == (n / 10) * 10 + n % 10);
        assert(t[0] == decimal_text(n / 10)[0]);
    }
}

/// Reading back the decimal text of a number gives the number.
pub proof fn lemma_decimal_round_trip(n: nat, max: nat)
    requires
        n <= max,
    ensures
        unsigned_value(decimal_text(n), max) == Some(n),
{
    lemma_decimal_text_spells(n);
}

/// Reads the unsigned number that `s` writes in decimal, where it is no
/// larger than `max`.
pub fn parse_unsigned(s: &str, max: u64) -> (r: Option<u64>)
    ensures
        match unsigned_value(s@, max as nat) {
            Some(v) => r == Some(v as u64),
            None => r is None,
        },
{
    broadcast use is_ascii_spec_bytes;

    if !s.is_ascii() {
        proof {
            let k = choose|k: int| 0 <= k < s@.len() && !('\0' <= #[trigger] s@[k] <= '\u{7f}');
            let d = unsigned_digits(s@);
            if s@.len() > 0 && s@[0] == '+' {
                assert(d[k - 1] == s@[k]);
            } else {
                assert(d[k] == s@[k]);
            }
        }
        return None;
    }
    let bytes = s.as_bytes();
    let n = bytes.len();
    assert(n == s@.len());
    let mut i: usize = 0;
    if n > 0 && bytes[0] == 43u8 {
        i = 1;
    }
    let start = i;
    assert(unsigned_digits(s@) =~= s@.skip(start as int));
    if start == n {
        return None;
    }
    let ghost d = s@.skip(start as int);
    let mut acc: u64 = 0;
    while i < n
        invariant
            start <= i <= n,
            n == s@.len(),
            bytes@ == s.spec_bytes(),
            is_ascii(s),
            d == s@.skip(start as int),
            d == unsigned_digits(s@),
            d.len() > 0,
            all_digits(d.take(i - start)),
            acc as nat == digits_value(d.take(i - start)),
            acc <= max,
        decreases n - i,
    {
        let b = bytes[i];
        assert(b == s@[i as int] as u8);
        assert(d[i - start] == s@[i as int]);
        if b < 48u8 || b > 57u8 {
            assert(!is_digit(d[i - start]));
            return None;
        }
        let ghost next = d.take(i - start + 1);
        assert(next.drop_last() =~= d.take(i - start));
        assert(next.last() == s@[i as int]);
        let step = match acc.checked_mul(10) {
            Some(m) => m.checked_add((b - 48u8) as u64),
            None => None,
        };
        match step {
            Some(v) if v <= max => {
                acc = v;
                i = i + 1;
            },
            _ => {
                proof {
                    if all_digits(d) {
                        lemma_prefix_value_bounded(d, i - start + 1);
                    }
                }
                return None;
            },
        }
    }
    assert(d.take(n - start) =~= d);
    Some(acc)
}

} // verus!
