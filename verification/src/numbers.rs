//! Decimal numerals: parsing the operator's numeric inputs and rendering
//! integers into request bodies.

use vstd::prelude::*;

verus! {

/// Is `b` the ASCII code of a decimal digit?
pub open spec fn is_ascii_digit(b: u8) -> bool {
    48 <= b <= 57
}

/// Every byte of `s` is an ASCII digit.
pub open spec fn all_digits(s: Seq<u8>) -> bool {
    forall|i: int| 0 <= i < s.len() ==> is_ascii_digit(s[i])
}

/// Numeric value of a digit string, most significant digit first.
pub open spec fn digits_value(s: Seq<u8>) -> int
    decreases s.len(),
{
    if s.len() == 0 {
        0
    } else {
        digits_value(s.drop_last()) * 10 + (s.last() - 48)
    }
}

/// The digit part of a numeral: everything after an optional leading sign.
pub open spec fn digits_part(s: Seq<u8>) -> Seq<u8> {
    if s.len() > 0 && (s[0] == 43 || s[0] == 45) {
        s.subrange(1, s.len() as int)
    } else {
        s
    }
}

/// Does `s` carry a leading minus sign?
pub open spec fn has_minus_sign(s: Seq<u8>) -> bool {
    s.len() > 0 && s[0] == 45
}

/// `s` is a well-formed decimal numeral: an optional sign followed by at
/// least one digit, with nothing else.
pub open spec fn is_numeral(s: Seq<u8>) -> bool {
    digits_part(s).len() > 0 && all_digits(digits_part(s))
}

/// The signed value of a well-formed numeral.
pub open spec fn numeral_value(s: Seq<u8>) -> int {
    if has_minus_sign(s) {
        -digits_value(digits_part(s))
    } else {
        digits_value(digits_part(s))
    }
}

proof fn lemma_digits_value_nonneg(s: Seq<u8>)
    requires
        all_digits(s),
    ensures
        digits_value(s) >= 0,
    decreases s.len(),
{
    if s.len() > 0 {
        assert(all_digits(s.drop_last())) by {
            assert(forall|i: int|
                0 <= i < s.drop_last().len() ==> #[trigger] s.drop_last()[i] == s[i]);
        }
        lemma_digits_value_nonneg(s.drop_last());
    }
}

proof fn lemma_all_digits_subrange(s: Seq<u8>, a: int, b: int)
    requires
        all_digits(s),
        0 <= a <= b <= s.len(),
    ensures
        all_digits(s.subrange(a, b)),
{
    assert(forall|i: int|
        0 <= i < s.subrange(a, b).len() ==> #[trigger] s.subrange(a, b)[i] == s[a + i]);
}

/// The value of a digit string is at least the value of any of its prefixes.
proof fn lemma_digits_value_prefix_le(s: Seq<u8>, j: int)
    requires
        all_digits(s),
        0 <= j <= s.len(),
    ensures
        digits_value(s.subrange(0, j)) <= digits_value(s),
    decreases s.len() - j,
{
    if j == s.len() {
        assert(s.subrange(0, j) =~= s);
    } else {
        assert(s.subrange(0, j + 1).drop_last() =~= s.subrange(0, j));
        assert(s.subrange(0, j + 1).last() == s[j]);
        lemma_all_digits_subrange(s, 0, j);
        lemma_digits_value_nonneg(s.subrange(0, j));
        assert(digits_value(s.subrange(0, j + 1))
            == digits_value(s.subrange(0, j)) * 10 + (s[j] - 48));
        lemma_digits_value_prefix_le(s, j + 1);
    }
}

/// A digit string's value is bounded by a power of ten of its length.
pub proof fn lemma_digits_value_bound(s: Seq<u8>)
    requires
        all_digits(s),
    ensures
        0 <= digits_value(s),
        s.len() <= 1 ==> digits_value(s) < 10,
        s.len() <= 2 ==> digits_value(s) < 100,
        s.len() <= 3 ==> digits_value(s) < 1000,
        s.len() <= 4 ==> digits_value(s) < 10000,
    decreases s.len(),
{
    if s.len() > 0 {
        assert(all_digits(s.drop_last())) by {
            assert(forall|i: int|
                0 <= i < s.drop_last().len() ==> #[trigger] s.drop_last()[i] == s[i]);
        }
        lemma_digits_value_bound(s.drop_last());
    }
}

/// Reads the digits `s[start .. end]` as an unsigned decimal number.
/// `None` when the range is empty, holds a non-digit, or overflows `u64`.
pub fn parse_u64_range(s: &[u8], start: usize, end: usize) -> (r: Option<u64>)
    requires
        start <= end <= s@.len(),
    ensures
        ({
            let d = s@.subrange(start as int, end as int);
            &&& (r is Some) <==> (d.len() > 0 && all_digits(d) && digits_value(d) <= u64::MAX)
            &&& (r matches Some(v) ==> v == digits_value(d))
        }),
{
    let ghost d = s@.subrange(start as int, end as int);
    if start == end {
        return None;
    }
    let mut acc: u64 = 0;
    let mut i: usize = start;
    while i < end
        invariant
            start <= i <= end <= s@.len(),
            d == s@.subrange(start as int, end as int),
            all_digits(s@.subrange(start as int, i as int)),
            acc == digits_value(s@.subrange(start as int, i as int)),
        decreases end - i,
    {
        let b = s[i];
        if b < 48 || b > 57 {
            proof {
                assert(d[i - start] == s@[i as int]);
                assert(!is_ascii_digit(d[i - start]));
            }
            return None;
        }
        let digit = (b - 48) as u64;
        proof {
            assert(s@.subrange(start as int, i as int + 1).drop_last()
                =~= s@.subrange(start as int, i as int));
            assert(s@.subrange(start as int, i as int + 1).last() == s@[i as int]);
            assert(digits_value(s@.subrange(start as int, i as int + 1))
                == acc * 10 + digit);
            assert(all_digits(s@.subrange(start as int, i as int + 1))) by {
                assert(forall|k: int|
                    0 <= k < i as int + 1 - start
                        ==> #[trigger] s@.subrange(start as int, i as int + 1)[k]
                            == s@[start + k]);
            }
        }
        if acc > (u64::MAX - digit) / 10 {
            proof {
                let q = (u64::MAX - digit) / 10;
                assert(q * 10 + (u64::MAX - digit) % 10 == u64::MAX - digit);
                assert(acc * 10 + digit > u64::MAX) by {
                    assert(acc >= q + 1);
                    assert(acc * 10 >= (q + 1) * 10);
                }
                let prefix = s@.subrange(start as int, i as int + 1);
                assert(prefix =~= d.subrange(0, i as int + 1 - start));
                if all_digits(d) {
                    lemma_digits_value_prefix_le(d, i as int + 1 - start);
                    assert(digits_value(d) > u64::MAX);
                }
            }
            return None;
        }
        acc = acc * 10 + digit;
        i = i + 1;
    }
    proof {
        assert(s@.subrange(start as int, i as int) =~= d);
    }
    Some(acc)
}

/// Parses a decimal numeral as Rust's `str::parse::<usize>` does: an optional
/// `+` sign followed by digits.  A minus sign, an empty digit part, any
/// non-digit byte, or a value above `usize::MAX` is rejected.
pub fn parse_usize(s: &[u8]) -> (r: Option<usize>)
    ensures
        (r is Some) <==> (is_numeral(s@) && !has_minus_sign(s@)
            && numeral_value(s@) <= usize::MAX),
        (r matches Some(v) ==> v == numeral_value(s@)),
{
    let n = s.len();
    if n == 0 {
        return None;
    }
    let start: usize = if s[0] == 43 {
        1
    } else if s[0] == 45 {
        proof {
            if is_numeral(s@) {
                lemma_digits_value_nonneg(digits_part(s@));
            }
        }
        return None;
    } else {
        0
    };
    proof {
        assert(digits_part(s@) =~= s@.subrange(start as int, n as int));
    }
    match parse_u64_range(s, start, n) {
        None => None,
        Some(v) => {
            if v <= usize::MAX as u64 {
                Some(v as usize)
            } else {
                None
            }
        },
    }
}

/// Parses a decimal numeral as Rust's `str::parse::<i32>` does: an optional
/// `+` or `-` sign followed by digits, rejected outside the `i32` range.
pub fn parse_i32(s: &[u8]) -> (r: Option<i32>)
    ensures
        (r is Some) <==> (is_numeral(s@) && i32::MIN <= numeral_value(s@) <= i32::MAX),
        (r matches Some(v) ==> v == numeral_value(s@)),
{
    let n = s.len();
    if n == 0 {
        return None;
    }
    let negative: bool = s[0] == 45;
    let start: usize = if s[0] == 43 || s[0] == 45 {
        1
    } else {
        0
    };
    proof {
        assert(digits_part(s@) =~= s@.subrange(start as int, n as int));
        if is_numeral(s@) {
            lemma_digits_value_nonneg(digits_part(s@));
        }
    }
    match parse_u64_range(s, start, n) {
        None => None,
        Some(v) => {
            if negative {
                if v <= 2147483648 {
                    Some((-(v as i64)) as i32)
                } else {
                    None
                }
            } else {
                if v <= 2147483647 {
                    Some(v as i32)
                } else {
                    None
                }
            }
        },
    }
}

/// Why the requested code count was rejected.
#[derive(Clone, Copy, Debug, PartialEq, Eq, Structural)]
pub enum CountError {
    /// The input is not a decimal numeral within the `i32` range.
    Unparseable,
    /// The input parsed, but names zero or a negative count.
    NotPositive,
}

/// Parses the operator's requested code count: a decimal `i32`, which must
/// be strictly positive.  Each rejection names its reason, so the run can
/// abort before any request is sent.
pub fn parse_code_count(s: &[u8]) -> (r: Result<i32, CountError>)
    ensures
        (r matches Ok(v) ==> v == numeral_value(s@) && v > 0),
        (r is Ok) <==> (is_numeral(s@) && i32::MIN <= numeral_value(s@) <= i32::MAX
            && numeral_value(s@) > 0),
        (r == Err::<i32, CountError>(CountError::Unparseable))
            <==> !(is_numeral(s@) && i32::MIN <= numeral_value(s@) <= i32::MAX),
        (r == Err::<i32, CountError>(CountError::NotPositive))
            <==> (is_numeral(s@) && i32::MIN <= numeral_value(s@) <= i32::MAX
                && numeral_value(s@) <= 0),
{
    match parse_i32(s) {
        None => Err(CountError::Unparseable),
        Some(v) => {
            if v <= 0 {
                Err(CountError::NotPositive)
            } else {
                Ok(v)
            }
        },
    }
}

/// Decimal digit string of a non-negative number, most significant first.
pub open spec fn decimal_digits(n: int) -> Seq<u8>
    decreases n,
{
    if n < 10 {
        seq![(n + 48) as u8]
    } else {
        decimal_digits(n / 10).push((n % 10 + 48) as u8)
    }
}

/// Decimal rendering of an integer, with a leading minus sign when negative,
/// exactly as the standard integer formatter writes it.
pub open spec fn decimal_rep(n: int) -> Seq<u8> {
    if n < 0 {
        seq![45u8] + decimal_digits(-n)
    } else {
        decimal_digits(n)
    }
}

/// Renders `n` in decimal.
pub fn render_i64(n: i64) -> (r: Vec<u8>)
    ensures
        r@ == decimal_rep(n as int),
{
    let negative: bool = n < 0;
    let mut cur: u64 = if n >= 0 {
        n as u64
    } else {
        ((-(n + 1)) as u64) + 1
    };
    let ghost m = cur as int;
    let mut out: Vec<u8> = Vec::new();
    while cur >= 10
        invariant
            decimal_digits(m) =~= decimal_digits(cur as int) + out@,
        decreases cur,
    {
        let d: u8 = (cur % 10) as u8;
        proof {
            assert(decimal_digits(cur as int)
                == decimal_digits(cur as int / 10).push((cur as int % 10 + 48) as u8));
            assert(decimal_digits(cur as int / 10).push((cur as int % 10 + 48) as u8) + out@
                =~= decimal_digits(cur as int / 10) + (seq![(cur as int % 10 + 48) as u8] + out@));
            assert(out@.insert(0, (d + 48) as u8) =~= seq![(cur as int % 10 + 48) as u8] + out@);
        }
        out.insert(0, d + 48);
        cur = cur / 10;
    }
    proof {
        assert(decimal_digits(cur as int) =~= seq![(cur + 48) as u8]);
        assert(seq![(cur + 48) as u8] + out@ =~= out@.insert(0, (cur + 48) as u8));
    }
    out.insert(0, (cur as u8) + 48);
    if negative {
        proof {
            assert(seq![45u8] + decimal_digits(m) =~= out@.insert(0, 45u8));
        }
        out.insert(0, 45);
    }
    out
}

} // verus!
