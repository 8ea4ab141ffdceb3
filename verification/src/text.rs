//! Decimal text of integers: reading it from bytes and writing it.

use vstd::prelude::*;
use vstd::utf8::is_ascii_chars;

verus! {

/// Why a decimal text is not an `i32`.
#[derive(Clone, Copy, Debug, PartialEq, Eq, Structural)]
pub enum IntErrorKind {
    Empty,
    InvalidDigit,
    PosOverflow,
    NegOverflow,
}

pub open spec fn is_digit_byte(b: u8) -> bool {
    48 <= b <= 57
}

pub open spec fn digit_of(b: u8) -> int {
    b - 48
}

/// Reads the digit bytes `ds` from the left, accumulating a value that
/// grows away from zero (downwards when `neg`); the first byte that is
/// no digit, or the first step that leaves the `i32` range, decides the error.
pub open spec fn scan_digits(ds: Seq<u8>, neg: bool) -> Result<int, IntErrorKind>
    decreases ds.len(),
{
    if ds.len() == 0 {
        Ok(0)
    } else {
        match scan_digits(ds.drop_last(), neg) {
            Err(e) => Err(e),
            Ok(v) => {
                if !is_digit_byte(ds.last()) {
                    Err(IntErrorKind::InvalidDigit)
                } else {
                    let nv = if neg {
                        v * 10 - digit_of(ds.last())
                    } else {
                        v * 10 + digit_of(ds.last())
                    };
                    if nv > i32::MAX {
                        Err(IntErrorKind::PosOverflow)
                    } else if nv < i32::MIN {
                        Err(IntErrorKind::NegOverflow)
                    } else {
                        Ok(nv)
                    }
                }
            },
        }
    }
}

/// The value of a decimal text as an `i32`: an optional `+` or `-`,
/// then at least one digit.
pub open spec fn parse_i32_spec(bytes: Seq<u8>) -> Result<int, IntErrorKind> {
    if bytes.len() == 0 {
        Err(IntErrorKind::Empty)
    } else if (bytes[0] == 43u8 || bytes[0] == 45u8) && bytes.len() == 1 {
        Err(IntErrorKind::InvalidDigit)
    } else if bytes[0] == 43u8 {
        scan_digits(bytes.drop_first(), false)
    } else if bytes[0] == 45u8 {
        scan_digits(bytes.drop_first(), true)
    } else {
        scan_digits(bytes, false)
    }
}

pub open spec fn digit_char(d: nat) -> char
    recommends
        d < 10,
{
    if d == 0 {
        '0'
    } else if d == 1 {
        '1'
    } else if d == 2 {
        '2'
    } else if d == 3 {
        '3'
    } else if d == 4 {
        '4'
    } else if d == 5 {
        '5'
    } else if d == 6 {
        '6'
    } else if d == 7 {
        '7'
    } else if d == 8 {
        '8'
    } else {
        '9'
    }
}

/// The decimal digits of `n`, most significant first, with no leading zero.
pub open spec fn decimal_digits(n: nat) -> Seq<char>
    decreases n,
{
    if n < 10 {
        seq![digit_char(n)]
    } else {
        decimal_digits(n / 10).push(digit_char(n % 10))
    }
}

/// The decimal text of `v`: a `-` before the digits of a negative value.
pub open spec fn int_text(v: int) -> Seq<char> {
    if v < 0 {
        seq!['-'] + decimal_digits((-v) as nat)
    } else {
        decimal_digits(v as nat)
    }
}

/// The bytes of an ASCII text.
pub open spec fn ascii_bytes(s: Seq<char>) -> Seq<u8> {
    Seq::new(s.len(), |i: int| s[i] as u8)
}

/// Every one of `ds` is a digit byte.
pub open spec fn all_digits(ds: Seq<u8>) -> bool {
    forall|i: int| 0 <= i < ds.len() ==> is_digit_byte(#[trigger] ds[i])
}

/// The value of the digit bytes `ds`, most significant first.
pub open spec fn digits_value(ds: Seq<u8>) -> int
    decreases ds.len(),
{
    if ds.len() == 0 {
        0
    } else {
        digits_value(ds.drop_last()) * 10 + digit_of(ds.last())
    }
}

/// Whether a text starts with a minus sign.
pub open spec fn text_negative(bytes: Seq<u8>) -> bool {
    bytes.len() > 0 && bytes[0] == 45u8
}

/// The digits of a text, after its sign if it has one.
pub open spec fn text_digits(bytes: Seq<u8>) -> Seq<u8> {
    if bytes.len() > 0 && (bytes[0] == 43u8 || bytes[0] == 45u8) {
        bytes.drop_first()
    } else {
        bytes
    }
}

/// The signed value a decimal text stands for.
pub open spec fn i32_text_value(bytes: Seq<u8>) -> int {
    if text_negative(bytes) {
        -digits_value(text_digits(bytes))
    } else {
        digits_value(text_digits(bytes))
    }
}

/// Whether `bytes` is the decimal text of an `i32`: an optional `+` or
/// `-`, then at least one digit and nothing else, standing for a value in
/// the `i32` range.
pub open spec fn is_i32_text(bytes: Seq<u8>) -> bool {
    &&& text_digits(bytes).len() > 0
    &&& all_digits(text_digits(bytes))
    &&& i32::MIN <= i32_text_value(bytes) <= i32::MAX
}

/// Reading digits succeeds exactly when they are all digits whose value,
/// with the sign, stays in the `i32` range, and gives that value.
proof fn lemma_scan_digits_exact(ds: Seq<u8>, neg: bool)
    ensures
        all_digits(ds) ==> digits_value(ds) >= 0,
        scan_digits(ds, neg) is Ok <==> all_digits(ds) && (if neg {
            -digits_value(ds) >= i32::MIN
        } else {
            digits_value(ds) <= i32::MAX
        }),
        scan_digits(ds, neg) matches Ok(v) ==> v == (if neg {
            -digits_value(ds)
        } else {
            digits_value(ds)
        }),
    decreases ds.len(),
{
    if ds.len() > 0 {
        let p = ds.drop_last();
        lemma_scan_digits_exact(p, neg);
        assert(all_digits(ds) ==> all_digits(p)) by {
            if all_digits(ds) {
                assert forall|i: int| 0 <= i < p.len() implies is_digit_byte(#[trigger] p[i]) by {
                    assert(p[i] == ds[i]);
                }
            }
        }
        assert(all_digits(ds) ==> is_digit_byte(ds.last())) by {
            if all_digits(ds) {
                assert(is_digit_byte(ds[ds.len() - 1]));
            }
        }
        if all_digits(p) && is_digit_byte(ds.last()) {
            assert forall|i: int| 0 <= i < ds.len() implies is_digit_byte(#[trigger] ds[i]) by {
                if i < ds.len() - 1 {
                    assert(ds[i] == p[i]);
                }
            }
        }
    }
}

/// A text is read as an `i32` exactly when it is the decimal text of one,
/// and then it gives the value the text stands for.
pub proof fn i32_text_parses_exactly(bytes: Seq<u8>)
    ensures
        parse_i32_spec(bytes) is Ok <==> is_i32_text(bytes),
        parse_i32_spec(bytes) matches Ok(v) ==> v == i32_text_value(bytes),
{
    lemma_scan_digits_exact(text_digits(bytes), text_negative(bytes));
}

proof fn lemma_scan_error_persists(ds: Seq<u8>, neg: bool, j: int)
    requires
        0 <= j <= ds.len(),
        scan_digits(ds.take(j), neg) is Err,
    ensures
        scan_digits(ds, neg) == scan_digits(ds.take(j), neg),
    decreases ds.len() - j,
{
    if j < ds.len() {
        assert(ds.take(j + 1).drop_last() =~= ds.take(j));
        lemma_scan_error_persists(ds, neg, j + 1);
    } else {
        assert(ds.take(j) =~= ds);
    }
}

proof fn lemma_digit_char_byte(d: nat)
    requires
        d < 10,
    ensures
        digit_char(d) as u8 == 48 + d,
        '0' <= digit_char(d) <= '9',
{
}

proof fn lemma_decimal_digits_are_digits(n: nat)
    ensures
        decimal_digits(n).len() >= 1,
        forall|i: int|
            0 <= i < decimal_digits(n).len() ==> '0' <= #[trigger] decimal_digits(n)[i] <= '9',
    decreases n,
{
    if n < 10 {
        lemma_digit_char_byte(n);
    } else {
        lemma_decimal_digits_are_digits(n / 10);
        lemma_digit_char_byte(n % 10);
    }
}

proof fn lemma_scan_decimal_digits(n: nat, neg: bool)
    requires
        neg ==> -(n as int) >= i32::MIN,
        !neg ==> n <= i32::MAX,
    ensures
        scan_digits(ascii_bytes(decimal_digits(n)), neg) == Ok::<int, IntErrorKind>(
            if neg {
                -(n as int)
            } else {
                n as int
            },
        ),
    decreases n,
{
    let bytes = ascii_bytes(decimal_digits(n));
    if n < 10 {
        lemma_digit_char_byte(n);
        assert(bytes.drop_last() =~= Seq::<u8>::empty());
        assert(bytes.last() == 48 + n);
        assert(scan_digits(bytes.drop_last(), neg) == Ok::<int, IntErrorKind>(0));
    } else {
        lemma_scan_decimal_digits(n / 10, neg);
        lemma_digit_char_byte(n % 10);
        assert(bytes.drop_last() =~= ascii_bytes(decimal_digits(n / 10)));
        assert(bytes.last() == 48 + n % 10);
        assert((n / 10) as int * 10 + (n % 10) as int == n as int);
        assert(scan_digits(bytes.drop_last(), neg) == Ok::<int, IntErrorKind>(
            if neg {
                -((n / 10) as int)
            } else {
                (n / 10) as int
            },
        ));
    }
}

/// The decimal text of an `i32` reads back as the same value.
pub proof fn lemma_int_text_parses_back(v: i32)
    ensures
        parse_i32_spec(ascii_bytes(int_text(v as int))) == Ok::<int, IntErrorKind>(v as int),
        is_ascii_chars(int_text(v as int)),
{
    if v < 0 {
        let n: nat = (-(v as int)) as nat;
        lemma_scan_decimal_digits(n, true);
        lemma_decimal_digits_are_digits(n);
        let bytes = ascii_bytes(int_text(v as int));
        assert(bytes[0] == 45u8);
        assert(bytes.drop_first() =~= ascii_bytes(decimal_digits(n)));
        assert forall|i: int| 0 <= i < int_text(v as int).len() implies '\0' <= #[trigger] int_text(
            v as int,
        )[i] <= '\u{7f}' by {
            if i > 0 {
                assert(int_text(v as int)[i] == decimal_digits(n)[i - 1]);
            }
        }
    } else {
        let n: nat = v as nat;
        lemma_scan_decimal_digits(n, false);
        lemma_decimal_digits_are_digits(n);
        let bytes = ascii_bytes(int_text(v as int));
        assert(bytes[0] == decimal_digits(n)[0] as u8);
        assert forall|i: int| 0 <= i < int_text(v as int).len() implies '\0' <= #[trigger] int_text(
            v as int,
        )[i] <= '\u{7f}' by {}
    }
}

fn scan_digit_bytes(ds: &[u8], start: usize, neg: bool) -> (r: Result<i32, IntErrorKind>)
    requires
        start <= ds@.len(),
    ensures
        match scan_digits(ds@.skip(start as int), neg) {
            Ok(v) => r == Ok::<i32, IntErrorKind>(v as i32),
            Err(e) => r == Err::<i32, IntErrorKind>(e),
        },
{
    let ghost digits = ds@.skip(start as int);
    let mut acc: i32 = 0;
    let mut i: usize = start;
    assert(digits.take(0) =~= Seq::<u8>::empty());
    while i < ds.len()
        invariant
            start <= i <= ds@.len(),
            digits == ds@.skip(start as int),
            scan_digits(digits.take(i - start), neg) == Ok::<int, IntErrorKind>(acc as int),
        decreases ds@.len() - i,
    {
        let b = ds[i];
        let ghost k: int = i - start;
        assert(digits.take(k + 1).drop_last() =~= digits.take(k));
        assert(digits.take(k + 1).last() == b);
        if b < 48 || b > 57 {
            proof {
                lemma_scan_error_persists(digits, neg, k + 1);
            }
            return Err(IntErrorKind::InvalidDigit);
        }
        let d: i64 = (b - 48) as i64;
        let nv: i64 = if neg {
            (acc as i64) * 10 - d
        } else {
            (acc as i64) * 10 + d
        };
        if nv > i32::MAX as i64 {
            proof {
                lemma_scan_error_persists(digits, neg, k + 1);
            }
            return Err(IntErrorKind::PosOverflow);
        }
        if nv < i32::MIN as i64 {
            proof {
                lemma_scan_error_persists(digits, neg, k + 1);
            }
            return Err(IntErrorKind::NegOverflow);
        }
        acc = nv as i32;
        i = i + 1;
    }
    assert(digits.take(ds@.len() - start) =~= digits);
    Ok(acc)
}

/// Reads the decimal text in `bytes` as an `i32`, as `str::parse::<i32>` does.
pub fn parse_i32(bytes: &[u8]) -> (r: Result<i32, IntErrorKind>)
    ensures
        match parse_i32_spec(bytes@) {
            Ok(v) => r == Ok::<i32, IntErrorKind>(v as i32),
            Err(e) => r == Err::<i32, IntErrorKind>(e),
        },
{
    if bytes.len() == 0 {
        return Err(IntErrorKind::Empty);
    }
    let first = bytes[0];
    if (first == 43 || first == 45) && bytes.len() == 1 {
        return Err(IntErrorKind::InvalidDigit);
    }
    if first == 43 {
        assert(bytes@.skip(1) =~= bytes@.drop_first());
        scan_digit_bytes(bytes, 1, false)
    } else if first == 45 {
        assert(bytes@.skip(1) =~= bytes@.drop_first());
        scan_digit_bytes(bytes, 1, true)
    } else {
        assert(bytes@.skip(0) =~= bytes@);
        scan_digit_bytes(bytes, 0, false)
    }
}

fn digit_str(d: u64) -> (s: &'static str)
    requires
        d < 10,
    ensures
        s@ == seq![digit_char(d as nat)],
{
    if d == 0 {
        proof {
            reveal_strlit("0");
        }
        "0"
    } else if d == 1 {
        proof {
            reveal_strlit("1");
        }
        "1"
    } else if d == 2 {
        proof {
            reveal_strlit("2");
        }
        "2"
    } else if d == 3 {
        proof {
            reveal_strlit("3");
        }
        "3"
    } else if d == 4 {
        proof {
            reveal_strlit("4");
        }
        "4"
    } else if d == 5 {
        proof {
            reveal_strlit("5");
        }
        "5"
    } else if d == 6 {
        proof {
            reveal_strlit("6");
        }
        "6"
    } else if d == 7 {
        proof {
            reveal_strlit("7");
        }
        "7"
    } else if d == 8 {
        proof {
            reveal_strlit("8");
        }
        "8"
    } else {
        proof {
            reveal_strlit("9");
        }
        "9"
    }
}

/// Appends the decimal digits of `n` to `s`.
pub fn push_decimal(s: &mut String, n: u64)
    ensures
        final(s)@ == old(s)@ + decimal_digits(n as nat),
    decreases n,
{
    if n >= 10 {
        push_decimal(s, n / 10);
    }
    s.append(digit_str(n % 10));
    proof {
        if n >= 10 {
            assert(decimal_digits(n as nat) == decimal_digits((n / 10) as nat).push(
                digit_char((n % 10) as nat),
            ));
        }
    }
    assert(final(s)@ =~= old(s)@ + decimal_digits(n as nat));
}

/// Appends the decimal text of `v` to `s`.
pub fn push_int_text(s: &mut String, v: i64)
    ensures
        final(s)@ == old(s)@ + int_text(v as int),
{
    if v < 0 {
        proof {
            reveal_strlit("-");
        }
        s.append("-");
        let magnitude: u64 = if v == i64::MIN {
            9_223_372_036_854_775_808u64
        } else {
            (-v) as u64
        };
        push_decimal(s, magnitude);
        assert(final(s)@ =~= old(s)@ + int_text(v as int));
    } else {
        push_decimal(s, v as u64);
    }
}

/// The decimal text of `v`, as `v.to_string()` writes it.
pub fn int_to_string(v: i64) -> (s: String)
    ensures
        s@ == int_text(v as int),
{
    let mut s = String::new();
    push_int_text(&mut s, v);
    assert(s@ =~= int_text(v as int));
    s
}

} // verus!
