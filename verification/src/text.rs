//! The small pieces of text that events carry: names, hexadecimal numbers and
//! decimal fractions.

use vstd::prelude::*;
use vstd::string::StrSliceExecFns;

verus! {

/// The value of a hexadecimal digit, in either case.
pub open spec fn hex_digit_spec(c: char) -> Option<u8> {
    let code = c as u32;
    if 0x30 <= code <= 0x39 {
        Some((code - 0x30) as u8)
    } else if 0x41 <= code <= 0x46 {
        Some((code - 0x41 + 10) as u8)
    } else if 0x61 <= code <= 0x66 {
        Some((code - 0x61 + 10) as u8)
    } else {
        None
    }
}

/// The value of a decimal digit.
pub open spec fn decimal_digit_spec(c: char) -> Option<u8> {
    let code = c as u32;
    if 0x30 <= code <= 0x39 {
        Some((code - 0x30) as u8)
    } else {
        None
    }
}

/// The lower-case form of an ASCII letter, and any other character as it is.
pub open spec fn ascii_lower(c: char) -> u32 {
    let code = c as u32;
    if 0x41 <= code <= 0x5A {
        (code + 0x20) as u32
    } else {
        code
    }
}

/// The number that a text of hexadecimal digits stands for; `None` if a
/// character is no such digit. The empty text stands for zero.
pub open spec fn hex_value(text: Seq<char>) -> Option<int>
    decreases text.len(),
{
    if text.len() == 0 {
        Some(0)
    } else {
        match (hex_value(text.drop_last()), hex_digit_spec(text.last())) {
            (Some(value), Some(digit)) => Some(16 * value + digit),
            _ => None,
        }
    }
}

/// The number that `parse_hex` returns for a text under a limit: the value
/// of a non-empty text of hexadecimal digits, if it is within the limit.
pub open spec fn parsed_hex(text: Seq<char>, limit: u64) -> Option<u64> {
    match hex_value(text) {
        Some(value) => if text.len() > 0 && value <= limit {
            Some(value as u64)
        } else {
            None
        },
        None => None,
    }
}

/// Two texts are equal up to the case of their ASCII letters.
pub open spec fn same_ignoring_case(a: Seq<char>, b: Seq<char>) -> bool {
    a.len() == b.len() && forall|i: int| 0 <= i < a.len() ==> ascii_lower(a[i]) == ascii_lower(b[i])
}

/// A text continues a number without making it smaller, and a text with a
/// character that is no digit has no value however it continues.
pub proof fn lemma_hex_value_grows(text: Seq<char>, n: int)
    requires
        0 <= n <= text.len(),
    ensures
        hex_value(text.take(n)) is None ==> hex_value(text) is None,
        hex_value(text) is Some ==> hex_value(text.take(n)).unwrap() <= hex_value(text).unwrap(),
        hex_value(text) is Some ==> hex_value(text).unwrap() >= 0,
    decreases text.len() - n,
{
    if n == text.len() {
        assert(text.take(n) =~= text);
        lemma_hex_value_nonnegative(text);
    } else {
        lemma_hex_value_grows(text.drop_last(), n);
        assert(text.drop_last().take(n) =~= text.take(n));
        lemma_hex_value_nonnegative(text);
    }
}

/// The value of a text of digits is not negative.
pub proof fn lemma_hex_value_nonnegative(text: Seq<char>)
    ensures
        hex_value(text) is Some ==> hex_value(text).unwrap() >= 0,
    decreases text.len(),
{
    if text.len() > 0 {
        lemma_hex_value_nonnegative(text.drop_last());
    }
}

/// The value of a hexadecimal digit, in either case.
pub fn hex_digit(c: char) -> (digit: Option<u8>)
    ensures
        digit == hex_digit_spec(c),
        digit is Some ==> digit.unwrap() < 16,
{
    let code = c as u32;
    if 0x30 <= code && code <= 0x39 {
        Some((code - 0x30) as u8)
    } else if 0x41 <= code && code <= 0x46 {
        Some((code - 0x41 + 10) as u8)
    } else if 0x61 <= code && code <= 0x66 {
        Some((code - 0x61 + 10) as u8)
    } else {
        None
    }
}

/// Whether two texts are the same.
pub fn same_text(a: &str, b: &str) -> (same: bool)
    ensures
        same == (a@ == b@),
{
    let n = a.unicode_len();
    if n != b.unicode_len() {
        return false;
    }
    let mut i: usize = 0;
    while i < n
        invariant
            i <= n,
            n == a@.len(),
            n == b@.len(),
            forall|k: int| 0 <= k < i ==> a@[k] == b@[k],
        decreases n - i,
    {
        if a.get_char(i) != b.get_char(i) {
            return false;
        }
        i += 1;
    }
    proof {
        assert(a@ =~= b@);
    }
    true
}

/// Whether two texts are the same up to the case of their ASCII letters.
pub fn same_text_ignoring_case(a: &str, b: &str) -> (same: bool)
    ensures
        same == same_ignoring_case(a@, b@),
{
    let n = a.unicode_len();
    if n != b.unicode_len() {
        return false;
    }
    let mut i: usize = 0;
    while i < n
        invariant
            i <= n,
            n == a@.len(),
            n == b@.len(),
            forall|k: int| 0 <= k < i ==> ascii_lower(a@[k]) == ascii_lower(b@[k]),
        decreases n - i,
    {
        let x = a.get_char(i) as u32;
        let y = b.get_char(i) as u32;
        let lx = if 0x41 <= x && x <= 0x5A {
            x + 0x20
        } else {
            x
        };
        let ly = if 0x41 <= y && y <= 0x5A {
            y + 0x20
        } else {
            y
        };
        if lx != ly {
            return false;
        }
        i += 1;
    }
    true
}

/// Reads a text as a hexadecimal number of at most `limit`. The text must
/// consist of one or more hexadecimal digits, in either case.
pub fn parse_hex(text: &str, limit: u64) -> (number: Option<u64>)
    ensures
        number == parsed_hex(text@, limit),
{
    let n = text.unicode_len();
    if n == 0 {
        return None;
    }
    let mut value: u64 = 0;
    let mut i: usize = 0;
    while i < n
        invariant
            i <= n,
            n == text@.len(),
            hex_value(text@.take(i as int)) == Some(value as int),
            value <= limit,
        decreases n - i,
    {
        proof {
            assert(text@.take(i + 1).drop_last() =~= text@.take(i as int));
            lemma_hex_value_grows(text@, i + 1);
        }
        match hex_digit(text.get_char(i)) {
            Some(digit) => {
                if digit as u64 > limit || value > (limit - digit as u64) / 16 {
                    return None;
                }
                value = 16 * value + digit as u64;
            },
            None => {
                return None;
            },
        }
        i += 1;
    }
    proof {
        assert(text@.take(n as int) =~= text@);
    }
    Some(value)
}

/// What has been read of a decimal fraction.
pub struct FractionScan {
    /// The text began with a minus sign.
    pub negative: bool,
    /// The units in front of the point, as far as they matter: never more
    /// than 1000.
    pub whole: int,
    /// The millionths behind the point.
    pub frac: int,
    /// The digits read behind the point.
    pub places: int,
    pub seen_point: bool,
    /// The digits read in all.
    pub digits: int,
}

/// The weight in millionths of the digit that comes `places` digits behind
/// the point.
#[verifier::allow_in_spec]
pub fn place_weight(places: u32) -> u32
    returns
        (if places == 0 {
            100_000u32
        } else if places == 1 {
            10_000u32
        } else if places == 2 {
            1_000u32
        } else if places == 3 {
            100u32
        } else if places == 4 {
            10u32
        } else if places == 5 {
            1u32
        } else {
            0u32
        }),
{
    if places == 0 {
        100_000u32
    } else if places == 1 {
        10_000u32
    } else if places == 2 {
        1_000u32
    } else if places == 3 {
        100u32
    } else if places == 4 {
        10u32
    } else if places == 5 {
        1u32
    } else {
        0u32
    }
}

/// What has been read after one more character; `None` if the character
/// cannot continue a decimal fraction. A sign may only come first, and the
/// point only once.
pub open spec fn fraction_step(scan: FractionScan, first: bool, c: char) -> Option<FractionScan> {
    if first && c == '-' {
        Some(FractionScan { negative: true, ..scan })
    } else if first && c == '+' {
        Some(scan)
    } else if c == '.' {
        if scan.seen_point {
            None
        } else {
            Some(FractionScan { seen_point: true, ..scan })
        }
    } else {
        match decimal_digit_spec(c) {
            None => None,
            Some(digit) => if scan.seen_point {
                Some(
                    FractionScan {
                        frac: scan.frac + digit * place_weight(
                            if scan.places < 6 {
                                scan.places as u32
                            } else {
                                6u32
                            },
                        ),
                        places: scan.places + 1,
                        digits: scan.digits + 1,
                        ..scan
                    },
                )
            } else {
                Some(
                    FractionScan {
                        whole: if 10 * scan.whole + digit > 1000 {
                            1000
                        } else {
                            10 * scan.whole + digit
                        },
                        digits: scan.digits + 1,
                        ..scan
                    },
                )
            },
        }
    }
}

/// What has been read after the first `n` characters of a text.
pub open spec fn fraction_scan(text: Seq<char>, n: int) -> Option<FractionScan>
    decreases n,
{
    if n <= 0 {
        Some(
            FractionScan {
                negative: false,
                whole: 0,
                frac: 0,
                places: 0,
                seen_point: false,
                digits: 0,
            },
        )
    } else {
        match fraction_scan(text, n - 1) {
            Some(scan) => fraction_step(scan, n == 1, text[n - 1]),
            None => None,
        }
    }
}

/// The millionths that a decimal fraction stands for, limited to the range
/// from 0 to 1000000: the text is an optional sign, digits, and at most one
/// point among them; digits behind the sixth place after the point are
/// passed over, and a negative number counts as zero. `None` for any other
/// text.
pub open spec fn parsed_millionths(text: Seq<char>) -> Option<u32> {
    match fraction_scan(text, text.len() as int) {
        Some(scan) => if scan.digits == 0 {
            None
        } else if scan.negative {
            Some(0u32)
        } else if 1_000_000 * scan.whole + scan.frac > 1_000_000 {
            Some(1_000_000u32)
        } else {
            Some((1_000_000 * scan.whole + scan.frac) as u32)
        },
        None => None,
    }
}

/// Once a character cannot continue the fraction, the text is no fraction.
pub proof fn lemma_fraction_scan_fails(text: Seq<char>, n: int, m: int)
    requires
        0 <= n <= m,
        fraction_scan(text, n) is None,
    ensures
        fraction_scan(text, m) is None,
    decreases m - n,
{
    if n < m {
        lemma_fraction_scan_fails(text, n, m - 1);
    }
}

/// Reads a text as a decimal fraction and returns it in millionths, limited
/// to the range from 0 to 1000000.
pub fn parse_millionths(text: &str) -> (millionths: Option<u32>)
    ensures
        millionths == parsed_millionths(text@),
{
    let n = text.unicode_len();
    let mut negative = false;
    let mut whole: u32 = 0;
    let mut frac: u32 = 0;
    let mut places: u32 = 0;
    let mut seen_point = false;
    let mut digits: u32 = 0;
    let mut i: usize = 0;
    while i < n
        invariant
            i <= n,
            n == text@.len(),
            whole <= 1000,
            frac <= 999_999,
            places <= 6,
            digits <= 1,
            fraction_scan(text@, i as int) is Some,
            ({
                let scan = fraction_scan(text@, i as int).unwrap();
                &&& scan.negative == negative
                &&& scan.whole == whole
                &&& scan.frac == frac
                &&& (if scan.places > 6 {
                    places == 6
                } else {
                    places == scan.places
                })
                &&& scan.seen_point == seen_point
                &&& scan.digits >= 0
                &&& (scan.digits > 0) == (digits > 0)
                &&& scan.places >= 0
                &&& (scan.places == 0 ==> scan.frac == 0)
                &&& (scan.places == 1 ==> scan.frac <= 900_000)
                &&& (scan.places == 2 ==> scan.frac <= 990_000)
                &&& (scan.places == 3 ==> scan.frac <= 999_000)
                &&& (scan.places == 4 ==> scan.frac <= 999_900)
                &&& (scan.places == 5 ==> scan.frac <= 999_990)
            }),
        decreases n - i,
    {
        let c = text.get_char(i);
        let code = c as u32;
        if i == 0 && c == '-' {
            negative = true;
        } else if i == 0 && c == '+' {
        } else if c == '.' {
            if seen_point {
                proof {
                    lemma_fraction_scan_fails(text@, i + 1, n as int);
                }
                return None;
            }
            seen_point = true;
        } else if 0x30 <= code && code <= 0x39 {
            let digit = code - 0x30;
            if seen_point {
                frac = frac + digit * place_weight(places);
                if places < 6 {
                    places = places + 1;
                }
            } else {
                whole = if 10 * whole + digit > 1000 {
                    1000
                } else {
                    10 * whole + digit
                };
            }
            digits = 1;
        } else {
            proof {
                lemma_fraction_scan_fails(text@, i + 1, n as int);
            }
            return None;
        }
        i += 1;
    }
    if digits == 0 {
        None
    } else if negative {
        Some(0)
    } else if 1_000_000 * whole + frac > 1_000_000 {
        Some(1_000_000)
    } else {
        Some(1_000_000 * whole + frac)
    }
}

/// True for the space and the control characters from tab to carriage
/// return.
pub open spec fn is_space(c: char) -> bool {
    c as u32 == 0x20 || 0x09 <= c as u32 <= 0x0D
}

/// A text without the white space in front of it.
pub open spec fn trimmed_start(text: Seq<char>) -> Seq<char>
    decreases text.len(),
{
    if text.len() > 0 && is_space(text[0]) {
        trimmed_start(text.skip(1))
    } else {
        text
    }
}

/// A text without the white space behind it.
pub open spec fn trimmed_end(text: Seq<char>) -> Seq<char>
    decreases text.len(),
{
    if text.len() > 0 && is_space(text.last()) {
        trimmed_end(text.drop_last())
    } else {
        text
    }
}

/// A text without the white space around it.
pub open spec fn trimmed(text: Seq<char>) -> Seq<char> {
    trimmed_end(trimmed_start(text))
}

/// A copy of a text without the white space around it.
pub fn trim(text: &str) -> (result: String)
    ensures
        result@ == trimmed(text@),
{
    let n = text.unicode_len();
    let mut from: usize = 0;
    proof {
        assert(text@.skip(0) =~= text@);
    }
    while from < n && is_space_char(text.get_char(from))
        invariant
            from <= n,
            n == text@.len(),
            trimmed_start(text@) == trimmed_start(text@.skip(from as int)),
        decreases n - from,
    {
        proof {
            assert(text@.skip(from as int).skip(1) =~= text@.skip(from + 1));
        }
        from += 1;
    }
    proof {
        if from == n {
            assert(text@.skip(from as int).len() == 0);
        }
        assert(trimmed_start(text@) == text@.skip(from as int));
    }
    let ghost rest = text@.skip(from as int);
    let mut to: usize = n;
    proof {
        assert(rest.take(n - from) =~= rest);
    }
    while to > from && is_space_char(text.get_char(to - 1))
        invariant
            from <= to <= n,
            n == text@.len(),
            rest == text@.skip(from as int),
            trimmed_end(rest) == trimmed_end(rest.take(to - from)),
        decreases to,
    {
        proof {
            assert(rest.take(to - from).drop_last() =~= rest.take(to - from - 1));
            assert(rest.take(to - from).last() == text@[to - 1]);
        }
        to -= 1;
    }
    proof {
        assert(rest.take(n - from) =~= rest);
        if to > from {
            assert(rest.take(to - from).last() == text@[to - 1]);
        }
        assert(trimmed_end(rest) == rest.take(to - from));
        assert(rest.take(to - from) =~= text@.subrange(from as int, to as int));
    }
    String::from_str(text.substring_char(from, to))
}

fn is_space_char(c: char) -> (space: bool)
    ensures
        space == is_space(c),
{
    let code = c as u32;
    code == 0x20 || (0x09 <= code && code <= 0x0D)
}

} // verus!
