use vstd::prelude::*;
use vstd::string::StrSliceExecFns;

verus! {

// ---------------------------------------------------------------------------
// The meaning of an RFC 3339 date-time string.
//
// A timestamp column accepts strings of the shape
//     YYYY-MM-DDThh:mm:ss[.f+](Z|+hh:mm|-hh:mm)
// with a lowercase `t` or `z` also accepted, and yields the instant as
// microseconds since 1970-01-01T00:00:00Z (fraction digits beyond the
// microsecond are truncated). Anything else is a parse failure.
// ---------------------------------------------------------------------------

pub open spec fn is_digit(c: char) -> bool {
    '0' <= c && c <= '9'
}

/// The numeric value of one decimal digit character.
pub open spec fn dval(c: char) -> int {
    c as int - '0' as int
}

/// The value of the two digits at `i` and `i + 1`.
pub open spec fn num2(s: Seq<char>, i: int) -> int {
    10 * dval(s[i]) + dval(s[i + 1])
}

/// The value of the four digits at `i` .. `i + 4`.
pub open spec fn num4(s: Seq<char>, i: int) -> int {
    1000 * dval(s[i]) + 100 * dval(s[i + 1]) + 10 * dval(s[i + 2]) + dval(s[i + 3])
}

/// The `n` characters starting at `i` are all decimal digits.
pub open spec fn digits_at(s: Seq<char>, i: int, n: int) -> bool {
    forall|k: int| i <= k < i + n ==> is_digit(s[k])
}

/// A year of the proleptic Gregorian calendar that has 366 days.
pub open spec fn is_leap_year(y: int) -> bool {
    y % 4 == 0 && (y % 100 != 0 || y % 400 == 0)
}

pub open spec fn days_in_month(y: int, m: int) -> int {
    if m == 2 {
        if is_leap_year(y) {
            29
        } else {
            28
        }
    } else if m == 4 || m == 6 || m == 9 || m == 11 {
        30
    } else {
        31
    }
}

/// Days from the first of January to the first of month `m` in year `y`.
pub open spec fn days_before_month(y: int, m: int) -> int {
    (if m == 1 {
        0int
    } else if m == 2 {
        31
    } else if m == 3 {
        59
    } else if m == 4 {
        90
    } else if m == 5 {
        120
    } else if m == 6 {
        151
    } else if m == 7 {
        181
    } else if m == 8 {
        212
    } else if m == 9 {
        243
    } else if m == 10 {
        273
    } else if m == 11 {
        304
    } else {
        334
    }) + if m > 2 && is_leap_year(y) {
        1int
    } else {
        0int
    }
}

/// Days from 1970-01-01 to `y`-`m`-`d` in the proleptic Gregorian calendar,
/// negative for earlier dates. 719528 is the number of days from 0000-01-01
/// to 1970-01-01; the division terms count the leap years before year `y`.
pub open spec fn days_from_epoch(y: int, m: int, d: int) -> int {
    365 * y + (y + 3) / 4 - (y + 99) / 100 + (y + 399) / 400 + days_before_month(y, m) + (d - 1)
        - 719528
}

/// The length of the run of digit characters starting at `i`.
pub open spec fn digit_run_len(s: Seq<char>, i: int) -> int
    decreases s.len() - i
        when 0 <= i <= s.len()
{
    if i >= s.len() {
        0
    } else if is_digit(s[i]) {
        1 + digit_run_len(s, i + 1)
    } else {
        0
    }
}

/// The value of the `n` digits starting at `i`.
pub open spec fn digits_val(s: Seq<char>, i: int, n: int) -> int
    decreases n,
{
    if n <= 0 {
        0
    } else {
        digits_val(s, i, n - 1) * 10 + dval(s[i + n - 1])
    }
}

pub open spec fn pow10(n: int) -> int
    decreases n,
{
    if n <= 0 {
        1
    } else {
        10 * pow10(n - 1)
    }
}

/// The number of digits of the fractional-second part, or -1 when the
/// string has no fractional part at all. A dot followed by no digit makes
/// this 0, which the grammar rejects.
pub open spec fn frac_len(s: Seq<char>) -> int {
    if s.len() > 19 && s[19] == '.' {
        digit_run_len(s, 20)
    } else {
        -1
    }
}

/// The position where the UTC offset must start.
pub open spec fn off_pos(s: Seq<char>) -> int {
    if frac_len(s) >= 0 {
        20 + frac_len(s)
    } else {
        19
    }
}

pub open spec fn date_ok(s: Seq<char>) -> bool {
    &&& digits_at(s, 0, 4)
    &&& s[4] == '-'
    &&& digits_at(s, 5, 2)
    &&& s[7] == '-'
    &&& digits_at(s, 8, 2)
    &&& 1 <= num2(s, 5) <= 12
    &&& 1 <= num2(s, 8) <= days_in_month(num4(s, 0), num2(s, 5))
}

pub open spec fn time_ok(s: Seq<char>) -> bool {
    &&& digits_at(s, 11, 2)
    &&& s[13] == ':'
    &&& digits_at(s, 14, 2)
    &&& s[16] == ':'
    &&& digits_at(s, 17, 2)
    &&& num2(s, 11) <= 23
    &&& num2(s, 14) <= 59
    &&& num2(s, 17) <= 59
}

pub open spec fn offset_ok(s: Seq<char>) -> bool {
    let p = off_pos(s);
    ||| (s.len() == p + 1 && (s[p] == 'Z' || s[p] == 'z'))
    ||| (s.len() == p + 6 && (s[p] == '+' || s[p] == '-') && digits_at(s, p + 1, 2) && s[p + 3]
        == ':' && digits_at(s, p + 4, 2) && num2(s, p + 1) <= 23 && num2(s, p + 4) <= 59)
}

/// The whole grammar: date, `T`, time, optional nonempty fraction, offset.
pub open spec fn rfc3339_ok(s: Seq<char>) -> bool {
    &&& s.len() >= 20
    &&& date_ok(s)
    &&& (s[10] == 'T' || s[10] == 't')
    &&& time_ok(s)
    &&& frac_len(s) != 0
    &&& offset_ok(s)
}

/// The signed offset in seconds that the string declares for its local time.
pub open spec fn offset_secs(s: Seq<char>) -> int {
    let p = off_pos(s);
    if s[p] == '+' {
        num2(s, p + 1) * 3600 + num2(s, p + 4) * 60
    } else if s[p] == '-' {
        -(num2(s, p + 1) * 3600 + num2(s, p + 4) * 60)
    } else {
        0
    }
}

/// The microseconds contributed by the fractional-second digits, truncated
/// past the sixth digit.
pub open spec fn frac_micros(s: Seq<char>) -> int {
    if frac_len(s) <= 0 {
        0
    } else {
        let m = if frac_len(s) < 6 {
            frac_len(s)
        } else {
            6
        };
        digits_val(s, 20, m) * pow10(6 - m)
    }
}

/// The instant a valid RFC 3339 string denotes, as microseconds since
/// 1970-01-01T00:00:00Z.
pub open spec fn rfc3339_micros(s: Seq<char>) -> int {
    (days_from_epoch(num4(s, 0), num2(s, 5), num2(s, 8)) * 86400 + num2(s, 11) * 3600 + num2(
        s,
        14,
    ) * 60 + num2(s, 17) - offset_secs(s)) * 1000000 + frac_micros(s)
}

/// What parsing a timestamp string returns: the denoted instant for a valid
/// RFC 3339 string, nothing otherwise.
pub open spec fn ts_parse(s: Seq<char>) -> Option<i64> {
    if rfc3339_ok(s) {
        Some(rfc3339_micros(s) as i64)
    } else {
        None
    }
}

// ---------------------------------------------------------------------------
// Proof support.
// ---------------------------------------------------------------------------

/// A run of digits reaching `j` splits off the prefix before `j`.
proof fn lemma_digit_run_through(s: Seq<char>, i: int, j: int)
    requires
        0 <= i <= j <= s.len(),
        forall|t: int| i <= t < j ==> is_digit(s[t]),
    ensures
        digit_run_len(s, i) == (j - i) + digit_run_len(s, j),
    decreases j - i,
{
    if i < j {
        lemma_digit_run_through(s, i + 1, j);
    }
}

/// `n` digits are worth less than `pow10(n)`.
proof fn lemma_digits_val_bound(s: Seq<char>, i: int, n: int)
    requires
        0 <= n,
        digits_at(s, i, n),
    ensures
        0 <= digits_val(s, i, n) < pow10(n),
    decreases n,
{
    if n > 0 {
        lemma_digits_val_bound(s, i, n - 1);
        assert(is_digit(s[i + n - 1]));
    }
}

// ---------------------------------------------------------------------------
// The executable parser.
// ---------------------------------------------------------------------------

/// Reads one decimal digit character.
fn digit_at(s: &str, i: usize) -> (r: Option<u32>)
    requires
        i < s@.len(),
    ensures
        match r {
            Some(d) => is_digit(s@[i as int]) && d == dval(s@[i as int]),
            None => !is_digit(s@[i as int]),
        },
{
    let c = s.get_char(i);
    if '0' <= c && c <= '9' {
        Some(c as u32 - '0' as u32)
    } else {
        None
    }
}

/// Reads the two-digit number at `i`.
fn read2(s: &str, i: usize) -> (r: Option<u32>)
    requires
        i + 2 <= s@.len() <= usize::MAX,
    ensures
        match r {
            Some(v) => digits_at(s@, i as int, 2) && v == num2(s@, i as int) && v <= 99,
            None => !digits_at(s@, i as int, 2),
        },
{
    let d0 = match digit_at(s, i) {
        Some(d) => d,
        None => {
            return None;
        },
    };
    let d1 = match digit_at(s, i + 1) {
        Some(d) => d,
        None => {
            return None;
        },
    };
    assert forall|k: int| i <= k < i + 2 implies is_digit(s@[k]) by {
        assert(k == i || k == i + 1);
    }
    Some(10 * d0 + d1)
}

/// Reads the four-digit number at `i`.
fn read4(s: &str, i: usize) -> (r: Option<u32>)
    requires
        i + 4 <= s@.len() <= usize::MAX,
    ensures
        match r {
            Some(v) => digits_at(s@, i as int, 4) && v == num4(s@, i as int) && v <= 9999,
            None => !digits_at(s@, i as int, 4),
        },
{
    let a = match read2(s, i) {
        Some(v) => v,
        None => {
            assert(!digits_at(s@, i as int, 4)) by {
                assert(!digits_at(s@, i as int, 2));
            };
            return None;
        },
    };
    let b = match read2(s, i + 2) {
        Some(v) => v,
        None => {
            assert(!digits_at(s@, i as int, 4)) by {
                assert(!digits_at(s@, i + 2 as int, 2));
            };
            return None;
        },
    };
    assert forall|k: int| i <= k < i + 4 implies is_digit(s@[k]) by {
        if k < i + 2 {
            assert(digits_at(s@, i as int, 2));
        } else {
            assert(digits_at(s@, i + 2 as int, 2));
        }
    }
    Some(100 * a + b)
}

fn leap_year(y: u32) -> (r: bool)
    ensures
        r == is_leap_year(y as int),
{
    y % 4 == 0 && (y % 100 != 0 || y % 400 == 0)
}

fn month_days(y: u32, m: u32) -> (r: u32)
    requires
        1 <= m <= 12,
    ensures
        r == days_in_month(y as int, m as int),
{
    if m == 2 {
        if leap_year(y) {
            29
        } else {
            28
        }
    } else if m == 4 || m == 6 || m == 9 || m == 11 {
        30
    } else {
        31
    }
}

fn month_offset(y: u32, m: u32) -> (r: u32)
    requires
        1 <= m <= 12,
    ensures
        r == days_before_month(y as int, m as int),
        r <= 335,
{
    let base: u32 = if m == 1 {
        0
    } else if m == 2 {
        31
    } else if m == 3 {
        59
    } else if m == 4 {
        90
    } else if m == 5 {
        120
    } else if m == 6 {
        151
    } else if m == 7 {
        181
    } else if m == 8 {
        212
    } else if m == 9 {
        243
    } else if m == 10 {
        273
    } else if m == 11 {
        304
    } else {
        334
    };
    if m > 2 && leap_year(y) {
        base + 1
    } else {
        base
    }
}

/// Days from 1970-01-01 to the given date.
fn epoch_days(y: u32, m: u32, d: u32) -> (r: i64)
    requires
        y <= 9999,
        1 <= m <= 12,
        1 <= d <= 31,
    ensures
        r == days_from_epoch(y as int, m as int, d as int),
        -719529 < r < 2936550,
{
    let leaps_in: u32 = (y + 3) / 4 + (y + 399) / 400;
    let leaps_out: u32 = (y + 99) / 100;
    let pos: u32 = 365 * y + leaps_in + month_offset(y, m) + (d - 1);
    pos as i64 - leaps_out as i64 - 719528
}

/// Parses an RFC 3339 date-time string to microseconds since
/// 1970-01-01T00:00:00Z, or reports that the string is not one.
#[verifier::rlimit(100)]
pub fn parse_rfc3339_micros(s: &str) -> (r: Option<i64>)
    ensures
        r == ts_parse(s@),
{
    let n = s.unicode_len();
    if n < 20 {
        return None;
    }
    let y = match read4(s, 0) {
        Some(v) => v,
        None => {
            return None;
        },
    };
    if s.get_char(4) != '-' {
        return None;
    }
    let mo = match read2(s, 5) {
        Some(v) => v,
        None => {
            return None;
        },
    };
    if mo < 1 || mo > 12 {
        return None;
    }
    if s.get_char(7) != '-' {
        return None;
    }
    let d = match read2(s, 8) {
        Some(v) => v,
        None => {
            return None;
        },
    };
    if d < 1 || d > month_days(y, mo) {
        return None;
    }
    let sep = s.get_char(10);
    if sep != 'T' && sep != 't' {
        return None;
    }
    let h = match read2(s, 11) {
        Some(v) => v,
        None => {
            return None;
        },
    };
    if h > 23 || s.get_char(13) != ':' {
        return None;
    }
    let mi = match read2(s, 14) {
        Some(v) => v,
        None => {
            return None;
        },
    };
    if mi > 59 || s.get_char(16) != ':' {
        return None;
    }
    let sec = match read2(s, 17) {
        Some(v) => v,
        None => {
            return None;
        },
    };
    if sec > 59 {
        return None;
    }
    // Optional fractional seconds.
    let mut p: usize = 19;
    let mut frac: u32 = 0;
    if s.get_char(19) == '.' {
        let mut j: usize = 20;
        let mut cnt: usize = 0;
        let mut val: u32 = 0;
        while j < n
            invariant
                n == s@.len(),
                20 <= j <= n,
                cnt == j - 20,
                forall|t: int| 20 <= t < j ==> is_digit(s@[t]),
                cnt < 6 ==> val == digits_val(s@, 20, cnt as int),
                cnt >= 6 ==> val == digits_val(s@, 20, 6),
                val < 1000000,
            ensures
                n == s@.len(),
                20 <= j <= n,
                cnt == j - 20,
                forall|t: int| 20 <= t < j ==> is_digit(s@[t]),
                cnt < 6 ==> val == digits_val(s@, 20, cnt as int),
                cnt >= 6 ==> val == digits_val(s@, 20, 6),
                val < 1000000,
                j == n || !is_digit(s@[j as int]),
            decreases n - j,
        {
            let dd = match digit_at(s, j) {
                Some(d) => d,
                None => {
                    break ;
                },
            };
            let ghost m = cnt as int;
            proof {
                reveal_with_fuel(pow10, 8);
                if cnt < 6 {
                    lemma_digits_val_bound(s@, 20, m);
                    assert(digits_at(s@, 20, m + 1)) by {
                        assert forall|t: int| 20 <= t < 21 + m implies is_digit(s@[t]) by {
                            if t < j as int {
                            } else {
                                assert(t == j as int);
                            }
                        }
                    };
                    lemma_digits_val_bound(s@, 20, m + 1);
                }
            }
            if cnt < 6 {
                val = val * 10 + dd;
            }
            cnt = cnt + 1;
            j = j + 1;
        }
        if cnt == 0 {
            // A dot with no digit after it: the fraction is empty.
            assert(frac_len(s@) == 0);
            return None;
        }
        proof {
            lemma_digit_run_through(s@, 20, j as int);
            if j < n {
                assert(digit_run_len(s@, j as int) == 0);
            }
            assert(digit_run_len(s@, 20) == cnt);
            lemma_digits_val_bound(s@, 20, if cnt < 6 { cnt as int } else { 6 });
            reveal_with_fuel(pow10, 7);
        }
        p = j;
        frac = if cnt >= 6 {
            val
        } else if cnt == 5 {
            val * 10
        } else if cnt == 4 {
            val * 100
        } else if cnt == 3 {
            val * 1000
        } else if cnt == 2 {
            val * 10000
        } else {
            val * 100000
        };
        assert(frac == frac_micros(s@));
    } else {
        assert(frac_len(s@) == -1);
        assert(frac_micros(s@) == 0);
    }
    assert(p == off_pos(s@));
    // The UTC offset.
    if p >= n {
        return None;
    }
    let cp = s.get_char(p);
    let mut off: i64 = 0;
    if cp == 'Z' || cp == 'z' {
        if n - p != 1 {
            return None;
        }
    } else if cp == '+' || cp == '-' {
        if n - p != 6 {
            return None;
        }
        let oh = match read2(s, p + 1) {
            Some(v) => v,
            None => {
                return None;
            },
        };
        if oh > 23 || s.get_char(p + 3) != ':' {
            return None;
        }
        let om = match read2(s, p + 4) {
            Some(v) => v,
            None => {
                return None;
            },
        };
        if om > 59 {
            return None;
        }
        off = (oh * 3600 + om * 60) as i64;
        if cp == '-' {
            off = -off;
        }
    } else {
        return None;
    }
    assert(offset_ok(s@));
    assert(off == offset_secs(s@));
    assert(rfc3339_ok(s@));
    let days = epoch_days(y, mo, d);
    let secs: i64 = days * 86400 + (h as i64) * 3600 + (mi as i64) * 60 + (sec as i64) - off;
    let micros: i64 = secs * 1000000 + (frac as i64);
    assert(micros == rfc3339_micros(s@));
    Some(micros)
}

} // verus!
