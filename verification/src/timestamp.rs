//! The shape of the timestamps the service sends: RFC 3339 text,
//! `YYYY-MM-DDThh:mm:ss`, an optional fraction, and a `Z` or `±hh:mm`
//! offset.  Entries whose timestamp text does not have this shape are
//! rejected at decoding.  The check is syntactic with simple field bounds
//! (month 1–12, day 1–31, hour to 23, minute to 59, second to 60); it does
//! not model the calendar, so a day number too large for its month passes
//! here and is left to the service.

use vstd::prelude::*;
use vstd::string::StrSliceExecFns;

verus! {

/// A decimal digit.
pub open spec fn is_digit(c: char) -> bool {
    '0' <= c && c <= '9'
}

/// Positions `from` (inclusive) to `to` (exclusive) all hold digits.
pub open spec fn digits_in(s: Seq<char>, from: int, to: int) -> bool {
    forall|k: int| from <= k < to ==> is_digit(#[trigger] s[k])
}

/// The value of the two digits at positions `i` and `i + 1`.
pub open spec fn two_digit_value(s: Seq<char>, i: int) -> int {
    (s[i] as int - '0' as int) * 10 + (s[i + 1] as int - '0' as int)
}

/// The date-and-time part `YYYY-MM-DDThh:mm:ss` standing at the front.
pub open spec fn is_date_time_prefix(s: Seq<char>) -> bool {
    &&& s.len() >= 19
    &&& digits_in(s, 0, 4)
    &&& s[4] == '-'
    &&& digits_in(s, 5, 7)
    &&& s[7] == '-'
    &&& digits_in(s, 8, 10)
    &&& s[10] == 'T'
    &&& digits_in(s, 11, 13)
    &&& s[13] == ':'
    &&& digits_in(s, 14, 16)
    &&& s[16] == ':'
    &&& digits_in(s, 17, 19)
    &&& 1 <= two_digit_value(s, 5) <= 12
    &&& 1 <= two_digit_value(s, 8) <= 31
    &&& two_digit_value(s, 11) <= 23
    &&& two_digit_value(s, 14) <= 59
    &&& two_digit_value(s, 17) <= 60
}

/// A UTC offset: `Z` (either case) or `±hh:mm`.
pub open spec fn is_utc_offset(s: Seq<char>) -> bool {
    ||| (s.len() == 1 && (s[0] == 'Z' || s[0] == 'z'))
    ||| (s.len() == 6 && (s[0] == '+' || s[0] == '-') && digits_in(s, 1, 3) && s[3] == ':'
        && digits_in(s, 4, 6) && two_digit_value(s, 1) <= 23 && two_digit_value(s, 4) <= 59)
}

/// A fractional-seconds part: a dot and at least one digit.
pub open spec fn is_fraction(s: Seq<char>) -> bool {
    s.len() >= 2 && s[0] == '.' && digits_in(s, 1, s.len() as int)
}

/// RFC 3339 shape: the date-and-time part, an optional fraction, and the
/// offset, with nothing after it.
pub open spec fn is_rfc3339(s: Seq<char>) -> bool {
    &&& is_date_time_prefix(s)
    &&& (is_utc_offset(s.skip(19)) || exists|k: int|
        19 < k < s.len() && is_fraction(#[trigger] s.subrange(19, k)) && is_utc_offset(s.skip(k)))
}

fn is_digit_exec(c: char) -> (r: bool)
    ensures
        r == is_digit(c),
{
    '0' <= c && c <= '9'
}

/// Whether positions `from..to` of `s` all hold digits.
fn digits_in_exec(s: &str, from: usize, to: usize) -> (r: bool)
    requires
        from <= to <= s@.len(),
    ensures
        r == digits_in(s@, from as int, to as int),
{
    let mut i: usize = from;
    while i < to
        invariant
            from <= i <= to <= s@.len(),
            forall|k: int| from <= k < i ==> is_digit(#[trigger] s@[k]),
        decreases to - i,
    {
        if !is_digit_exec(s.get_char(i)) {
            return false;
        }
        i = i + 1;
    }
    true
}

/// The value of the two digits at `i` and `i + 1`.
fn two_digit_exec(s: &str, i: usize) -> (r: u32)
    requires
        i + 2 <= s@.len(),
        s@.len() <= usize::MAX,
        digits_in(s@, i as int, i + 2),
    ensures
        r == two_digit_value(s@, i as int),
{
    let hi = s.get_char(i) as u32;
    let lo = s.get_char(i + 1) as u32;
    assert(is_digit(s@[i as int]) && is_digit(s@[i + 1 as int]));
    (hi - ('0' as u32)) * 10 + (lo - ('0' as u32))
}

/// The end of the run of digits starting at `start`: the first position
/// at or after `start` holding no digit, or the end of `s`.
fn digit_run_end(s: &str, start: usize) -> (j: usize)
    requires
        start <= s@.len(),
    ensures
        start <= j <= s@.len(),
        forall|m: int| start <= m < j ==> is_digit(#[trigger] s@[m]),
        j < s@.len() ==> !is_digit(s@[j as int]),
{
    let n = s.unicode_len();
    let mut j: usize = start;
    while j < n
        invariant
            start <= j <= n,
            n == s@.len(),
            forall|m: int| start <= m < j ==> is_digit(#[trigger] s@[m]),
        decreases n - j,
    {
        if !is_digit_exec(s.get_char(j)) {
            return j;
        }
        j = j + 1;
    }
    j
}

/// Whether `s` from position `p` to its end is a UTC offset.
fn offset_from_exec(s: &str, p: usize) -> (r: bool)
    requires
        p <= s@.len(),
    ensures
        r == is_utc_offset(s@.skip(p as int)),
{
    let n = s.unicode_len();
    let ghost t = s@.skip(p as int);
    if n - p == 1 {
        let c = s.get_char(p);
        proof {
            assert(t[0] == s@[p as int]);
        }
        c == 'Z' || c == 'z'
    } else if n - p == 6 {
        let c = s.get_char(p);
        if !(c == '+' || c == '-') {
            proof {
                assert(t[0] == s@[p as int]);
            }
            return false;
        }
        let sep = s.get_char(p + 3);
        let digits_ok = digits_in_exec(s, p + 1, p + 3) && sep == ':' && digits_in_exec(
            s,
            p + 4,
            p + 6,
        );
        proof {
            assert(t[0] == s@[p as int] && t[3] == s@[p + 3 as int]);
            assert(forall|m: int| 0 <= m < 6 ==> #[trigger] t[m] == s@[p + m]);
        }
        if !digits_ok {
            return false;
        }
        let hh = two_digit_exec(s, p + 1);
        let mm = two_digit_exec(s, p + 4);
        proof {
            assert(two_digit_value(t, 1) == two_digit_value(s@, p + 1));
            assert(two_digit_value(t, 4) == two_digit_value(s@, p + 4));
        }
        hh <= 23 && mm <= 59
    } else {
        false
    }
}

/// Whether `s` has the RFC 3339 shape.
pub fn check_rfc3339(s: &str) -> (r: bool)
    ensures
        r == is_rfc3339(s@),
{
    let n = s.unicode_len();
    if n < 20 {
        proof {
            if is_date_time_prefix(s@) {
                // the prefix alone fills the text: no room for an offset
                assert(s@.len() == 19);
                assert(s@.skip(19).len() == 0);
                assert(!is_utc_offset(s@.skip(19)));
            }
        }
        return false;
    }
    // the date-and-time part
    if !(digits_in_exec(s, 0, 4) && s.get_char(4) == '-' && digits_in_exec(s, 5, 7) && s.get_char(
        7,
    ) == '-' && digits_in_exec(s, 8, 10) && s.get_char(10) == 'T' && digits_in_exec(s, 11, 13)
        && s.get_char(13) == ':' && digits_in_exec(s, 14, 16) && s.get_char(16) == ':'
        && digits_in_exec(s, 17, 19)) {
        return false;
    }
    let month = two_digit_exec(s, 5);
    let day = two_digit_exec(s, 8);
    let hour = two_digit_exec(s, 11);
    let minute = two_digit_exec(s, 14);
    let second = two_digit_exec(s, 17);
    if !(1 <= month && month <= 12 && 1 <= day && day <= 31 && hour <= 23 && minute <= 59
        && second <= 60) {
        return false;
    }
    assert(is_date_time_prefix(s@));
    // an optional fraction: a dot, then the run of digits behind it
    if s.get_char(19) == '.' {
        let j = digit_run_end(s, 20);
        if j == 20 {
            // a dot with no digit behind it: no split can be a fraction
            proof {
                assert forall|k: int| 19 < k < s@.len() implies !(is_fraction(
                    #[trigger] s@.subrange(19, k),
                ) && is_utc_offset(s@.skip(k))) by {
                    if k > 20 {
                        assert(!is_digit(s@[20]));
                        assert(s@.subrange(19, k)[1] == s@[20]);
                    } else {
                        assert(s@.subrange(19, k).len() < 2);
                    }
                }
                assert(s@.skip(19)[0] == s@[19 as int]);
                assert(!is_utc_offset(s@.skip(19)));
            }
            return false;
        }
        let ok = offset_from_exec(s, j);
        proof {
            let ghost jj = j as int;
            if ok {
                assert(is_fraction(s@.subrange(19, jj))) by {
                    assert(s@.subrange(19, jj)[0] == s@[19 as int]);
                    assert(forall|m: int| 1 <= m < jj - 19 ==> #[trigger] s@.subrange(19, jj)[m]
                        == s@[19 + m]);
                }
                assert(19 < jj < s@.len());
                assert(is_fraction(s@.subrange(19, jj)) && is_utc_offset(s@.skip(jj)));
            } else {
                // the fraction must end exactly where the digit run ends
                assert forall|k: int| 19 < k < s@.len() implies !(is_fraction(
                    #[trigger] s@.subrange(19, k),
                ) && is_utc_offset(s@.skip(k))) by {
                    if k < jj {
                        // inside the digit run: an offset cannot start here
                        assert(s@.skip(k)[0] == s@[k]);
                        assert(is_digit(s@[k]));
                    } else if k > jj {
                        // past the run's end: the fraction holds a non-digit
                        assert(jj < s@.len());
                        assert(!is_digit(s@[jj]));
                        assert(s@.subrange(19, k)[jj - 19] == s@[jj]);
                    }
                }
                assert(s@.skip(19)[0] == s@[19 as int]);
                assert(!is_utc_offset(s@.skip(19)));
            }
        }
        ok
    } else {
        let ok = offset_from_exec(s, 19);
        proof {
            if !ok {
                // without a dot at 19 no split can be a fraction
                assert forall|k: int| 19 < k < s@.len() implies !(is_fraction(
                    #[trigger] s@.subrange(19, k),
                ) && is_utc_offset(s@.skip(k))) by {
                    assert(s@.subrange(19, k)[0] == s@[19 as int]);
                }
            }
        }
        ok
    }
}

} // verus!
