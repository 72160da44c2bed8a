//! Naming of processed crash reports from the timestamp segment of a route.

use vstd::prelude::*;

verus! {

/// A decimal digit `0`..=`9`.
pub open spec fn is_digit(c: char) -> bool {
    '0' <= c && c <= '9'
}

pub open spec fn digit_value(c: char) -> int {
    c as int - '0' as int
}

/// A non-empty run of decimal digits.
pub open spec fn all_digits(s: Seq<char>) -> bool {
    s.len() > 0 && forall|i: int| 0 <= i < s.len() ==> is_digit(#[trigger] s[i])
}

/// The value of a run of decimal digits, most significant first.
pub open spec fn digits_value(s: Seq<char>) -> int
    decreases s.len(),
{
    if s.len() == 0 {
        0
    } else {
        10 * digits_value(s.drop_last()) + digit_value(s.last())
    }
}

/// The integer that `s` writes: an optional `+` or `-` followed by at least
/// one decimal digit and nothing else.
pub open spec fn decimal_value(s: Seq<char>) -> Option<int> {
    if s.len() > 0 && (s[0] == '-' || s[0] == '+') {
        if all_digits(s.drop_first()) {
            if s[0] == '-' {
                Some(-digits_value(s.drop_first()))
            } else {
                Some(digits_value(s.drop_first()))
            }
        } else {
            None
        }
    } else if all_digits(s) {
        Some(digits_value(s))
    } else {
        None
    }
}

/// `s` read as a signed 64-bit integer, when it writes one in range.
pub open spec fn parsed_i64(s: Seq<char>) -> Option<i64> {
    match decimal_value(s) {
        Some(v) => if i64::MIN <= v && v <= i64::MAX {
            Some(v as i64)
        } else {
            None
        },
        None => None,
    }
}

/// What chrono writes for the UTC instant `nanos` nanoseconds after the Unix
/// epoch in the form `%Y-%m-%d %H:%M:%S.%f`.
pub uninterp spec fn utc_nanos_label(nanos: i64) -> Seq<char>;

/// The label of the report stored for a timestamp segment: the UTC date and
/// time when the segment is a nanosecond count, the segment itself otherwise.
pub open spec fn report_label(timestamp: Seq<char>) -> Seq<char> {
    match parsed_i64(timestamp) {
        Some(n) => utc_nanos_label(n),
        None => timestamp,
    }
}

/// The file name of the report stored under a given label.
pub open spec fn report_file_name_of(label: Seq<char>) -> Seq<char> {
    label + ".minidump"@
}

proof fn lemma_digits_value_nonneg(s: Seq<char>)
    requires
        forall|i: int| 0 <= i < s.len() ==> is_digit(#[trigger] s[i]),
    ensures
        digits_value(s) >= 0,
    decreases s.len(),
{
    if s.len() > 0 {
        lemma_digits_value_nonneg(s.drop_last());
    }
}

/// Extending a run of digits never lowers its value.
proof fn lemma_digits_value_prefix(s: Seq<char>, k: int)
    requires
        0 <= k <= s.len(),
        forall|i: int| 0 <= i < s.len() ==> is_digit(#[trigger] s[i]),
    ensures
        digits_value(s.subrange(0, k)) <= digits_value(s),
    decreases s.len(),
{
    if k < s.len() {
        let t = s.drop_last();
        assert(t.subrange(0, k) =~= s.subrange(0, k));
        lemma_digits_value_prefix(t, k);
        lemma_digits_value_nonneg(t);
    } else {
        assert(s.subrange(0, k) =~= s);
    }
}

const I64_MAGNITUDE_LIMIT: u64 = 9223372036854775808;

/// Reads `s` as a signed decimal 64-bit integer: an optional sign, then
/// digits only; `None` when it is not one or is out of range.
pub fn parse_i64(s: &str) -> (r: Option<i64>)
    ensures
        r == parsed_i64(s@),
{
    let n = s.unicode_len();
    if n == 0 {
        return None;
    }
    let first = s.get_char(0);
    let negative = first == '-';
    let start: usize = if first == '-' || first == '+' { 1 } else { 0 };
    if start == n {
        return None;
    }
    let ghost body = if start == 1 { s@.drop_first() } else { s@ };
    assert(body =~= s@.subrange(start as int, n as int));
    assert(decimal_value(s@) == if all_digits(body) {
        Some(if negative { -digits_value(body) } else { digits_value(body) })
    } else {
        None
    });
    let mut acc: u64 = 0;
    let mut i: usize = start;
    while i < n
        invariant
            start <= i <= n,
            n == s@.len(),
            start < n,
            body == s@.subrange(start as int, n as int),
            forall|j: int| 0 <= j < i - start ==> is_digit(#[trigger] body[j]),
            decimal_value(s@) == if all_digits(body) {
                Some(if negative { -digits_value(body) } else { digits_value(body) })
            } else {
                None
            },
            acc as int == digits_value(body.subrange(0, i - start)),
            acc <= I64_MAGNITUDE_LIMIT,
        decreases n - i,
    {
        let c = s.get_char(i);
        assert(c == body[i - start]);
        if !('0' <= c && c <= '9') {
            assert(!is_digit(body[i - start]));
            assert(!all_digits(body));
            return None;
        }
        let d: u64 = (c as u32 - '0' as u32) as u64;
        let ghost next = body.subrange(0, i - start + 1);
        assert(next.drop_last() =~= body.subrange(0, i - start));
        assert(next.last() == c);
        if acc > (I64_MAGNITUDE_LIMIT - d) / 10 {
            assert(acc * 10 + d > I64_MAGNITUDE_LIMIT) by (nonlinear_arith)
                requires
                    acc > (I64_MAGNITUDE_LIMIT - d) / 10,
                    d <= 9,
            ;
            proof {
                if all_digits(body) {
                    lemma_digits_value_prefix(body, i - start + 1);
                    assert(digits_value(next) == 10 * acc + d);
                }
            }
            return None;
        }
        assert(acc * 10 + d <= I64_MAGNITUDE_LIMIT) by (nonlinear_arith)
            requires
                acc <= (I64_MAGNITUDE_LIMIT - d) / 10,
                d <= 9,
        ;
        acc = acc * 10 + d;
        i += 1;
    }
    assert(body.subrange(0, n - start) =~= body);
    assert(all_digits(body));
    if negative {
        if acc == I64_MAGNITUDE_LIMIT {
            Some(i64::MIN)
        } else {
            Some(-(acc as i64))
        }
    } else if acc == I64_MAGNITUDE_LIMIT {
        None
    } else {
        Some(acc as i64)
    }
}

/// Relies on chrono's `DateTime::from_timestamp_nanos` (total on `i64`) and
/// `DateTime::format`: the UTC date and time of `nanos`, written as
/// `%Y-%m-%d %H:%M:%S.%f`, a function of `nanos` alone.
#[verifier::external_body]
fn format_utc_nanos(nanos: i64) -> (r: String)
    ensures
        r@ == utc_nanos_label(nanos),
{
    chrono::DateTime::from_timestamp_nanos(nanos).format("%Y-%m-%d %H:%M:%S.%f").to_string()
}

/// The label of the report for a timestamp segment: the formatted UTC date
/// and time when the segment is a nanosecond count, else the segment verbatim.
pub fn timestamp_label(timestamp: &str) -> (r: String)
    ensures
        r@ == report_label(timestamp@),
{
    match parse_i64(timestamp) {
        Some(nanos) => format_utc_nanos(nanos),
        None => timestamp.to_string(),
    }
}

/// The report's file name for a label: the label with `.minidump` appended.
pub fn report_file_name(label: &str) -> (r: String)
    ensures
        r@ == report_file_name_of(label@),
{
    label.to_string().concat(".minidump")
}

} // verus!
