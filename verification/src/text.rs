//! Label text: decimal rendering of fixed-point values, and the calendar
//! labels that the date library supplies.
//!
//! Prices carry two decimals (`1234` prints as `12.34`); volumes print
//! their whole part. Calendar formatting is the one piece of text this
//! library does not compute itself: it comes from chrono behind trusted
//! wrappers, as a pure function of the timestamp.

use vstd::prelude::*;
use vstd::string::*;

verus! {

/// Largest timestamp (seconds, UTC) the calendar wrappers promise a
/// label for: the last second of year 9999, far inside chrono's range.
pub const TS_LABEL_MAX: i64 = 253_402_300_799;

/// Largest magnitude the fixed-point formatter accepts.
pub const LABEL_VALUE_LIMIT: i64 = 100_000_000_000_000;

/// The character of one decimal digit.
pub open spec fn digit_char(d: int) -> char {
    if d == 0 {
        '0'
    } else if d == 1 {
        '1'
    } else if d == 2 {
        '2'
    } else if d == 3 {
        '3'
    } else if d == 4 {
        '4'
    } else if d == 5 {
        '5'
    } else if d == 6 {
        '6'
    } else if d == 7 {
        '7'
    } else if d == 8 {
        '8'
    } else {
        '9'
    }
}

/// The decimal digits of `n`, most significant first, no leading zeros
/// (a single zero for zero).
pub open spec fn dec_chars(n: nat) -> Seq<char>
    decreases n,
{
    if n < 10 {
        seq![digit_char(n as int)]
    } else {
        dec_chars(n / 10).push(digit_char((n % 10) as int))
    }
}

/// How a fixed-point value in hundredths prints: an optional minus sign,
/// the whole part, a point, and exactly two fraction digits.
pub open spec fn fixed2_chars(v: int) -> Seq<char> {
    let m = if v < 0 {
        -v
    } else {
        v
    };
    let sign: Seq<char> = if v < 0 {
        seq!['-']
    } else {
        Seq::empty()
    };
    sign + dec_chars((m / 100) as nat) + seq!['.'] + seq![
        digit_char((m % 100) / 10),
        digit_char(m % 10),
    ]
}

/// How a fixed-point value prints with its fraction dropped.
pub open spec fn whole_chars(v: int) -> Seq<char> {
    dec_chars((v / 100) as nat)
}

/// The one-character string of one decimal digit.
fn digit_str(d: u64) -> (r: &'static str)
    requires
        d < 10,
    ensures
        r@ == seq![digit_char(d as int)],
{
    proof {
        reveal_strlit("0");
        reveal_strlit("1");
        reveal_strlit("2");
        reveal_strlit("3");
        reveal_strlit("4");
        reveal_strlit("5");
        reveal_strlit("6");
        reveal_strlit("7");
        reveal_strlit("8");
        reveal_strlit("9");
    }
    match d {
        0 => "0",
        1 => "1",
        2 => "2",
        3 => "3",
        4 => "4",
        5 => "5",
        6 => "6",
        7 => "7",
        8 => "8",
        _ => "9",
    }
}

/// Appends the decimal digits of `n`, most significant first.
fn push_decimal(n: u64, out: &mut String)
    ensures
        final(out)@ == old(out)@ + dec_chars(n as nat),
    decreases n,
{
    if n < 10 {
        out.append(digit_str(n));
    } else {
        push_decimal(n / 10, out);
        out.append(digit_str(n % 10));
        proof {
            assert(final(out)@ =~= old(out)@ + dec_chars(n as nat));
        }
    }
}

/// The label of a fixed-point value, with two decimals: `-350` gives
/// `-3.50`.
pub fn fixed2_label(v: i64) -> (r: String)
    requires
        -LABEL_VALUE_LIMIT <= v <= LABEL_VALUE_LIMIT,
    ensures
        r@ == fixed2_chars(v as int),
{
    let mut out = String::new();
    let m: u64 = if v < 0 {
        out.append("-");
        proof {
            reveal_strlit("-");
        }
        (-v) as u64
    } else {
        v as u64
    };
    push_decimal(m / 100, &mut out);
    out.append(".");
    proof {
        reveal_strlit(".");
    }
    out.append(digit_str((m % 100) / 10));
    out.append(digit_str(m % 10));
    proof {
        assert(out@ =~= fixed2_chars(v as int));
    }
    out
}

/// The label of a fixed-point value with its fraction dropped: `1250`
/// gives `12`.
pub fn whole_label(v: i64) -> (r: String)
    requires
        0 <= v <= LABEL_VALUE_LIMIT,
    ensures
        r@ == whole_chars(v as int),
{
    let mut out = String::new();
    push_decimal((v as u64) / 100, &mut out);
    proof {
        assert(out@ =~= whole_chars(v as int));
    }
    out
}

/// The month/day label chrono gives timestamp `ts`, such as `03/15`.
pub uninterp spec fn month_day_label_of(ts: int) -> Seq<char>;

/// The minute-precision label chrono gives timestamp `ts`, such as
/// `2024-03-15 09:30`.
pub uninterp spec fn minute_label_of(ts: int) -> Seq<char>;

/// Relies on chrono's `DateTime::<Utc>::from_timestamp` and
/// `DateTime::format` with the pattern `%m/%d`: the label is a function
/// of the timestamp alone, and `None` comes only of a timestamp outside
/// chrono's representable date range, which holds every second up to
/// year 9999.
#[verifier::external_body]
fn fmt_month_day(ts: i64) -> (r: Option<String>)
    ensures
        r matches Some(s) ==> s@ == month_day_label_of(ts as int),
        0 <= ts <= TS_LABEL_MAX ==> r is Some,
{
    chrono::DateTime::<chrono::Utc>::from_timestamp(ts, 0).map(
        |d| d.format("%m/%d").to_string(),
    )
}

/// Relies on chrono's `DateTime::<Utc>::from_timestamp` and
/// `DateTime::format` with the pattern `%Y-%m-%d %H:%M`: the label is a
/// function of the timestamp alone, and `None` comes only of a
/// timestamp outside chrono's representable date range, which holds
/// every second up to year 9999.
#[verifier::external_body]
fn fmt_minute(ts: i64) -> (r: Option<String>)
    ensures
        r matches Some(s) ==> s@ == minute_label_of(ts as int),
        0 <= ts <= TS_LABEL_MAX ==> r is Some,
{
    chrono::DateTime::<chrono::Utc>::from_timestamp(ts, 0).map(
        |d| d.format("%Y-%m-%d %H:%M").to_string(),
    )
}

/// Whether a date label is one `s` could print for timestamp `ts`: the
/// label of `ts` itself, or, for a timestamp outside the calendar's
/// range, the label of the epoch, or empty.
pub open spec fn month_day_text(s: Seq<char>, ts: int) -> bool {
    &&& 0 <= ts <= TS_LABEL_MAX as int ==> s == month_day_label_of(ts)
    &&& (s == month_day_label_of(ts) || s == month_day_label_of(0) || s == Seq::<char>::empty())
}

/// Whether a minute label is one `s` could print for timestamp `ts`.
pub open spec fn minute_text(s: Seq<char>, ts: int) -> bool {
    &&& 0 <= ts <= TS_LABEL_MAX as int ==> s == minute_label_of(ts)
    &&& (s == minute_label_of(ts) || s == minute_label_of(0) || s == Seq::<char>::empty())
}

/// The month/day label of `ts`, falling back to the epoch's label for a
/// timestamp outside the calendar's range.
pub fn month_day_label(ts: i64) -> (r: String)
    ensures
        month_day_text(r@, ts as int),
{
    match fmt_month_day(ts) {
        Some(s) => s,
        None => match fmt_month_day(0) {
            Some(s) => s,
            None => String::new(),
        },
    }
}

/// The minute-precision label of `ts`, falling back to the epoch's
/// label for a timestamp outside the calendar's range.
pub fn minute_label(ts: i64) -> (r: String)
    ensures
        minute_text(r@, ts as int),
{
    match fmt_minute(ts) {
        Some(s) => s,
        None => match fmt_minute(0) {
            Some(s) => s,
            None => String::new(),
        },
    }
}

} // verus!
