//! Turning raw kline rows into candles.
//!
//! The data source hands each bar as a row of plain values: an opening
//! time in milliseconds and decimal strings for the four prices and the
//! volume. The strings are parsed here into fixed-point hundredths; a
//! row whose fields do not parse, or whose values fall outside the
//! chart's arithmetic bounds, is dropped, and the rest keep their
//! order. Opening times before the epoch are kept: their seconds are
//! negative, and the renderer's calendar fallback covers whatever the
//! date library cannot represent.

use vstd::prelude::*;
use crate::candle::{Candle, PRICE_LIMIT, VOLUME_LIMIT};

verus! {

/// An ASCII decimal digit.
pub open spec fn is_digit(b: u8) -> bool {
    48 <= b <= 57
}

/// The number the digits spell, most significant first.
pub open spec fn digits_val(s: Seq<u8>) -> int
    decreases s.len(),
{
    if s.len() == 0 {
        0
    } else {
        digits_val(s.drop_last()) * 10 + (s.last() - 48)
    }
}

/// How many leading digits `s` has.
pub open spec fn digits_prefix_len(s: Seq<u8>) -> int
    decreases s.len(),
{
    if s.len() == 0 || !is_digit(s[0]) {
        0
    } else {
        1 + digits_prefix_len(s.skip(1))
    }
}

pub open spec fn all_digits(s: Seq<u8>) -> bool {
    forall|i: int| 0 <= i < s.len() ==> is_digit(#[trigger] s[i])
}

/// The hundredths the first two fraction digits spell, missing digits
/// counting as zero.
pub open spec fn frac2_val(f: Seq<u8>) -> int {
    if f.len() == 0 {
        0
    } else if f.len() == 1 {
        (f[0] - 48) * 10
    } else {
        (f[0] - 48) * 10 + (f[1] - 48)
    }
}

/// Most whole-part digits the parser accepts; keeps every parsed value
/// inside `i64` with room for the two fraction digits.
pub const MAX_WHOLE_DIGITS: usize = 15;

/// What a decimal string is worth in fixed-point hundredths: an
/// optional minus sign, one to fifteen whole digits, and optionally a
/// point with any run of fraction digits, of which the first two are
/// kept and the rest dropped. Anything else is `None`.
pub open spec fn spec_parse_fixed2(s: Seq<u8>) -> Option<int> {
    let neg = s.len() > 0 && s[0] == 45;
    let t = if neg {
        s.skip(1)
    } else {
        s
    };
    let dp = digits_prefix_len(t);
    if 1 <= dp <= MAX_WHOLE_DIGITS as int && (dp == t.len() || (t[dp] == 46 && all_digits(
        t.skip(dp + 1),
    ))) {
        let whole = digits_val(t.take(dp));
        let frac = if dp == t.len() {
            0
        } else {
            frac2_val(t.skip(dp + 1))
        };
        let v = whole * 100 + frac;
        Some(
            if neg {
                -v
            } else {
                v
            },
        )
    } else {
        None
    }
}

/// A run of digits spells a value under ten to its length.
proof fn lemma_digits_val_bound(s: Seq<u8>)
    requires
        all_digits(s),
    ensures
        0 <= digits_val(s) < pow10(s.len() as int),
    decreases s.len(),
{
    if s.len() > 0 {
        assert(all_digits(s.drop_last())) by {
            assert(forall|i: int|
                0 <= i < s.drop_last().len() ==> #[trigger] s.drop_last()[i] == s[i]);
        }
        lemma_digits_val_bound(s.drop_last());
        assert(is_digit(s.last()));
    }
}

/// Ten to a small power.
pub open spec fn pow10(n: int) -> int
    decreases n,
{
    if n <= 0 {
        1
    } else {
        10 * pow10(n - 1)
    }
}

/// Ten to a power grows with the exponent, from one upward.
proof fn lemma_pow10_pos(a: int)
    ensures
        pow10(a) >= 1,
    decreases a,
{
    if a > 0 {
        lemma_pow10_pos(a - 1);
    }
}

proof fn lemma_pow10_le(a: int, b: int)
    requires
        a <= b,
    ensures
        1 <= pow10(a) <= pow10(b),
    decreases b - a,
{
    lemma_pow10_pos(a);
    if a < b {
        lemma_pow10_le(a, b - 1);
        lemma_pow10_pos(b - 1);
    }
}

/// The numeric value of fifteen digits fits well inside `i64`.
proof fn lemma_pow10_fifteen()
    ensures
        pow10(14) == 100_000_000_000_000,
        pow10(15) == 1_000_000_000_000_000,
{
    assert(pow10(0) == 1);
    assert(pow10(1) == 10);
    assert(pow10(2) == 100);
    assert(pow10(3) == 1000);
    assert(pow10(4) == 10000);
    assert(pow10(5) == 100000);
    assert(pow10(6) == 1000000);
    assert(pow10(7) == 10000000);
    assert(pow10(8) == 100000000);
    assert(pow10(9) == 1000000000);
    assert(pow10(10) == 10000000000);
    assert(pow10(11) == 100000000000);
    assert(pow10(12) == 1000000000000);
    assert(pow10(13) == 10000000000000);
    assert(pow10(14) == 100000000000000);
    assert(pow10(15) == 1000000000000000);
}

/// The first `i` bytes of `s` being digits, and `i` being the end or a
/// non-digit, pins the digit prefix length at `i`.
proof fn lemma_prefix_len_at(s: Seq<u8>, i: int)
    requires
        0 <= i <= s.len(),
        forall|j: int| 0 <= j < i ==> is_digit(#[trigger] s[j]),
        i == s.len() || !is_digit(s[i]),
    ensures
        digits_prefix_len(s) == i,
    decreases i,
{
    if i == 0 {
    } else {
        assert(is_digit(s[0]));
        assert(forall|j: int| 0 <= j < i - 1 ==> #[trigger] s.skip(1)[j] == s[j + 1]);
        if i < s.len() {
            assert(s.skip(1)[i - 1] == s[i]);
        }
        lemma_prefix_len_at(s.skip(1), i - 1);
    }
}

/// The digit prefix is never negative.
proof fn lemma_prefix_len_nonneg(s: Seq<u8>)
    ensures
        digits_prefix_len(s) >= 0,
    decreases s.len(),
{
    if s.len() > 0 && is_digit(s[0]) {
        lemma_prefix_len_nonneg(s.skip(1));
    }
}

/// A string whose first `k` bytes are digits has a digit prefix at
/// least `k` long.
proof fn lemma_prefix_len_ge(s: Seq<u8>, k: int)
    requires
        0 <= k <= s.len(),
        forall|j: int| 0 <= j < k ==> is_digit(#[trigger] s[j]),
    ensures
        digits_prefix_len(s) >= k,
    decreases k,
{
    lemma_prefix_len_nonneg(s);
    if k > 0 {
        assert(is_digit(s[0]));
        assert(forall|j: int| 0 <= j < k - 1 ==> #[trigger] s.skip(1)[j] == s[j + 1]);
        lemma_prefix_len_ge(s.skip(1), k - 1);
        assert(digits_prefix_len(s.skip(1)) >= k - 1);
        assert(s.len() > 0 && is_digit(s[0]));
        assert(digits_prefix_len(s) == 1 + digits_prefix_len(s.skip(1)));
        assert(digits_prefix_len(s) >= k);
    }
}

/// Parses a decimal string into fixed-point hundredths, exactly as
/// `spec_parse_fixed2` says: `16950.12` gives `1695012`.
#[verifier::loop_isolation(false)]
#[verifier::rlimit(80)]
pub fn parse_fixed2(s: &[u8]) -> (r: Option<i64>)
    ensures
        match r {
            Some(v) => spec_parse_fixed2(s@) == Some(v as int),
            None => spec_parse_fixed2(s@) is None,
        },
{
    let len = s.len();
    let neg = len > 0 && s[0] == 45;
    let start: usize = if neg {
        1
    } else {
        0
    };
    let ghost t = if neg {
        s@.skip(1)
    } else {
        s@
    };
    proof {
        assert(t.len() == len - start);
        assert(forall|j: int| 0 <= j < t.len() ==> #[trigger] t[j] == s@[start + j]);
        lemma_pow10_fifteen();
    }
    let mut i = start;
    let mut whole: i64 = 0;
    while i < len && s[i] >= 48 && s[i] <= 57
        invariant
            start <= i <= len,
            len == s@.len(),
            start == if neg { 1int } else { 0int },
            i - start <= MAX_WHOLE_DIGITS,
            t == (if neg {
                s@.skip(1)
            } else {
                s@
            }),
            forall|j: int| 0 <= j < t.len() ==> #[trigger] t[j] == s@[start + j],
            forall|j: int| 0 <= j < i - start ==> is_digit(#[trigger] t[j]),
            whole == digits_val(t.take(i - start)),
            0 <= whole < 1_000_000_000_000_000,
        decreases len - i,
    {
        proof {
            assert(is_digit(t[i - start]));
        }
        if i - start == MAX_WHOLE_DIGITS {
            proof {
                lemma_prefix_len_ge(t, MAX_WHOLE_DIGITS as int + 1);
            }
            return None;
        }
        proof {
            assert(all_digits(t.take(i - start)));
            lemma_digits_val_bound(t.take(i - start));
            lemma_pow10_le(i - start, 14);
            lemma_pow10_fifteen();
            assert(t.take(i - start + 1).drop_last() =~= t.take(i - start));
        }
        whole = whole * 10 + ((s[i] - 48) as i64);
        i += 1;
    }
    proof {
        lemma_prefix_len_at(t, i - start);
    }
    let whole_digits = i - start;
    if whole_digits == 0 {
        return None;
    }
    let mut frac: i64 = 0;
    if i < len {
        if s[i] != 46 {
            return None;
        }
        let mut k = i + 1;
        while k < len
            invariant
                i + 1 <= k <= len,
                len == s@.len(),
                forall|j: int| i + 1 <= j < k ==> is_digit(#[trigger] s@[j]),
            decreases len - k,
        {
            if !(s[k] >= 48 && s[k] <= 57) {
                proof {
                    let f = t.skip(i - start + 1);
                    assert(f[k - i - 1] == s@[k as int]);
                    assert(!all_digits(f));
                }
                return None;
            }
            k += 1;
        }
        proof {
            let f = t.skip(i - start + 1);
            assert(forall|j: int| 0 <= j < f.len() ==> #[trigger] f[j] == s@[i + 1 + j]);
            assert(all_digits(f));
        }
        if i + 1 < len {
            frac = ((s[i + 1] - 48) as i64) * 10;
            if i + 2 < len {
                frac = frac + ((s[i + 2] - 48) as i64);
            }
        }
        proof {
            let f = t.skip(i - start + 1);
            if f.len() >= 1 {
                assert(f[0] == s@[i + 1]);
            }
            if f.len() >= 2 {
                assert(f[1] == s@[i + 2]);
            }
            assert(frac == frac2_val(f));
        }
    }
    let v: i64 = whole * 100 + frac;
    Some(
        if neg {
            -v
        } else {
            v
        },
    )
}

/// One raw kline row, as the data source delivers it: an opening time
/// in milliseconds and decimal text for the prices and the volume.
#[derive(Clone, Debug)]
pub struct KlineRow {
    pub open_time_ms: i64,
    pub open_text: Vec<u8>,
    pub high_text: Vec<u8>,
    pub low_text: Vec<u8>,
    pub close_text: Vec<u8>,
    pub volume_text: Vec<u8>,
}

/// The whole seconds of a millisecond timestamp, with the fraction
/// truncated toward zero.
pub open spec fn spec_ts_of_ms(ms: int) -> int {
    if ms >= 0 {
        ms / 1000
    } else {
        -((-ms) / 1000)
    }
}

/// The candle a row stands for: its opening time in whole seconds and
/// its five decimal fields in hundredths. A row is dropped (`None`)
/// when a field does not parse, a price falls outside the chart's
/// bounds, or the volume is negative or too large.
pub open spec fn spec_row_candle(row: KlineRow) -> Option<Candle> {
    match (spec_parse_fixed2(row.open_text@), spec_parse_fixed2(row.high_text@),
        spec_parse_fixed2(row.low_text@), spec_parse_fixed2(row.close_text@),
        spec_parse_fixed2(row.volume_text@)) {
        (Some(o), Some(h), Some(l), Some(c), Some(v)) => {
            if -PRICE_LIMIT as int <= o <= PRICE_LIMIT as int && -PRICE_LIMIT as int <= h
                <= PRICE_LIMIT as int && -PRICE_LIMIT as int <= l <= PRICE_LIMIT as int
                && -PRICE_LIMIT as int <= c <= PRICE_LIMIT as int && 0 <= v
                <= VOLUME_LIMIT as int {
                Some(
                    Candle {
                        timestamp: spec_ts_of_ms(row.open_time_ms as int) as i64,
                        open: o as i64,
                        high: h as i64,
                        low: l as i64,
                        close: c as i64,
                        volume: v as i64,
                    },
                )
            } else {
                None
            }
        },
        _ => None,
    }
}

/// The candles of a row sequence, in order, with dropped rows left out.
pub open spec fn spec_candles(rows: Seq<KlineRow>) -> Seq<Candle>
    decreases rows.len(),
{
    if rows.len() == 0 {
        Seq::empty()
    } else {
        let rest = spec_candles(rows.drop_last());
        match spec_row_candle(rows.last()) {
            Some(c) => rest.push(c),
            None => rest,
        }
    }
}

/// Converts one raw row, exactly as `spec_row_candle` says.
pub fn row_candle(row: &KlineRow) -> (r: Option<Candle>)
    ensures
        r == spec_row_candle(*row),
        r matches Some(c) ==> c.wf(),
{
    let o = match parse_fixed2(row.open_text.as_slice()) {
        Some(v) => v,
        None => {
            return None;
        },
    };
    let h = match parse_fixed2(row.high_text.as_slice()) {
        Some(v) => v,
        None => {
            return None;
        },
    };
    let l = match parse_fixed2(row.low_text.as_slice()) {
        Some(v) => v,
        None => {
            return None;
        },
    };
    let c = match parse_fixed2(row.close_text.as_slice()) {
        Some(v) => v,
        None => {
            return None;
        },
    };
    let v = match parse_fixed2(row.volume_text.as_slice()) {
        Some(v) => v,
        None => {
            return None;
        },
    };
    if -PRICE_LIMIT <= o && o <= PRICE_LIMIT && -PRICE_LIMIT <= h && h <= PRICE_LIMIT
        && -PRICE_LIMIT <= l && l <= PRICE_LIMIT && -PRICE_LIMIT <= c && c <= PRICE_LIMIT && 0 <= v
        && v <= VOLUME_LIMIT {
        Some(
            Candle {
                timestamp: row.open_time_ms / 1000,
                open: o,
                high: h,
                low: l,
                close: c,
                volume: v,
            },
        )
    } else {
        None
    }
}

/// Converts a whole response: rows in order, dropped ones left out.
/// Every candle that comes out is inside the chart's bounds.
pub fn klines_to_candles(rows: &Vec<KlineRow>) -> (out: Vec<Candle>)
    ensures
        out@ == spec_candles(rows@),
        out@.len() <= rows@.len(),
        forall|i: int| 0 <= i < out@.len() ==> #[trigger] out@[i].wf(),
{
    let mut out: Vec<Candle> = Vec::new();
    let mut i: usize = 0;
    while i < rows.len()
        invariant
            0 <= i <= rows@.len(),
            out@ == spec_candles(rows@.take(i as int)),
            out@.len() <= i,
            forall|j: int| 0 <= j < out@.len() ==> #[trigger] out@[j].wf(),
        decreases rows@.len() - i,
    {
        proof {
            assert(rows@.take(i + 1).drop_last() =~= rows@.take(i as int));
            assert(rows@.take(i + 1).last() == rows@[i as int]);
        }
        match row_candle(&rows[i]) {
            Some(c) => {
                out.push(c);
            },
            None => {},
        }
        i += 1;
    }
    proof {
        assert(rows@.take(rows@.len() as int) =~= rows@);
    }
    out
}

} // verus!
