use vstd::prelude::*;
use crate::endpoint::candles_range_url;

verus! {

/// The span of one request for candles, 350 minutes, in nanoseconds.
pub const WINDOW_NANOS: i64 = 21_000_000_000_000;

/// `DateTime::<Utc>::checked_add_signed` on instants written as nanoseconds
/// since the Unix epoch. Every such instant, and every sum of two of them,
/// lies well inside chrono's range of dates, so the addition never fails
/// there; the result is `None` exactly when the sum no longer fits in
/// nanoseconds as an `i64`, where `timestamp_nanos_opt` gives up.
#[verifier::external_body]
fn instant_plus(instant: i64, delta: i64) -> (r: Option<i64>)
    ensures
        r == (if i64::MIN <= instant + delta <= i64::MAX {
            Some((instant + delta) as i64)
        } else {
            None::<i64>
        }),
{
    let moved = chrono::DateTime::from_timestamp_nanos(instant).checked_add_signed(
        chrono::TimeDelta::nanoseconds(delta),
    )?;
    moved.timestamp_nanos_opt()
}

/// `DateTime::<Utc>::checked_sub_signed` on instants written as nanoseconds
/// since the Unix epoch; `None` exactly when the difference does not fit in
/// nanoseconds as an `i64` (see `instant_plus`).
#[verifier::external_body]
fn instant_minus(instant: i64, delta: i64) -> (r: Option<i64>)
    ensures
        r == (if i64::MIN <= instant - delta <= i64::MAX {
            Some((instant - delta) as i64)
        } else {
            None::<i64>
        }),
{
    let moved = chrono::DateTime::from_timestamp_nanos(instant).checked_sub_signed(
        chrono::TimeDelta::nanoseconds(delta),
    )?;
    moved.timestamp_nanos_opt()
}

/// The text that chrono's `to_rfc3339` gives for the UTC instant that lies
/// the given number of nanoseconds after the Unix epoch.
pub uninterp spec fn rfc3339_text(instant: i64) -> Seq<char>;

/// `DateTime::<Utc>::to_rfc3339` of an instant written as nanoseconds since
/// the Unix epoch. Its text is only named here: nothing is stated of its form.
#[verifier::external_body]
fn rfc3339(instant: i64) -> (text: String)
    ensures
        text@ == rfc3339_text(instant),
{
    chrono::DateTime::from_timestamp_nanos(instant).to_rfc3339()
}

/// How many windows of `WINDOW_NANOS` it takes to step from `start` to or past `end`.
pub open spec fn window_count(start: int, end: int) -> nat
    decreases end - start + WINDOW_NANOS,
{
    if start < end {
        1 + window_count(start + WINDOW_NANOS, end)
    } else {
        0
    }
}

/// The inputs on which the windows can be computed: the first instant, and
/// the end of the last window, fit in nanoseconds as an `i64`.
pub open spec fn windows_fit(end: int, duration: int) -> bool {
    &&& i64::MIN <= end - duration <= i64::MAX
    &&& end - duration + window_count(end - duration, end as int) * WINDOW_NANOS <= i64::MAX
}

proof fn lemma_window_count_positive(start: int, end: int)
    ensures
        start < end <==> window_count(start, end) > 0,
{
}

/// The last window ends less than one window after `end`.
pub proof fn lemma_last_window_end(start: int, end: int)
    ensures
        start < end ==> start + window_count(start, end) * WINDOW_NANOS < end + WINDOW_NANOS,
        start >= end ==> window_count(start, end) == 0,
    decreases end - start + WINDOW_NANOS,
{
    if start < end {
        lemma_last_window_end(start + WINDOW_NANOS, end);
    }
}

/// The windows fit whenever the first instant does and one more window
/// after `end` still fits in nanoseconds as an `i64`.
pub proof fn lemma_windows_fit(end: int, duration: int)
    requires
        i64::MIN <= end - duration <= i64::MAX,
        end + WINDOW_NANOS <= i64::MAX,
    ensures
        windows_fit(end, duration),
{
    lemma_last_window_end(end - duration, end);
}

/// Splits the span of `duration` nanoseconds that ends at `end` into
/// consecutive windows of `WINDOW_NANOS`, the first starting at
/// `end - duration`; the last window is the first that reaches `end`.
pub fn market_windows(end: i64, duration: i64) -> (w: Vec<(i64, i64)>)
    requires
        windows_fit(end as int, duration as int),
    ensures
        w.len() == window_count(end - duration, end as int),
        w.len() == 0 <==> end - duration >= end,
        forall|i: int|
            0 <= i < w.len() ==> #[trigger] w[i].0 == end - duration + i * WINDOW_NANOS
                && w[i].1 == w[i].0 + WINDOW_NANOS,
        forall|i: int| 0 <= i < w.len() - 1 ==> #[trigger] w[i].1 == w[i + 1].0,
        w.len() > 0 ==> w[0].0 == end - duration,
        w.len() > 0 ==> w[w.len() - 1].0 < end <= w[w.len() - 1].1,
{
    let ghost total = window_count(end - duration, end as int);
    let start = match instant_minus(end, duration) {
        Some(s) => s,
        None => {
            return Vec::new();
        },
    };
    proof {
        lemma_window_count_positive(start as int, end as int);
    }
    let mut windows: Vec<(i64, i64)> = Vec::new();
    let mut cur = start;
    while cur < end
        invariant
            start == end - duration,
            total == window_count(start as int, end as int),
            start + total * WINDOW_NANOS <= i64::MAX,
            cur == start + windows.len() * WINDOW_NANOS,
            total == windows.len() + window_count(cur as int, end as int),
            forall|i: int|
                0 <= i < windows.len() ==> #[trigger] windows[i].0 == start + i * WINDOW_NANOS
                    && windows[i].1 == windows[i].0 + WINDOW_NANOS,
            windows.len() > 0 ==> windows[windows.len() - 1].0 < end,
        decreases end - cur + WINDOW_NANOS,
    {
        proof {
            lemma_window_count_positive(cur as int, end as int);
            assert(windows.len() + 1 <= total);
            assert((windows.len() + 1) * WINDOW_NANOS <= total * WINDOW_NANOS) by (nonlinear_arith)
                requires
                    windows.len() + 1 <= total,
            ;
        }
        let next = match instant_plus(cur, WINDOW_NANOS) {
            Some(n) => n,
            None => {
                return windows;
            },
        };
        proof {
            assert((windows.len() + 1) * WINDOW_NANOS == windows.len() * WINDOW_NANOS
                + WINDOW_NANOS) by (nonlinear_arith);
        }
        windows.push((cur, next));
        cur = next;
    }
    proof {
        lemma_window_count_positive(cur as int, end as int);
        lemma_window_count_positive(start as int, end as int);
        assert forall|i: int| 0 <= i < windows.len() - 1 implies #[trigger] windows[i].1 == windows[i
            + 1].0 by {
            assert(windows[i].0 == start + i * WINDOW_NANOS);
            assert(windows[i + 1].0 == start + (i + 1) * WINDOW_NANOS);
            assert((i + 1) * WINDOW_NANOS == i * WINDOW_NANOS + WINDOW_NANOS) by (nonlinear_arith);
        }
    }
    windows
}

/// The text of `s` with every occurrence of `from`, taken from the left and
/// without overlap, starting at character `i`, replaced by `to`.
pub open spec fn replace_from(s: Seq<char>, from: Seq<char>, to: Seq<char>, i: int) -> Seq<char>
    decreases s.len() - i,
{
    if i < 0 || i >= s.len() {
        Seq::empty()
    } else if from.len() > 0 && i + from.len() <= s.len() && s.subrange(i, i + from.len())
        == from {
        to + replace_from(s, from, to, i + from.len())
    } else {
        seq![s[i]] + replace_from(s, from, to, i + 1)
    }
}

/// `s` with every occurrence of `from`, from the left and without overlap,
/// replaced by `to`.
pub open spec fn replaced(s: Seq<char>, from: Seq<char>, to: Seq<char>) -> Seq<char> {
    replace_from(s, from, to, 0)
}

/// Whether `pat` occurs in `s` at character `i`.
fn occurs_at(s: &str, pat: &str, i: usize, n: usize, m: usize) -> (b: bool)
    requires
        n == s@.len(),
        m == pat@.len(),
        i <= n,
    ensures
        b == (i + m <= n && s@.subrange(i as int, i + m) == pat@),
{
    if m > n - i {
        return false;
    }
    let mut k: usize = 0;
    while k < m
        invariant
            n == s@.len(),
            m == pat@.len(),
            i + m <= n,
            k <= m,
            forall|j: int| 0 <= j < k ==> s@[i + j] == pat@[j],
        decreases m - k,
    {
        if s.get_char(i + k) != pat.get_char(k) {
            assert(s@.subrange(i as int, i + m)[k as int] != pat@[k as int]);
            return false;
        }
        k = k + 1;
    }
    assert(s@.subrange(i as int, i + m) =~= pat@);
    true
}

/// Replaces every occurrence of `from` in `s`, from the left and without
/// overlap, by `to`.
pub fn replace_all(s: &str, from: &str, to: &str) -> (r: String)
    requires
        from@.len() > 0,
    ensures
        r@ == replaced(s@, from@, to@),
{
    let n = s.unicode_len();
    let m = from.unicode_len();
    let mut out = String::new();
    let mut i: usize = 0;
    while i < n
        invariant
            n == s@.len(),
            m == from@.len(),
            m > 0,
            i <= n,
            out@ + replace_from(s@, from@, to@, i as int) == replace_from(s@, from@, to@, 0),
        decreases n - i,
    {
        let ghost before = out@;
        if occurs_at(s, from, i, n, m) {
            out.append(to);
            assert(before + replace_from(s@, from@, to@, i as int) =~= out@ + replace_from(
                s@,
                from@,
                to@,
                i + m,
            ));
            i = i + m;
        } else {
            let c = s.substring_char(i, i + 1);
            out.append(c);
            assert(c@ =~= seq![s@[i as int]]);
            assert(before + replace_from(s@, from@, to@, i as int) =~= out@ + replace_from(
                s@,
                from@,
                to@,
                i + 1,
            ));
            i = i + 1;
        }
    }
    assert(out@ =~= out@ + replace_from(s@, from@, to@, i as int));
    out
}

/// The address of the candles of `product` between two instants written as
/// text, at the given granularity.
pub open spec fn candles_range_text(
    product: Seq<char>,
    start: Seq<char>,
    end: Seq<char>,
    granularity: Seq<char>,
) -> Seq<char> {
    "http://api.gdax.com/products/"@ + product + "/candles?start="@ + start + "&end="@ + end
        + "&granularity="@ + granularity
}

/// The address for one window: both instants in RFC 3339 form with the
/// UTC offset `+00:00` taken out.
pub open spec fn window_url_text(
    product: Seq<char>,
    start_text: Seq<char>,
    end_text: Seq<char>,
    granularity: Seq<char>,
) -> Seq<char> {
    candles_range_text(
        product,
        replaced(start_text, "+00:00"@, ""@),
        replaced(end_text, "+00:00"@, ""@),
        granularity,
    )
}

/// Builds the address of one window from the RFC 3339 texts of its two
/// instants: the offset `+00:00` is taken out of both.
pub fn window_url_from_rfc3339(
    product: &str,
    start_text: &str,
    end_text: &str,
    granularity: &str,
) -> (url: String)
    ensures
        url@ == window_url_text(product@, start_text@, end_text@, granularity@),
{
    proof {
        reveal_strlit("+00:00");
    }
    let start = replace_all(start_text, "+00:00", "");
    let end = replace_all(end_text, "+00:00", "");
    candles_range_url(product, start.as_str(), end.as_str(), granularity)
}

/// Builds the address of the candles of `product` in the window `window`,
/// given as instants in nanoseconds since the Unix epoch.
pub fn window_url(product: &str, window: (i64, i64), granularity: &str) -> (url: String)
    ensures
        url@ == window_url_text(
            product@,
            rfc3339_text(window.0),
            rfc3339_text(window.1),
            granularity@,
        ),
{
    let start = rfc3339(window.0);
    let end = rfc3339(window.1);
    window_url_from_rfc3339(product, start.as_str(), end.as_str(), granularity)
}

/// The addresses from which the one-minute candles of BTC-USD for the span
/// of `duration` nanoseconds that ends at `end` are pulled, one per window.
pub fn candle_request_urls(end: i64, duration: i64) -> (urls: Vec<String>)
    requires
        windows_fit(end as int, duration as int),
    ensures
        urls.len() == window_count(end - duration, end as int),
        forall|i: int|
            0 <= i < urls.len() ==> #[trigger] urls[i]@ == window_url_text(
                "BTC-USD"@,
                rfc3339_text((end - duration + i * WINDOW_NANOS) as i64),
                rfc3339_text((end - duration + (i + 1) * WINDOW_NANOS) as i64),
                "60"@,
            ),
{
    let windows = market_windows(end, duration);
    let mut urls: Vec<String> = Vec::new();
    let mut k: usize = 0;
    while k < windows.len()
        invariant
            k <= windows.len(),
            urls.len() == k,
            forall|i: int|
                0 <= i < windows.len() ==> #[trigger] windows[i].0 == end - duration + i
                    * WINDOW_NANOS && windows[i].1 == windows[i].0 + WINDOW_NANOS,
            forall|i: int|
                0 <= i < k ==> #[trigger] urls[i]@ == window_url_text(
                    "BTC-USD"@,
                    rfc3339_text((end - duration + i * WINDOW_NANOS) as i64),
                    rfc3339_text((end - duration + (i + 1) * WINDOW_NANOS) as i64),
                    "60"@,
                ),
        decreases windows.len() - k,
    {
        let url = window_url("BTC-USD", windows[k], "60");
        proof {
            assert((k + 1) * WINDOW_NANOS == k * WINDOW_NANOS + WINDOW_NANOS) by (nonlinear_arith);
            assert(windows[k as int].1 == end - duration + (k + 1) * WINDOW_NANOS);
        }
        urls.push(url);
        k = k + 1;
    }
    urls
}

} // verus!
