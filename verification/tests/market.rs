use gdax_trader::market::{candle_request_urls, market_windows, replace_all, window_url, window_url_from_rfc3339, WINDOW_NANOS};

const NEW_YEAR_2018: i64 = 1_514_764_800_000_000_000;
const MINUTE: i64 = 60_000_000_000;

#[test]
fn windows_cover_the_span() {
    let end = NEW_YEAR_2018;
    let w = market_windows(end, 1000 * MINUTE);
    assert_eq!(w.len(), 3);
    assert_eq!(w[0], (end - 1000 * MINUTE, end - 650 * MINUTE));
    assert_eq!(w[1], (end - 650 * MINUTE, end - 300 * MINUTE));
    assert_eq!(w[2], (end - 300 * MINUTE, end + 50 * MINUTE));
}

#[test]
fn windows_of_exact_multiples() {
    let end = NEW_YEAR_2018;
    let w = market_windows(end, 2 * WINDOW_NANOS);
    assert_eq!(w, vec![(end - 2 * WINDOW_NANOS, end - WINDOW_NANOS), (end - WINDOW_NANOS, end)]);
}

#[test]
fn four_weeks_of_windows() {
    let end = NEW_YEAR_2018;
    let w = market_windows(end, 4 * 7 * 24 * 60 * MINUTE);
    assert_eq!(w.len(), 116);
    assert!(w.last().unwrap().0 < end && end <= w.last().unwrap().1);
}

#[test]
fn no_windows_for_an_empty_span() {
    assert!(market_windows(NEW_YEAR_2018, 0).is_empty());
    assert!(market_windows(NEW_YEAR_2018, -5 * MINUTE).is_empty());
}

#[test]
fn replace_all_is_non_overlapping() {
    assert_eq!(replace_all("aaa", "aa", "b"), "ba");
    assert_eq!(replace_all("x+00:00y+00:00", "+00:00", ""), "xy");
    assert_eq!(replace_all("abc", "d", "e"), "abc");
    assert_eq!(replace_all("", "d", "e"), "");
    assert_eq!(replace_all("héllo", "l", "L"), "héLLo");
}

#[test]
fn window_url_strips_the_offset() {
    let url = window_url_from_rfc3339("BTC-USD", "2018-01-01T00:00:00+00:00", "2018-01-01T05:50:00+00:00", "60");
    assert_eq!(
        url,
        "http://api.gdax.com/products/BTC-USD/candles?start=2018-01-01T00:00:00&end=2018-01-01T05:50:00&granularity=60"
    );
}

#[test]
fn window_url_formats_instants() {
    let url = window_url("BTC-USD", (NEW_YEAR_2018, NEW_YEAR_2018 + WINDOW_NANOS), "60");
    assert_eq!(
        url,
        "http://api.gdax.com/products/BTC-USD/candles?start=2018-01-01T00:00:00&end=2018-01-01T05:50:00&granularity=60"
    );
    let url = window_url("ETH-EUR", (NEW_YEAR_2018 + 1_500_000, NEW_YEAR_2018 + MINUTE), "300");
    assert_eq!(
        url,
        "http://api.gdax.com/products/ETH-EUR/candles?start=2018-01-01T00:00:00.001500&end=2018-01-01T00:01:00&granularity=300"
    );
}

#[test]
fn request_urls_for_each_window() {
    let urls = candle_request_urls(NEW_YEAR_2018 + WINDOW_NANOS, 2 * WINDOW_NANOS);
    assert_eq!(
        urls,
        vec![
            "http://api.gdax.com/products/BTC-USD/candles?start=2017-12-31T18:10:00&end=2018-01-01T00:00:00&granularity=60".to_string(),
            "http://api.gdax.com/products/BTC-USD/candles?start=2018-01-01T00:00:00&end=2018-01-01T05:50:00&granularity=60".to_string(),
        ]
    );
}
