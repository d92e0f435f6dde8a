use gdax_trader::endpoint::{candles_range_url, candles_url, currencies_url, products_url, time_url, APIEndpoint, Currency, ProductData};

#[test]
fn fixed_endpoints() {
    assert_eq!(products_url(), "http://api.gdax.com/products");
    assert_eq!(currencies_url(), "http://api.gdax.com/currencies");
    assert_eq!(time_url(), "http://api.gdax.com/time");
    assert_eq!(<Vec<ProductData> as APIEndpoint>::url(), "http://api.gdax.com/products");
    assert_eq!(<Vec<Currency> as APIEndpoint>::url(), "http://api.gdax.com/currencies");
}

#[test]
fn candle_endpoints() {
    assert_eq!(candles_url("BTC-USD"), "http://api.gdax.com/products/BTC-USD/candles");
    assert_eq!(
        candles_range_url("BTC-USD", "a", "b", "60"),
        "http://api.gdax.com/products/BTC-USD/candles?start=a&end=b&granularity=60"
    );
}
