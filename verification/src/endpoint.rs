use vstd::prelude::*;

verus! {

/// An endpoint of the exchange's REST API that takes no parameter.
pub trait APIEndpoint {
    fn url() -> String;
}

/// An endpoint that takes one parameter.
pub trait APIEndpoint1 {
    fn url(param: &str) -> String;
}

/// An endpoint that takes two parameters.
pub trait APIEndpoint2 {
    fn url(param1: &str, param2: &str) -> String;
}

/// An endpoint that takes three parameters.
pub trait APIEndpoint3 {
    fn url(param1: &str, param2: &str, param3: &str) -> String;
}

/// An endpoint that takes four parameters.
pub trait APIEndpoint4 {
    fn url(param1: &str, param2: &str, param3: &str, param4: &str) -> String;
}

/// A currency pair that the exchange trades.
pub struct ProductData {
    pub id: String,
    pub base_currency: String,
    pub quote_currency: String,
    pub base_min_size: String,
    pub base_max_size: String,
    pub quote_increment: String,
    pub display_name: String,
    pub status: String,
    pub margin_enabled: bool,
    pub status_message: Option<String>,
    pub min_market_funds: String,
    pub max_market_funds: String,
    pub post_only: bool,
    pub limit_only: bool,
}

/// A currency that the exchange knows.
pub struct Currency {
    pub id: String,
    pub name: String,
    pub min_size: String,
    pub status: String,
    pub message: Option<String>,
}

/// The address of the list of products.
pub fn products_url() -> (url: String)
    ensures
        url@ == "http://api.gdax.com/products"@,
{
    String::from_str("http://api.gdax.com/products")
}

/// The address of the list of currencies.
pub fn currencies_url() -> (url: String)
    ensures
        url@ == "http://api.gdax.com/currencies"@,
{
    String::from_str("http://api.gdax.com/currencies")
}

/// The address of the exchange's clock.
pub fn time_url() -> (url: String)
    ensures
        url@ == "http://api.gdax.com/time"@,
{
    String::from_str("http://api.gdax.com/time")
}

/// The address of the latest candles of a product.
pub fn candles_url(product: &str) -> (url: String)
    ensures
        url@ == "http://api.gdax.com/products/"@ + product@ + "/candles"@,
{
    let mut url = String::from_str("http://api.gdax.com/products/");
    url.append(product);
    url.append("/candles");
    url
}

/// The address of the candles of a product between two instants, at the
/// given granularity in seconds.
pub fn candles_range_url(product: &str, start: &str, end: &str, granularity: &str) -> (url: String)
    ensures
        url@ == "http://api.gdax.com/products/"@ + product@ + "/candles?start="@ + start@
            + "&end="@ + end@ + "&granularity="@ + granularity@,
{
    let mut url = String::from_str("http://api.gdax.com/products/");
    url.append(product);
    url.append("/candles?start=");
    url.append(start);
    url.append("&end=");
    url.append(end);
    url.append("&granularity=");
    url.append(granularity);
    url
}

impl APIEndpoint for Vec<ProductData> {
    fn url() -> (url: String)
        ensures
            url@ == "http://api.gdax.com/products"@,
    {
        products_url()
    }
}

impl APIEndpoint for Vec<Currency> {
    fn url() -> (url: String)
        ensures
            url@ == "http://api.gdax.com/currencies"@,
    {
        currencies_url()
    }
}

} // verus!
