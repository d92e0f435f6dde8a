//! A small Bitcoin trading bot for the GDAX exchange: the request URLs of its
//! REST endpoints, the time windows in which historical candles are pulled,
//! and the falling/rising state machine that decides when to buy and sell.

pub mod error;
pub mod strategy;
pub mod strategy_laws;
pub mod endpoint;
pub mod market;
