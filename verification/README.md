# gdax_trader

A small Bitcoin trading bot for the GDAX exchange, written as a Verus library
with a thin executable around it.

- `src/` is the verified library:
  - `error.rs`: the fetch error and the status check of an answer;
  - `endpoint.rs`: the endpoint traits, the product and currency records and
    the request addresses;
  - `market.rs`: the 350-minute windows in which candles are pulled, the
    RFC 3339 instants in the candle addresses, and a verified text replace;
  - `strategy.rs`: the falling/rising state machine, the window of recent
    prices and the progress counter;
  - `strategy_laws.rs`: what holds over whole runs of the state machine.
- `app/` is the program: HTTP requests, JSON and CSV, the clock, and the
  floating-point money arithmetic that feeds the state machine.
- `tests/` runs the library on concrete values.
