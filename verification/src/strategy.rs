use vstd::prelude::*;

verus! {

/// Beyond the newest price, how many earlier prices the window keeps.
pub const BUF_SIZE: usize = 1;

/// The progress counter counts past this value before a report is due.
pub const REPORT_AFTER: u32 = 1440;

/// The phase of the trading state machine.
#[derive(Clone, Copy, Debug, PartialEq, Eq, Structural)]
pub enum Phase {
    /// Waiting for the first fall of the price.
    Idle,
    /// The price is falling: buy at the first rise.
    Falling,
    /// Coins are (possibly) held and the price is rising: sell when it turns.
    Rising,
}

/// What the state machine asks for on one price.
#[derive(Clone, Copy, Debug, PartialEq, Eq, Structural)]
pub enum Order {
    /// Do nothing.
    Hold,
    /// Buy the largest allowed amount of coins.
    BuyMax,
    /// Buy coins for the staked share of the money.
    BuyStake,
    /// Buy the smallest allowed amount of coins.
    BuyMin,
    /// Sell every coin held.
    SellAll,
}

impl Order {
    pub open spec fn is_buy(self) -> bool {
        ||| self == Order::BuyMax
        ||| self == Order::BuyStake
        ||| self == Order::BuyMin
    }
}

/// The comparisons between the current price, the previous price, the money
/// and the coins held that the state machine reads.
#[derive(Clone, Copy, Debug)]
pub struct Signals {
    /// The price is below the previous price.
    pub price_fell: bool,
    /// The price is above the previous price.
    pub price_rose: bool,
    /// The money covers the smallest allowed purchase.
    pub can_afford_min: bool,
    /// The staked share of the money buys more than the smallest allowed amount.
    pub stake_over_min: bool,
    /// The staked share of the money buys more than the largest allowed amount.
    pub stake_over_max: bool,
    /// The prices in the window trend downwards.
    pub trend_down: bool,
    /// The coins held are worth more than was paid for them.
    pub in_profit: bool,
}

/// The size of a purchase when the price turns upwards.
pub open spec fn buy_order(s: Signals) -> Order {
    if !s.can_afford_min {
        Order::Hold
    } else if !s.stake_over_min {
        Order::BuyMin
    } else if s.stake_over_max {
        Order::BuyMax
    } else {
        Order::BuyStake
    }
}

/// One step of the state machine: the next phase and the order, given the
/// phase, the number of prices in the window and the signals.
pub open spec fn transition(phase: Phase, window_len: nat, s: Signals) -> (Phase, Order) {
    match phase {
        Phase::Idle => {
            if window_len > BUF_SIZE && s.price_fell {
                (Phase::Falling, Order::Hold)
            } else {
                (Phase::Idle, Order::Hold)
            }
        },
        Phase::Falling => {
            if s.price_rose {
                (Phase::Rising, buy_order(s))
            } else {
                (Phase::Falling, Order::Hold)
            }
        },
        Phase::Rising => {
            if s.trend_down && s.in_profit {
                (Phase::Falling, Order::SellAll)
            } else {
                (Phase::Rising, Order::Hold)
            }
        },
    }
}

/// Decides the next phase and the order for one price.
pub fn decide(phase: Phase, window_len: usize, s: Signals) -> (r: (Phase, Order))
    ensures
        r == transition(phase, window_len as nat, s),
        r.1.is_buy() ==> s.can_afford_min && s.price_rose && phase == Phase::Falling,
        r.1 == Order::SellAll ==> s.in_profit && s.trend_down && phase == Phase::Rising,
        phase == Phase::Idle && r.0 != Phase::Idle ==> s.price_fell && window_len > BUF_SIZE,
        phase == Phase::Idle ==> r.1 == Order::Hold,
{
    match phase {
        Phase::Idle => {
            if window_len > BUF_SIZE && s.price_fell {
                (Phase::Falling, Order::Hold)
            } else {
                (Phase::Idle, Order::Hold)
            }
        },
        Phase::Falling => {
            if s.price_rose {
                let order = if !s.can_afford_min {
                    Order::Hold
                } else if !s.stake_over_min {
                    Order::BuyMin
                } else if s.stake_over_max {
                    Order::BuyMax
                } else {
                    Order::BuyStake
                };
                (Phase::Rising, order)
            } else {
                (Phase::Falling, Order::Hold)
            }
        },
        Phase::Rising => {
            if s.trend_down && s.in_profit {
                (Phase::Falling, Order::SellAll)
            } else {
                (Phase::Rising, Order::Hold)
            }
        },
    }
}

/// The window after one more price: the price is appended, and the oldest
/// price leaves once the window already held more than `BUF_SIZE` prices.
pub open spec fn slide<T>(window: Seq<T>, price: T) -> Seq<T> {
    if window.len() > BUF_SIZE {
        window.push(price).drop_first()
    } else {
        window.push(price)
    }
}

/// Appends a price to the window of recent prices, dropping the oldest one
/// when the window is already full.
pub fn push_window<T>(window: &mut Vec<T>, price: T)
    ensures
        final(window)@ == slide(old(window)@, price),
        old(window)@.len() <= BUF_SIZE + 1 ==> final(window)@.len() <= BUF_SIZE + 1,
{
    if window.len() > BUF_SIZE {
        window.push(price);
        window.remove(0);
    } else {
        window.push(price);
    }
}

/// One tick of the progress counter: the next count, and whether a report is due.
pub open spec fn tick(count: u32) -> (u32, bool) {
    if count > REPORT_AFTER {
        (0, true)
    } else {
        ((count + 1) as u32, false)
    }
}

/// Advances the progress counter; a report is due, and the counter restarts
/// from zero, once it has counted past `REPORT_AFTER`.
pub fn report_tick(count: u32) -> (r: (u32, bool))
    ensures
        r == tick(count),
{
    if count > REPORT_AFTER {
        (0, true)
    } else {
        (count + 1, false)
    }
}

/// What a trader holds: its phase, its window of recent prices and its
/// progress counter.
pub struct TraderView<T> {
    pub phase: Phase,
    pub window: Seq<T>,
    pub count: u32,
}

/// The state that the trading loop carries from one price to the next.
pub struct Trader<T> {
    phase: Phase,
    window: Vec<T>,
    count: u32,
}

impl<T> View for Trader<T> {
    type V = TraderView<T>;

    closed spec fn view(&self) -> TraderView<T> {
        TraderView { phase: self.phase, window: self.window@, count: self.count }
    }
}

impl<T> Trader<T> {
    /// A trader that has seen no price yet.
    pub fn new() -> (t: Trader<T>)
        ensures
            t@.phase == Phase::Idle,
            t@.window == Seq::<T>::empty(),
            t@.count == 0,
    {
        Trader { phase: Phase::Idle, window: Vec::new(), count: 0 }
    }

    /// The current phase.
    pub fn phase(&self) -> (p: Phase)
        ensures
            p == self@.phase,
    {
        self.phase
    }

    /// The window of recent prices, oldest first.
    pub fn window(&self) -> (w: &Vec<T>)
        ensures
            w@ == self@.window,
    {
        &self.window
    }

    /// The progress counter.
    pub fn count(&self) -> (c: u32)
        ensures
            c == self@.count,
    {
        self.count
    }

    /// Takes in the next price.
    pub fn push_price(&mut self, price: T)
        ensures
            final(self)@.window == slide(old(self)@.window, price),
            final(self)@.phase == old(self)@.phase,
            final(self)@.count == old(self)@.count,
            old(self)@.window.len() <= BUF_SIZE + 1 ==> final(self)@.window.len() <= BUF_SIZE + 1,
    {
        push_window(&mut self.window, price);
    }

    /// Decides on the latest price: moves the state machine and the progress
    /// counter, and returns the order and whether a report is due.
    pub fn step(&mut self, s: Signals) -> (r: (Order, bool))
        ensures
            (final(self)@.phase, r.0) == transition(old(self)@.phase, old(self)@.window.len(), s),
            (final(self)@.count, r.1) == tick(old(self)@.count),
            final(self)@.window == old(self)@.window,
    {
        let (phase, order) = decide(self.phase, self.window.len(), s);
        let (count, report) = report_tick(self.count);
        self.phase = phase;
        self.count = count;
        (order, report)
    }
}

} // verus!
