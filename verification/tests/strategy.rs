use gdax_trader::strategy::{decide, push_window, report_tick, Order, Phase, Signals, Trader, BUF_SIZE, REPORT_AFTER};

fn quiet() -> Signals {
    Signals {
        price_fell: false,
        price_rose: false,
        can_afford_min: false,
        stake_over_min: false,
        stake_over_max: false,
        trend_down: false,
        in_profit: false,
    }
}

fn rise(can_afford_min: bool, stake_over_min: bool, stake_over_max: bool) -> Signals {
    Signals { price_rose: true, can_afford_min, stake_over_min, stake_over_max, ..quiet() }
}

#[test]
fn idle_waits_for_a_full_window_and_a_fall() {
    let fall = Signals { price_fell: true, ..quiet() };
    assert_eq!(decide(Phase::Idle, 1, fall), (Phase::Idle, Order::Hold));
    assert_eq!(decide(Phase::Idle, 2, quiet()), (Phase::Idle, Order::Hold));
    assert_eq!(decide(Phase::Idle, 2, fall), (Phase::Falling, Order::Hold));
}

#[test]
fn idle_never_trades() {
    let all = Signals {
        price_fell: true,
        price_rose: true,
        can_afford_min: true,
        stake_over_min: true,
        stake_over_max: true,
        trend_down: true,
        in_profit: true,
    };
    assert_eq!(decide(Phase::Idle, 0, all).1, Order::Hold);
    assert_eq!(decide(Phase::Idle, 5, all).1, Order::Hold);
}

#[test]
fn falling_buys_on_the_first_rise() {
    assert_eq!(decide(Phase::Falling, 2, quiet()), (Phase::Falling, Order::Hold));
    assert_eq!(decide(Phase::Falling, 2, rise(false, true, true)), (Phase::Rising, Order::Hold));
    assert_eq!(decide(Phase::Falling, 2, rise(true, false, true)), (Phase::Rising, Order::BuyMin));
    assert_eq!(decide(Phase::Falling, 2, rise(true, true, true)), (Phase::Rising, Order::BuyMax));
    assert_eq!(decide(Phase::Falling, 2, rise(true, true, false)), (Phase::Rising, Order::BuyStake));
}

#[test]
fn rising_sells_only_on_a_profitable_downturn() {
    let down = Signals { trend_down: true, ..quiet() };
    let profit = Signals { in_profit: true, ..quiet() };
    let both = Signals { trend_down: true, in_profit: true, ..quiet() };
    assert_eq!(decide(Phase::Rising, 2, down), (Phase::Rising, Order::Hold));
    assert_eq!(decide(Phase::Rising, 2, profit), (Phase::Rising, Order::Hold));
    assert_eq!(decide(Phase::Rising, 2, both), (Phase::Falling, Order::SellAll));
    assert_eq!(decide(Phase::Rising, 2, rise(true, true, true)), (Phase::Rising, Order::Hold));
}

#[test]
fn no_second_purchase_before_a_sale() {
    let mut phase = Phase::Falling;
    let mut orders = Vec::new();
    let inputs = vec![
        rise(true, true, false),
        rise(true, true, false),
        Signals { trend_down: true, ..quiet() },
        rise(true, false, false),
        Signals { trend_down: true, in_profit: true, ..quiet() },
        rise(true, false, false),
    ];
    for s in inputs {
        let (next, order) = decide(phase, 2, s);
        orders.push(order);
        phase = next;
    }
    assert_eq!(
        orders,
        vec![Order::BuyStake, Order::Hold, Order::Hold, Order::Hold, Order::SellAll, Order::BuyMin]
    );
}

#[test]
fn window_keeps_the_latest_prices() {
    let mut window: Vec<u32> = Vec::new();
    push_window(&mut window, 5);
    assert_eq!(window, vec![5]);
    push_window(&mut window, 6);
    assert_eq!(window, vec![5, 6]);
    push_window(&mut window, 7);
    assert_eq!(window, vec![6, 7]);
    push_window(&mut window, 8);
    assert_eq!(window, vec![7, 8]);
    assert_eq!(window.len(), BUF_SIZE + 1);
}

#[test]
fn report_counter_wraps() {
    assert_eq!(report_tick(0), (1, false));
    assert_eq!(report_tick(REPORT_AFTER), (REPORT_AFTER + 1, false));
    assert_eq!(report_tick(REPORT_AFTER + 1), (0, true));
}

#[test]
fn report_comes_once_every_period() {
    let mut count = 0;
    let mut reports = Vec::new();
    for n in 0..5000u32 {
        let (next, report) = report_tick(count);
        if report {
            reports.push(n);
        }
        count = next;
    }
    assert_eq!(reports, vec![1441, 2883, 4325]);
}

#[test]
fn trader_follows_prices() {
    let mut trader: Trader<f32> = Trader::new();
    assert_eq!(trader.phase(), Phase::Idle);
    trader.push_price(10.0);
    let fall = Signals { price_fell: true, ..quiet() };
    assert_eq!(trader.step(fall), (Order::Hold, false));
    assert_eq!(trader.phase(), Phase::Idle);
    trader.push_price(9.0);
    assert_eq!(trader.step(fall), (Order::Hold, false));
    assert_eq!(trader.phase(), Phase::Falling);
    trader.push_price(9.5);
    assert_eq!(trader.window(), &vec![9.0, 9.5]);
    assert_eq!(trader.step(rise(true, false, false)), (Order::BuyMin, false));
    assert_eq!(trader.phase(), Phase::Rising);
    assert_eq!(trader.count(), 3);
}
