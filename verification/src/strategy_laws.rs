use vstd::prelude::*;
use crate::strategy::{BUF_SIZE, REPORT_AFTER, Order, Phase, Signals, slide, tick, transition};

verus! {

/// The phase before step `k` of a run that starts in `start` and is fed, at
/// step `i`, the window length and the signals `inputs[i]`.
pub open spec fn phase_at(start: Phase, inputs: Seq<(nat, Signals)>, k: nat) -> Phase
    decreases k,
{
    if k == 0 {
        start
    } else {
        let i = (k - 1) as nat;
        transition(phase_at(start, inputs, i), inputs[i as int].0, inputs[i as int].1).0
    }
}

/// The order given at step `k` of such a run.
pub open spec fn order_at(start: Phase, inputs: Seq<(nat, Signals)>, k: nat) -> Order {
    transition(phase_at(start, inputs, k), inputs[k as int].0, inputs[k as int].1).1
}

/// The window after the prices `prices` were pushed, in order, into an empty window.
pub open spec fn window_after<T>(prices: Seq<T>) -> Seq<T>
    decreases prices.len(),
{
    if prices.len() == 0 {
        Seq::empty()
    } else {
        slide(window_after(prices.drop_last()), prices.last())
    }
}

/// The progress counter after `n` prices, starting from zero.
pub open spec fn count_after(n: nat) -> u32
    decreases n,
{
    if n == 0 {
        0
    } else {
        tick(count_after((n - 1) as nat)).0
    }
}

/// How many prices make up one reporting period.
pub open spec fn report_period() -> nat {
    REPORT_AFTER as nat + 2
}

/// A single step trades only on a turn of the phase: nothing is traded while
/// idle, a purchase moves from falling to rising, and a sale moves from rising
/// to falling.
pub proof fn lemma_trades_turn_the_phase(phase: Phase, window_len: nat, s: Signals)
    ensures
        phase == Phase::Idle ==> transition(phase, window_len, s).1 == Order::Hold,
        transition(phase, window_len, s).1.is_buy() ==> phase == Phase::Falling
            && transition(phase, window_len, s).0 == Phase::Rising,
        transition(phase, window_len, s).1 == Order::SellAll ==> phase == Phase::Rising
            && transition(phase, window_len, s).0 == Phase::Falling,
        transition(phase, window_len, s).0 == Phase::Idle ==> phase == Phase::Idle,
{
}

/// The trading rules, stated over the signals alone. Idle: nothing is
/// traded, and the machine leaves Idle (for Falling) exactly when the window
/// is full and the price fell. Falling: it turns to Rising exactly when the
/// price rose; a purchase happens only then and only when the money covers
/// the smallest purchase; the smallest amount is bought when the staked share
/// does not exceed it, the largest when the staked share exceeds the largest,
/// the staked share otherwise. Rising: nothing is bought, and everything is
/// sold (turning back to Falling) exactly when the prices trend down and the
/// coins are worth more than was paid for them.
pub proof fn lemma_trading_rules(phase: Phase, window_len: nat, s: Signals)
    ensures
        ({
            let (next, order) = transition(phase, window_len, s);
            &&& order.is_buy() ==> s.can_afford_min && s.price_rose && phase == Phase::Falling
            &&& order == Order::SellAll ==> s.in_profit && s.trend_down && phase == Phase::Rising
            &&& phase == Phase::Idle ==> {
                &&& order == Order::Hold
                &&& next == Phase::Idle || next == Phase::Falling
                &&& next != Phase::Idle <==> (window_len > BUF_SIZE && s.price_fell)
            }
            &&& phase == Phase::Falling ==> {
                &&& order != Order::SellAll
                &&& next != Phase::Idle
                &&& next == Phase::Rising <==> s.price_rose
                &&& !s.price_rose ==> order == Order::Hold
                &&& order == Order::Hold <==> (!s.price_rose || !s.can_afford_min)
                &&& order == Order::BuyMin <==> (s.price_rose && s.can_afford_min
                    && !s.stake_over_min)
                &&& order == Order::BuyMax <==> (s.price_rose && s.can_afford_min
                    && s.stake_over_min && s.stake_over_max)
                &&& order == Order::BuyStake <==> (s.price_rose && s.can_afford_min
                    && s.stake_over_min && !s.stake_over_max)
            }
            &&& phase == Phase::Rising ==> {
                &&& !order.is_buy()
                &&& next != Phase::Idle
                &&& order == Order::SellAll <==> (s.trend_down && s.in_profit)
                &&& next == Phase::Falling <==> order == Order::SellAll
                &&& order == Order::Hold <==> !(s.trend_down && s.in_profit)
            }
        }),
{
}

/// After a purchase the machine stays rising until it sells.
proof fn lemma_rising_until_sale(start: Phase, inputs: Seq<(nat, Signals)>, i: nat, m: nat)
    requires
        i < m <= inputs.len(),
        order_at(start, inputs, i).is_buy(),
        forall|k: nat| i < k < m ==> order_at(start, inputs, k) != Order::SellAll,
    ensures
        phase_at(start, inputs, m) == Phase::Rising,
    decreases m - i,
{
    if m == i + 1 {
        lemma_trades_turn_the_phase(
            phase_at(start, inputs, i),
            inputs[i as int].0,
            inputs[i as int].1,
        );
    } else {
        let p = (m - 1) as nat;
        lemma_rising_until_sale(start, inputs, i, p);
        assert(order_at(start, inputs, p) != Order::SellAll);
    }
}

/// Between two purchases the trader always sells: it never buys twice in a row.
pub proof fn lemma_sale_between_purchases(
    start: Phase,
    inputs: Seq<(nat, Signals)>,
    i: nat,
    j: nat,
)
    requires
        i < j < inputs.len(),
        order_at(start, inputs, i).is_buy(),
        order_at(start, inputs, j).is_buy(),
    ensures
        exists|k: nat| i < k < j && order_at(start, inputs, k) == Order::SellAll,
{
    if forall|k: nat| i < k < j ==> order_at(start, inputs, k) != Order::SellAll {
        lemma_rising_until_sale(start, inputs, i, j);
        lemma_trades_turn_the_phase(
            phase_at(start, inputs, j),
            inputs[j as int].0,
            inputs[j as int].1,
        );
    }
}

/// Once the machine has left `Idle` it never returns to it.
pub proof fn lemma_idle_only_at_start(start: Phase, inputs: Seq<(nat, Signals)>, k1: nat, k2: nat)
    requires
        k1 <= k2,
        phase_at(start, inputs, k2) == Phase::Idle,
    ensures
        phase_at(start, inputs, k1) == Phase::Idle,
    decreases k2 - k1,
{
    if k1 < k2 {
        let p = (k2 - 1) as nat;
        lemma_trades_turn_the_phase(
            phase_at(start, inputs, p),
            inputs[p as int].0,
            inputs[p as int].1,
        );
        lemma_idle_only_at_start(start, inputs, k1, p);
    }
}

/// The window holds exactly the latest `BUF_SIZE + 1` prices (all of them
/// while fewer have been seen), oldest first.
pub proof fn lemma_window_is_latest_prices<T>(prices: Seq<T>)
    ensures
        window_after(prices) == prices.skip(
            prices.len() - (if prices.len() <= BUF_SIZE + 1 {
                prices.len() as int
            } else {
                BUF_SIZE + 1
            }),
        ),
        window_after(prices).len() <= BUF_SIZE + 1,
    decreases prices.len(),
{
    if prices.len() > 0 {
        let q = prices.drop_last();
        lemma_window_is_latest_prices(q);
        if q.len() > BUF_SIZE {
            assert(q.skip(q.len() - (BUF_SIZE + 1)).push(prices.last()).drop_first() =~= prices.skip(
                prices.len() - (BUF_SIZE + 1),
            ));
        } else {
            assert(q.skip(0).push(prices.last()) =~= prices.skip(0));
        }
    } else {
        assert(prices.skip(0) =~= Seq::<T>::empty());
    }
}

/// A report is due once every `REPORT_AFTER + 2` prices: the counter after
/// `n` prices is `n` modulo the period, and the report comes on the last
/// price of each period.
pub proof fn lemma_report_period(n: nat)
    ensures
        count_after(n) == n % report_period(),
        tick(count_after(n)).1 <==> n % report_period() == report_period() - 1,
    decreases n,
{
    if n > 0 {
        let p = (n - 1) as nat;
        lemma_report_period(p);
        assert(n % report_period() == if p % report_period() == report_period() - 1 {
            0
        } else {
            p % report_period() + 1
        }) by (nonlinear_arith)
            requires
                n == p + 1,
                report_period() == 1442,
        ;
    }
}

} // verus!
