use vstd::prelude::*;
use crate::mean::{Mean, sum_of};
use crate::strategy::{
    Decision, slide, mean_result, buy_signal, sell_signal, decide,
};

verus! {

/// The window after `prices` come in one by one, starting from `history`.
pub open spec fn slide_all(window_size: nat, history: Seq<i64>, prices: Seq<i64>) -> Seq<i64>
    decreases prices.len(),
{
    if prices.len() == 0 {
        history
    } else {
        slide(window_size, slide_all(window_size, history, prices.drop_last()), prices.last())
    }
}

/// The last `n` elements of `s`, or all of `s` when it has no more than `n`.
pub open spec fn latest(s: Seq<i64>, n: nat) -> Seq<i64> {
    if s.len() <= n {
        s
    } else {
        s.subrange(s.len() - n, s.len() as int)
    }
}

/// Whatever comes in, a window that starts within its bound holds the most
/// recent `window_size` prices, oldest first.
pub proof fn lemma_window_holds_latest(window_size: nat, history: Seq<i64>, prices: Seq<i64>)
    requires
        window_size > 0,
        history.len() <= window_size,
    ensures
        slide_all(window_size, history, prices) == latest(history + prices, window_size),
    decreases prices.len(),
{
    if prices.len() > 0 {
        let init = prices.drop_last();
        let x = prices.last();
        lemma_window_holds_latest(window_size, history, init);
        let before = history + init;
        let after = history + prices;
        assert(after =~= before.push(x));
        if before.len() < window_size {
            assert(latest(before, window_size).push(x) =~= after);
        } else {
            let kept = latest(before, window_size);
            assert(kept.len() == window_size);
            assert(kept.push(x).drop_first() =~= after.subrange(
                after.len() - window_size,
                after.len() as int,
            ));
        }
    } else {
        assert(history + prices =~= history);
    }
}

/// Up to `window_size` prices into an empty window, the window holds every
/// price that came in, in order, so its length is their number.
pub proof fn lemma_short_stream_kept_whole(window_size: nat, prices: Seq<i64>)
    requires
        window_size > 0,
        prices.len() <= window_size,
    ensures
        slide_all(window_size, Seq::empty(), prices) == prices,
        slide_all(window_size, Seq::empty(), prices).len() == prices.len(),
{
    lemma_window_holds_latest(window_size, Seq::empty(), prices);
    assert(Seq::<i64>::empty() + prices =~= prices);
}

/// More than `window_size` prices into an empty window, the window holds
/// exactly `window_size` prices: the most recent ones, in order.
pub proof fn lemma_long_stream_keeps_last(window_size: nat, prices: Seq<i64>)
    requires
        window_size > 0,
        prices.len() > window_size,
    ensures
        slide_all(window_size, Seq::empty(), prices).len() == window_size,
        slide_all(window_size, Seq::empty(), prices) == prices.subrange(
            prices.len() - window_size,
            prices.len() as int,
        ),
{
    lemma_window_holds_latest(window_size, Seq::empty(), prices);
    assert(Seq::<i64>::empty() + prices =~= prices);
}

/// After `p_1 .. p_n` (with `0 < n <= window_size`) come into an empty window,
/// the mean of the window is `(p_1 + ... + p_n) / n`.
pub proof fn lemma_mean_of_short_stream(window_size: nat, prices: Seq<i64>, r: Option<Mean>)
    requires
        window_size > 0,
        0 < prices.len() <= window_size,
        mean_result(slide_all(window_size, Seq::empty(), prices), r),
    ensures
        r matches Some(m) && m.sum == sum_of(prices) && m.count == prices.len(),
{
    lemma_short_stream_kept_whole(window_size, prices);
}

/// Two computations of the mean of one window agree.
pub proof fn lemma_mean_repeatable(history: Seq<i64>, a: Option<Mean>, b: Option<Mean>)
    requires
        mean_result(history, a),
        mean_result(history, b),
    ensures
        a == b,
{
}

/// With a threshold of zero, the decision is `Hold` exactly when the price
/// equals the mean; any other price gives `Buy` or `Sell`.
pub proof fn lemma_zero_threshold(mean: Mean, price: int)
    requires
        mean.wf(),
    ensures
        (decide(mean, price, 0) == Decision::Hold) <==> mean.sum == mean.count * price,
{
}

/// With a non-negative threshold the conditions for buying and for selling
/// never hold together, so the order in which they are tested is immaterial.
pub proof fn lemma_buy_sell_exclusive(mean: Mean, price: int, threshold: int)
    requires
        mean.wf(),
        threshold >= 0,
    ensures
        !(buy_signal(mean, price, threshold) && sell_signal(mean, price, threshold)),
        decide(mean, price, threshold) == Decision::Buy <==> buy_signal(mean, price, threshold),
        decide(mean, price, threshold) == Decision::Sell <==> sell_signal(mean, price, threshold),
{
    assert(mean.count * (price + threshold) >= mean.count * (price - threshold)) by (nonlinear_arith)
        requires
            mean.count > 0,
            threshold >= 0;
}

} // verus!
