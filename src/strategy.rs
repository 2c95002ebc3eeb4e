use vstd::prelude::*;
use std::collections::VecDeque;
use crate::mean::{Mean, sum_of, lemma_sum_bounds};

verus! {

/// What one evaluation step advises.
#[derive(Clone, Copy, Debug, PartialEq, Eq, Structural)]
pub enum Decision {
    Buy,
    Sell,
    Hold,
}

/// Why a strategy could not be built.
#[derive(Clone, Copy, Debug, PartialEq, Eq, Structural)]
pub enum ConfigError {
    /// A window that holds no price has no mean.
    ZeroWindow,
}

/// A strategy seen as plain values.
pub struct StrategyView {
    pub window_size: nat,
    pub threshold: nat,
    pub history: Seq<i64>,
    pub mean: Mean,
}

/// The window after `price` comes in: it goes at the back, and the oldest
/// price leaves when the window would otherwise hold too many.
pub open spec fn slide(window_size: nat, history: Seq<i64>, price: i64) -> Seq<i64> {
    let s = history.push(price);
    if s.len() > window_size {
        s.drop_first()
    } else {
        s
    }
}

/// `m` is the exact mean of the prices in `s`.
pub open spec fn is_mean_of(m: Mean, s: Seq<i64>) -> bool {
    m.sum == sum_of(s) && m.count == s.len()
}

/// What computing the mean of `s` gives: nothing for an empty window, else
/// its exact mean.
pub open spec fn mean_result(s: Seq<i64>, r: Option<Mean>) -> bool {
    match r {
        None => s.len() == 0,
        Some(m) => s.len() > 0 && is_mean_of(m, s) && m.wf(),
    }
}

/// Buy when the mean stands above the price by more than the threshold.
pub open spec fn buy_signal(mean: Mean, price: int, threshold: int) -> bool {
    mean.exceeds_spec(price + threshold)
}

/// Sell when the price stands above the mean by more than the threshold.
pub open spec fn sell_signal(mean: Mean, price: int, threshold: int) -> bool {
    mean.falls_short_spec(price - threshold)
}

/// The decision for `price` against `mean`.
pub open spec fn decide(mean: Mean, price: int, threshold: int) -> Decision {
    if buy_signal(mean, price, threshold) {
        Decision::Buy
    } else if sell_signal(mean, price, threshold) {
        Decision::Sell
    } else {
        Decision::Hold
    }
}

/// A mean-reversion signal over a sliding window of prices.
pub struct MeanReversion {
    window_size: usize,
    prices: VecDeque<i64>,
    mean: Mean,
    threshold: u64,
}

impl View for MeanReversion {
    type V = StrategyView;

    closed spec fn view(&self) -> StrategyView {
        StrategyView {
            window_size: self.window_size as nat,
            threshold: self.threshold as nat,
            history: self.prices@,
            mean: self.mean,
        }
    }
}

impl MeanReversion {
    /// The window is never empty of room, never over-full, and the stored
    /// mean is a mean of `i64` prices.
    pub open spec fn wf(&self) -> bool {
        &&& self@.window_size > 0
        &&& self@.history.len() <= self@.window_size
        &&& self@.mean.wf()
    }

    /// A strategy with an empty window of `window_size` prices; a window of
    /// size zero is refused.
    pub fn new(window_size: usize, threshold: u64) -> (r: Result<MeanReversion, ConfigError>)
        ensures
            match r {
                Ok(s) => {
                    &&& window_size > 0
                    &&& s.wf()
                    &&& s@.window_size == window_size
                    &&& s@.threshold == threshold
                    &&& s@.history == Seq::<i64>::empty()
                    &&& s@.mean.sum == 0
                    &&& s@.mean.count == 1
                },
                Err(e) => window_size == 0 && e == ConfigError::ZeroWindow,
            },
    {
        if window_size == 0 {
            return Err(ConfigError::ZeroWindow);
        }
        Ok(MeanReversion { window_size, prices: VecDeque::new(), mean: Mean::zero(), threshold })
    }

    /// Adds `price` at the back of the window, evicting the oldest price when
    /// the window overflows.
    pub fn add_price(&mut self, price: i64)
        requires
            old(self).wf(),
        ensures
            final(self).wf(),
            final(self)@.history == slide(old(self)@.window_size, old(self)@.history, price),
            final(self)@.window_size == old(self)@.window_size,
            final(self)@.threshold == old(self)@.threshold,
            final(self)@.mean == old(self)@.mean,
    {
        self.prices.push_back(price);
        if self.prices.len() > self.window_size {
            self.prices.pop_front();
        }
    }

    /// The exact mean of the prices in the window; `None` while it is empty.
    pub fn calculate_mean(&self) -> (r: Option<Mean>)
        ensures
            mean_result(self@.history, r),
    {
        let n: usize = self.prices.len();
        if n == 0 {
            return None;
        }
        let mut sum: i128 = 0;
        let mut i: usize = 0;
        while i < n
            invariant
                n == self.prices@.len(),
                0 <= i <= n,
                sum == sum_of(self.prices@.subrange(0, i as int)),
            decreases n - i,
        {
            proof {
                let next = self.prices@.subrange(0, i + 1);
                assert(next.drop_last() =~= self.prices@.subrange(0, i as int));
                lemma_sum_bounds(next);
            }
            sum = sum + self.prices[i] as i128;
            i = i + 1;
        }
        proof {
            assert(self.prices@.subrange(0, n as int) =~= self.prices@);
            lemma_sum_bounds(self.prices@);
        }
        Some(Mean { sum, count: n })
    }

    /// Whether the stored mean stands above `current_price` by more than the
    /// threshold.
    pub fn should_buy(&self, current_price: i64) -> (b: bool)
        requires
            self.wf(),
        ensures
            b == buy_signal(self@.mean, current_price as int, self@.threshold as int),
    {
        self.mean.exceeds(current_price as i128 + self.threshold as i128)
    }

    /// Whether `current_price` stands above the stored mean by more than the
    /// threshold.
    pub fn should_sell(&self, current_price: i64) -> (b: bool)
        requires
            self.wf(),
        ensures
            b == sell_signal(self@.mean, current_price as int, self@.threshold as int),
    {
        self.mean.falls_short(current_price as i128 - self.threshold as i128)
    }

    /// The largest number of prices the window holds.
    pub fn window_size(&self) -> (w: usize)
        ensures
            w == self@.window_size,
    {
        self.window_size
    }

    /// The least distance from the mean that gives a signal.
    pub fn threshold(&self) -> (t: u64)
        ensures
            t == self@.threshold,
    {
        self.threshold
    }

    /// The mean stored by the latest evaluation.
    pub fn mean(&self) -> (m: Mean)
        ensures
            m == self@.mean,
    {
        self.mean
    }

    /// The prices in the window, oldest first.
    pub fn history(&self) -> (v: Vec<i64>)
        ensures
            v@ == self@.history,
    {
        let mut v: Vec<i64> = Vec::new();
        let n: usize = self.prices.len();
        let mut i: usize = 0;
        while i < n
            invariant
                n == self.prices@.len(),
                0 <= i <= n,
                v@ == self.prices@.subrange(0, i as int),
            decreases n - i,
        {
            v.push(self.prices[i]);
            i = i + 1;
            assert(v@ =~= self.prices@.subrange(0, i as int));
        }
        assert(v@ =~= self.prices@);
        v
    }

    /// Takes in `current_price`, stores the mean of the new window (which
    /// holds that price), and decides against that mean.
    pub fn trade_decision(&mut self, current_price: i64) -> (d: Decision)
        requires
            old(self).wf(),
        ensures
            final(self).wf(),
            final(self)@.history == slide(old(self)@.window_size, old(self)@.history, current_price),
            is_mean_of(final(self)@.mean, final(self)@.history),
            final(self)@.window_size == old(self)@.window_size,
            final(self)@.threshold == old(self)@.threshold,
            d == decide(final(self)@.mean, current_price as int, final(self)@.threshold as int),
    {
        self.add_price(current_price);
        if let Some(m) = self.calculate_mean() {
            self.mean = m;
        }
        if self.should_buy(current_price) {
            Decision::Buy
        } else if self.should_sell(current_price) {
            Decision::Sell
        } else {
            Decision::Hold
        }
    }
}

} // verus!
