use vstd::prelude::*;
use vstd::arithmetic::div_mod::{lemma_fundamental_div_mod, lemma_mod_bound};

verus! {

/// The sum of a sequence of prices.
pub open spec fn sum_of(s: Seq<i64>) -> int
    decreases s.len(),
{
    if s.len() == 0 {
        0
    } else {
        sum_of(s.drop_last()) + s.last()
    }
}

/// A sum of `n` prices lies between `n` times the least and `n` times the
/// greatest `i64`.
pub proof fn lemma_sum_bounds(s: Seq<i64>)
    ensures
        s.len() * i64::MIN <= sum_of(s) <= s.len() * i64::MAX,
    decreases s.len(),
{
    if s.len() > 0 {
        lemma_sum_bounds(s.drop_last());
    }
}

/// The mean of a window of prices, held exactly as `sum / count`.
#[derive(Clone, Copy, Debug, PartialEq, Eq, Structural)]
pub struct Mean {
    pub sum: i128,
    pub count: usize,
}

impl Mean {
    /// A mean of `count` prices of type `i64`.
    pub open spec fn wf(self) -> bool {
        &&& self.count > 0
        &&& self.count * i64::MIN <= self.sum <= self.count * i64::MAX
    }

    /// The mean, over the rationals, is greater than `x`.
    pub open spec fn exceeds_spec(self, x: int) -> bool {
        self.sum > self.count * x
    }

    /// The mean, over the rationals, is less than `x`.
    pub open spec fn falls_short_spec(self, x: int) -> bool {
        self.sum < self.count * x
    }

    /// The mean of the prices in `s`.
    pub open spec fn of(s: Seq<i64>) -> Mean {
        Mean { sum: sum_of(s) as i128, count: s.len() as usize }
    }

    /// The mean that stands before any price is seen: zero.
    pub fn zero() -> (m: Mean)
        ensures
            m.wf(),
            m.sum == 0,
            m.count == 1,
    {
        Mean { sum: 0, count: 1 }
    }

    /// Splits `sum` into `quotient * count + remainder`, with the remainder
    /// in `0 .. count`: the quotient is the mean rounded down.
    pub fn split(&self) -> (qr: (i128, usize))
        requires
            self.wf(),
        ensures
            self.sum == qr.0 * self.count + qr.1,
            qr.1 < self.count,
    {
        let n: u128 = self.count as u128;
        if self.sum >= 0 {
            let m: u128 = self.sum as u128;
            let q: u128 = m / n;
            let r: u128 = m % n;
            proof {
                lemma_fundamental_div_mod(m as int, n as int);
                lemma_mod_bound(m as int, n as int);
                assert(q <= q * n) by (nonlinear_arith)
                    requires n >= 1;
                assert(n * q == q * n) by (nonlinear_arith);
            }
            (q as i128, r as usize)
        } else {
            let m: u128 = (-self.sum) as u128;
            let q: u128 = m / n;
            let r: u128 = m % n;
            proof {
                lemma_fundamental_div_mod(m as int, n as int);
                lemma_mod_bound(m as int, n as int);
                assert(q <= q * n) by (nonlinear_arith)
                    requires n >= 1;
                assert((-(q as int)) * n == -(n * q)) by (nonlinear_arith);
            }
            if r == 0 {
                (-(q as i128), 0)
            } else {
                proof {
                    assert(self.sum == (-(q as int) - 1) * n + (n - r)) by (nonlinear_arith)
                        requires self.sum == -(n * q + r);
                }
                (-(q as i128) - 1, (n - r) as usize)
            }
        }
    }

    /// The mean rounded down.
    pub fn floor(&self) -> (f: i64)
        requires
            self.wf(),
        ensures
            f == (self.sum as int) / (self.count as int),
    {
        let (q, r) = self.split();
        proof {
            vstd::arithmetic::div_mod::lemma_fundamental_div_mod_converse(
                self.sum as int, self.count as int, q as int, r as int);
            assert(i64::MIN <= q <= i64::MAX) by (nonlinear_arith)
                requires
                    self.sum == q * self.count + r,
                    0 <= r < self.count,
                    self.count * i64::MIN <= self.sum <= self.count * i64::MAX,
                    self.count > 0;
        }
        q as i64
    }

    /// Whether the mean is greater than `x`.
    pub fn exceeds(&self, x: i128) -> (b: bool)
        requires
            self.wf(),
        ensures
            b == self.exceeds_spec(x as int),
    {
        let (q, r) = self.split();
        proof {
            lemma_compare_split(self.sum as int, self.count as int, q as int, r as int, x as int);
        }
        q > x || (q == x && r > 0)
    }

    /// Whether the mean is less than `x`.
    pub fn falls_short(&self, x: i128) -> (b: bool)
        requires
            self.wf(),
        ensures
            b == self.falls_short_spec(x as int),
    {
        let (q, r) = self.split();
        proof {
            lemma_compare_split(self.sum as int, self.count as int, q as int, r as int, x as int);
        }
        q < x
    }
}

/// How `q * n + r`, with `r` in `0 .. n`, compares with `n * x`.
proof fn lemma_compare_split(sum: int, n: int, q: int, r: int, x: int)
    requires
        n > 0,
        0 <= r < n,
        sum == q * n + r,
    ensures
        (sum > n * x) == (q > x || (q == x && r > 0)),
        (sum < n * x) == (q < x),
{
    if q > x {
        assert(q * n >= (x + 1) * n) by (nonlinear_arith)
            requires q >= x + 1, n > 0;
        assert((x + 1) * n == x * n + n) by (nonlinear_arith);
    } else if q < x {
        assert(q * n <= (x - 1) * n) by (nonlinear_arith)
            requires q <= x - 1, n > 0;
        assert((x - 1) * n == x * n - n) by (nonlinear_arith);
    }
    assert(n * x == x * n) by (nonlinear_arith);
}

} // verus!
