use mean_reversion::{ConfigError, Decision, Mean, MeanReversion};

fn strategy(window_size: usize, threshold: u64) -> MeanReversion {
    match MeanReversion::new(window_size, threshold) {
        Ok(s) => s,
        Err(e) => panic!("window of {} refused: {:?}", window_size, e),
    }
}

/// The decision the floating-point formula gives: the mean of the window,
/// which already holds the price, against the price itself.
fn float_decisions(window_size: usize, threshold: f64, prices: &[f64]) -> Vec<Decision> {
    let mut window: Vec<f64> = Vec::new();
    let mut out = Vec::new();
    for &p in prices {
        window.push(p);
        if window.len() > window_size {
            window.remove(0);
        }
        let mean = window.iter().sum::<f64>() / window.len() as f64;
        if mean - p > threshold {
            out.push(Decision::Buy);
        } else if p - mean > threshold {
            out.push(Decision::Sell);
        } else {
            out.push(Decision::Hold);
        }
    }
    out
}

#[test]
fn zero_window_is_refused() {
    assert!(matches!(MeanReversion::new(0, 5), Err(ConfigError::ZeroWindow)));
}

#[test]
fn new_strategy_is_empty() {
    let s = strategy(4, 7);
    assert_eq!(s.window_size(), 4);
    assert_eq!(s.threshold(), 7);
    assert!(s.history().is_empty());
    assert_eq!(s.mean(), Mean { sum: 0, count: 1 });
    assert_eq!(s.calculate_mean(), None);
}

#[test]
fn short_stream_length_matches_count() {
    let mut s = strategy(5, 0);
    let prices = [10, -3, 7, 7, 2];
    for (k, &p) in prices.iter().enumerate() {
        s.add_price(p);
        assert_eq!(s.history().len(), k + 1);
        assert_eq!(s.history(), prices[..k + 1].to_vec());
    }
}

#[test]
fn long_stream_keeps_most_recent() {
    let mut s = strategy(3, 0);
    let prices = [1, 2, 3, 4, 5, 6, 7];
    for (k, &p) in prices.iter().enumerate() {
        s.add_price(p);
        let lo = if k + 1 > 3 { k + 1 - 3 } else { 0 };
        assert_eq!(s.history(), prices[lo..k + 1].to_vec());
    }
    assert_eq!(s.history(), vec![5, 6, 7]);
}

#[test]
fn eviction_is_first_in_first_out() {
    let mut s = strategy(2, 0);
    s.add_price(9);
    s.add_price(4);
    s.add_price(1);
    assert_eq!(s.history(), vec![4, 1]);
    s.add_price(8);
    assert_eq!(s.history(), vec![1, 8]);
}

#[test]
fn mean_of_short_stream_is_exact() {
    let mut s = strategy(5, 0);
    s.add_price(100);
    s.add_price(200);
    s.add_price(400);
    let m = s.calculate_mean().unwrap();
    assert_eq!(m, Mean { sum: 700, count: 3 });
    assert_eq!(m.floor(), 233);
    assert!(m.exceeds(233));
    assert!(!m.exceeds(234));
    assert!(m.falls_short(234));
    assert!(!m.falls_short(233));
}

#[test]
fn mean_twice_gives_same_value() {
    let mut s = strategy(3, 0);
    s.add_price(5);
    s.add_price(-8);
    let a = s.calculate_mean();
    let b = s.calculate_mean();
    assert_eq!(a, b);
    assert_eq!(a, Some(Mean { sum: -3, count: 2 }));
}

#[test]
fn floor_rounds_toward_negative_infinity() {
    let m = Mean { sum: -7, count: 2 };
    assert_eq!(m.floor(), -4);
    assert_eq!(m.split(), (-4, 1));
    assert_eq!(Mean { sum: 7, count: 2 }.split(), (3, 1));
    assert_eq!(Mean { sum: -6, count: 3 }.split(), (-2, 0));
    assert!(m.exceeds(-4));
    assert!(!m.exceeds(-3));
    assert!(m.falls_short(-3));
    assert!(!m.falls_short(-4));
}

#[test]
fn demonstration_sequence_matches_formula() {
    let prices = [100.0, 95.0, 110.0, 105.0, 98.0, 102.0, 97.0, 103.0, 100.0, 98.0, 105.0];
    let expected = float_decisions(10, 0.2, &prices);
    // Prices and threshold in hundredths.
    let mut s = strategy(10, 20);
    let got: Vec<Decision> = prices.iter().map(|&p| s.trade_decision((p * 100.0) as i64)).collect();
    assert_eq!(got, expected);
    assert_eq!(got[0], Decision::Hold);
    assert_eq!(got[1], Decision::Buy);
    assert_eq!(got[2], Decision::Sell);
    assert_eq!(s.history().len(), 10);
    assert_eq!(s.mean(), Mean { sum: 101300, count: 10 });
}

#[test]
fn stored_mean_includes_current_price() {
    let mut s = strategy(2, 0);
    assert_eq!(s.trade_decision(100), Decision::Hold);
    assert_eq!(s.mean(), Mean { sum: 100, count: 1 });
    assert_eq!(s.trade_decision(50), Decision::Buy);
    assert_eq!(s.mean(), Mean { sum: 150, count: 2 });
    assert_eq!(s.trade_decision(80), Decision::Sell);
    assert_eq!(s.mean(), Mean { sum: 130, count: 2 });
}

#[test]
fn zero_threshold_holds_only_on_equality() {
    let mut s = strategy(3, 0);
    assert_eq!(s.trade_decision(100), Decision::Hold);
    assert_eq!(s.trade_decision(101), Decision::Sell);
    assert_eq!(s.trade_decision(50), Decision::Buy);
    // Window 101, 50, 84: mean 235 / 3 is not 84.
    assert_eq!(s.trade_decision(84), Decision::Sell);
    // Window 50, 84, 67: mean 67.
    assert_eq!(s.trade_decision(67), Decision::Hold);
}

#[test]
fn deviation_equal_to_threshold_holds() {
    let mut s = strategy(2, 25);
    s.trade_decision(100);
    // Mean 75, price 50: 25 below, not more.
    assert_eq!(s.trade_decision(50), Decision::Hold);
    let mut s = strategy(2, 24);
    s.trade_decision(100);
    assert_eq!(s.trade_decision(50), Decision::Buy);
    let mut s = strategy(2, 25);
    s.trade_decision(0);
    assert_eq!(s.trade_decision(50), Decision::Hold);
    let mut s = strategy(2, 24);
    s.trade_decision(0);
    assert_eq!(s.trade_decision(50), Decision::Sell);
}

#[test]
fn buy_and_sell_never_both_hold() {
    for t in [0u64, 1, 3, 10] {
        let mut s = strategy(4, t);
        for &p in &[3i64, -9, 14, 14, 0, 7, -2, 21] {
            s.trade_decision(p);
            for q in -30i64..=30 {
                assert!(!(s.should_buy(q) && s.should_sell(q)));
            }
        }
    }
}

#[test]
fn extreme_prices_do_not_overflow() {
    let mut s = strategy(3, u64::MAX);
    for _ in 0..4 {
        assert_eq!(s.trade_decision(i64::MAX), Decision::Hold);
    }
    assert_eq!(s.mean().floor(), i64::MAX);
    let mut s = strategy(3, 0);
    s.trade_decision(i64::MIN);
    s.trade_decision(i64::MIN);
    assert_eq!(s.trade_decision(i64::MAX), Decision::Sell);
    assert_eq!(s.mean().floor(), (i64::MIN as i128 * 2 + i64::MAX as i128).div_euclid(3) as i64);
    assert_eq!(s.trade_decision(i64::MIN), Decision::Buy);
}
