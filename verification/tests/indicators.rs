use ta::{
    Eval, ExponentialMovingAverage, Indicator, MovingAverageConvergenceDivergence,
    RelativeStrengthIndex, Scalar, SimpleMovingAverage,
};

/// IEEE-754 double precision as the number type of the indicators.
#[derive(Clone, Copy, Debug, PartialEq)]
struct Real(f64);

impl Scalar for Real {
    fn from_count(n: u128) -> Real {
        Real(n as f64)
    }
    fn plus(self, rhs: Real) -> Real {
        Real(self.0 + rhs.0)
    }
    fn minus(self, rhs: Real) -> Real {
        Real(self.0 - rhs.0)
    }
    fn times(self, rhs: Real) -> Real {
        Real(self.0 * rhs.0)
    }
    fn over(self, rhs: Real) -> Real {
        Real(self.0 / rhs.0)
    }
    fn same(self, rhs: Real) -> bool {
        self.0 == rhs.0
    }
    fn below(self, rhs: Real) -> bool {
        self.0 < rhs.0
    }
}

fn run<E: Eval<Real>>(indicator: &mut E, data: &[f64]) -> Vec<Option<f64>> {
    let mut out = Vec::new();
    for val in data.iter().cloned() {
        out.push(indicator.eval(Real(val)).map(|r| r.0));
    }
    out
}

#[test]
fn simple_moving_average_test_eval() -> Result<(), ()> {
    let mut sma = SimpleMovingAverage::<Real>::new(2)?;
    let test_data = [0f64, 2f64, 4f64, 6f64, 8f64];
    let mut out_data: [Option<f64>; 5] = [None; 5];
    let expected_data = [None, Some(1f64), Some(3f64), Some(5f64), Some(7f64)];

    for (idx, val) in test_data.iter().cloned().enumerate() {
        out_data[idx] = sma.eval(Real(val)).map(|r| r.0);
    }

    assert_eq!(expected_data, out_data);
    Ok(())
}

#[test]
fn exponential_moving_average_test_eval() -> Result<(), ()> {
    let mut ema = ExponentialMovingAverage::<Real>::new(2, None)?;
    let test_data = [0f64, 2f64, 4f64, 6f64, 8f64];
    let mut out_data: [Option<f64>; 5] = [None; 5];
    let expected_data = [None, Some(1f64), Some(3f64), Some(5f64), Some(7f64)];

    for (idx, val) in test_data.iter().cloned().enumerate() {
        out_data[idx] = ema.eval(Real(val)).map(|r| r.0);
    }

    assert_eq!(expected_data, out_data);
    Ok(())
}

#[test]
fn relative_strength_index_test_eval() -> Result<(), ()> {
    let mut rsi = RelativeStrengthIndex::<Real>::new(2)?;
    let test_data = [0f64, 2f64, 1f64];
    let mut out_data: [Option<f64>; 3] = [None; 3];
    let expected_data = [None, None, Some(0.6666666666666667)];

    for (idx, val) in test_data.iter().cloned().enumerate() {
        out_data[idx] = rsi.eval(Real(val)).map(|r| r.0);
    }

    assert_eq!(expected_data, out_data);
    Ok(())
}

#[test]
fn moving_average_convergence_divergence_test_eval() -> Result<(), ()> {
    let mut macd = MovingAverageConvergenceDivergence::<Real>::new(2, 3, 2)?;
    let test_data = [0f64, 2f64, 1f64, 10f64, 5f64];
    let mut out_data: [Option<f64>; 5] = [None; 5];
    let expected_data = [
        None,
        None,
        None,
        Some(0.7499999999999996),
        Some(-0.11111111111111116),
    ];

    for (idx, val) in test_data.iter().cloned().enumerate() {
        out_data[idx] = macd.eval(Real(val)).map(|r| r.0);
    }

    assert_eq!(expected_data, out_data);
    Ok(())
}

#[test]
fn zero_period_is_refused_by_every_constructor() {
    assert!(SimpleMovingAverage::<Real>::new(0).is_err());
    assert!(ExponentialMovingAverage::<Real>::new(0, None).is_err());
    assert!(ExponentialMovingAverage::<Real>::new(0, Some(Real(0.5))).is_err());
    assert!(RelativeStrengthIndex::<Real>::new(0).is_err());
    assert!(MovingAverageConvergenceDivergence::<Real>::new(0, 3, 2).is_err());
    assert!(MovingAverageConvergenceDivergence::<Real>::new(2, 0, 2).is_err());
    assert!(MovingAverageConvergenceDivergence::<Real>::new(2, 3, 0).is_err());
    assert!(SimpleMovingAverage::<Real>::new(1).is_ok());
    assert!(MovingAverageConvergenceDivergence::<Real>::new(1, 1, 1).is_ok());
}

#[test]
fn sma_is_silent_for_period_minus_one_ticks() {
    for p in 1usize..8 {
        let mut sma = SimpleMovingAverage::<Real>::new(p).unwrap();
        for tick in 1usize..20 {
            let out = sma.eval(Real(tick as f64));
            assert_eq!(out.is_some(), tick >= p, "period {} tick {}", p, tick);
        }
    }
}

#[test]
fn sma_answers_the_mean_of_the_last_period_values() {
    let mut sma = SimpleMovingAverage::<Real>::new(3).unwrap();
    let out = run(&mut sma, &[1.0, 2.0, 3.0, 4.0, 5.0, 12.0]);
    assert_eq!(out, vec![None, None, Some(2.0), Some(3.0), Some(4.0), Some(7.0)]);
}

#[test]
fn sma_of_period_one_repeats_its_input() {
    let mut sma = SimpleMovingAverage::<Real>::new(1).unwrap();
    let out = run(&mut sma, &[4.0, -1.5, 8.0]);
    assert_eq!(out, vec![Some(4.0), Some(-1.5), Some(8.0)]);
}

#[test]
fn ema_first_answer_is_the_simple_average() {
    let data = [3.0, 9.0, 6.0, 12.0];
    let mut sma = SimpleMovingAverage::<Real>::new(4).unwrap();
    let mut ema = ExponentialMovingAverage::<Real>::new(4, None).unwrap();
    let s = run(&mut sma, &data);
    let e = run(&mut ema, &data);
    assert_eq!(s, e);
    assert_eq!(e[3], Some(7.5));
}

#[test]
fn ema_blends_with_the_given_factor() {
    let mut ema = ExponentialMovingAverage::<Real>::new(2, Some(Real(0.5))).unwrap();
    let out = run(&mut ema, &[0.0, 2.0, 4.0, 10.0]);
    assert_eq!(out, vec![None, Some(1.0), Some(2.5), Some(6.25)]);
}

#[test]
fn ema_default_factor_is_two_over_period_plus_one() {
    let mut ema = ExponentialMovingAverage::<Real>::new(3, None).unwrap();
    let out = run(&mut ema, &[3.0, 3.0, 3.0, 9.0]);
    assert_eq!(out, vec![None, None, Some(3.0), Some(6.0)]);
}

#[test]
fn ema_is_silent_for_period_minus_one_ticks() {
    for p in 1usize..8 {
        let mut ema = ExponentialMovingAverage::<Real>::new(p, None).unwrap();
        for tick in 1usize..20 {
            let out = ema.eval(Real(tick as f64));
            assert_eq!(out.is_some(), tick >= p, "period {} tick {}", p, tick);
        }
    }
}

#[test]
fn rsi_is_silent_for_period_ticks() {
    for p in 1usize..8 {
        let mut rsi = RelativeStrengthIndex::<Real>::new(p).unwrap();
        for tick in 1usize..20 {
            let out = rsi.eval(Real((tick * tick % 7) as f64));
            assert_eq!(out.is_some(), tick >= p + 1, "period {} tick {}", p, tick);
        }
    }
}

#[test]
fn rsi_of_falling_values_is_zero() {
    let mut rsi = RelativeStrengthIndex::<Real>::new(2).unwrap();
    let out = run(&mut rsi, &[2.0, 1.0, 0.0]);
    assert_eq!(out, vec![None, None, Some(0.0)]);
}

#[test]
fn rsi_of_rising_values_is_one() {
    let mut rsi = RelativeStrengthIndex::<Real>::new(2).unwrap();
    let out = run(&mut rsi, &[0.0, 1.0, 2.0]);
    assert_eq!(out, vec![None, None, Some(1.0)]);
}

#[test]
fn rsi_of_a_flat_run_is_not_a_number() {
    let mut rsi = RelativeStrengthIndex::<Real>::new(2).unwrap();
    let out = run(&mut rsi, &[5.0, 5.0, 5.0]);
    assert_eq!(out[0], None);
    assert_eq!(out[1], None);
    assert!(out[2].unwrap().is_nan());
}

#[test]
fn macd_is_silent_until_slow_average_and_signal_are_seeded() {
    let cases = [(2usize, 3usize, 2usize), (5, 3, 4), (1, 1, 1), (3, 3, 3), (1, 6, 2)];
    for (short, long, signal) in cases.iter().cloned() {
        let mut macd = MovingAverageConvergenceDivergence::<Real>::new(short, long, signal).unwrap();
        let warm_up = short.max(long) + signal - 1;
        for tick in 1usize..25 {
            let out = macd.eval(Real((tick * 3 % 11) as f64));
            assert_eq!(out.is_some(), tick >= warm_up, "{:?} tick {}", (short, long, signal), tick);
        }
    }
}

#[test]
fn macd_of_unit_periods_is_zero() {
    let mut macd = MovingAverageConvergenceDivergence::<Real>::new(1, 1, 1).unwrap();
    let out = run(&mut macd, &[4.0, 9.0]);
    assert_eq!(out, vec![Some(0.0), Some(0.0)]);
}

#[test]
fn indicator_delegates_to_its_variant() {
    let data = [0.0, 2.0, 1.0, 10.0, 5.0];
    let mut sma = Indicator::SimpleMovingAverage(SimpleMovingAverage::<Real>::new(2).unwrap());
    let mut ema =
        Indicator::ExponentialMovingAverage(ExponentialMovingAverage::<Real>::new(2, None).unwrap());
    let mut rsi = Indicator::RelativeStrengthIndex(RelativeStrengthIndex::<Real>::new(2).unwrap());
    let mut macd = Indicator::MovingAverageConvergenceDivergence(
        MovingAverageConvergenceDivergence::<Real>::new(2, 3, 2).unwrap(),
    );
    assert_eq!(run(&mut sma, &data), vec![None, Some(1.0), Some(1.5), Some(5.5), Some(7.5)]);
    assert_eq!(run(&mut ema, &data)[1], Some(1.0));
    assert_eq!(run(&mut rsi, &data[..3]), vec![None, None, Some(0.6666666666666667)]);
    assert_eq!(
        run(&mut macd, &data),
        vec![None, None, None, Some(0.7499999999999996), Some(-0.11111111111111116)]
    );
}

#[test]
fn sma_running_sum_rounds_as_doubles_do() {
    let mut sma = SimpleMovingAverage::<Real>::new(2).unwrap();
    let out = run(&mut sma, &[1e16, 1.0, 1.0]);
    assert_eq!(out, vec![None, Some(5e15), Some(0.0)]);
}
