use ta::{
    create_exponential_moving_average, create_moving_average_convergence_divergence,
    create_relative_strength_index, create_simple_moving_average, destroy_indicator,
    eval_indicator, EvalResult, IndicatorTable, Scalar, NULL_HANDLE,
};

#[derive(Clone, Copy, Debug, PartialEq)]
struct Real(f64);

impl Scalar for Real {
    fn from_count(n: u128) -> Real {
        Real(n as f64)
    }
    fn plus(self, rhs: Real) -> Real {
        Real(self.0 + rhs.0)
    }
    fn minus(self, rhs: Real) -> Real {
        Real(self.0 - rhs.0)
    }
    fn times(self, rhs: Real) -> Real {
        Real(self.0 * rhs.0)
    }
    fn over(self, rhs: Real) -> Real {
        Real(self.0 / rhs.0)
    }
    fn same(self, rhs: Real) -> bool {
        self.0 == rhs.0
    }
    fn below(self, rhs: Real) -> bool {
        self.0 < rhs.0
    }
}

fn feed(table: &mut IndicatorTable<Real>, handle: usize, data: &[f64]) -> Vec<Option<f64>> {
    let mut out = Vec::new();
    for val in data.iter().cloned() {
        let mut slot = Real(-1.0);
        match eval_indicator(table, handle, Real(val), Some(&mut slot)) {
            EvalResult::EvalOk => out.push(Some(slot.0)),
            EvalResult::EvalNone => {
                assert_eq!(slot, Real(-1.0));
                out.push(None)
            }
            EvalResult::EvalErr => panic!("live handle reported an error"),
        }
    }
    out
}

#[test]
fn null_handle_is_an_error_and_never_crashes() {
    let mut table = IndicatorTable::<Real>::new();
    let mut slot = Real(42.0);
    assert_eq!(
        eval_indicator(&mut table, NULL_HANDLE, Real(1.0), Some(&mut slot)),
        EvalResult::EvalErr
    );
    assert_eq!(slot, Real(42.0));
    destroy_indicator(&mut table, NULL_HANDLE);
    destroy_indicator(&mut table, NULL_HANDLE);
    assert_eq!(NULL_HANDLE, 0);
}

#[test]
fn missing_output_slot_is_an_error_and_feeds_nothing() {
    let mut table = IndicatorTable::<Real>::new();
    let handle = create_simple_moving_average(&mut table, 2);
    assert_ne!(handle, NULL_HANDLE);
    assert_eq!(eval_indicator(&mut table, handle, Real(100.0), None), EvalResult::EvalErr);
    assert_eq!(feed(&mut table, handle, &[0.0, 2.0, 4.0]), vec![None, Some(1.0), Some(3.0)]);
}

#[test]
fn zero_period_gives_the_null_handle() {
    let mut table = IndicatorTable::<Real>::new();
    assert_eq!(create_simple_moving_average(&mut table, 0), NULL_HANDLE);
    assert_eq!(create_exponential_moving_average(&mut table, 0, None), NULL_HANDLE);
    assert_eq!(create_relative_strength_index(&mut table, 0), NULL_HANDLE);
    assert_eq!(create_moving_average_convergence_divergence(&mut table, 0, 1, 1), NULL_HANDLE);
    assert_eq!(create_moving_average_convergence_divergence(&mut table, 1, 0, 1), NULL_HANDLE);
    assert_eq!(create_moving_average_convergence_divergence(&mut table, 1, 1, 0), NULL_HANDLE);
    assert_eq!(create_simple_moving_average(&mut table, 1), 1);
}

#[test]
fn every_kind_evaluates_through_its_handle() {
    let mut table = IndicatorTable::<Real>::new();
    let sma = create_simple_moving_average(&mut table, 2);
    let ema = create_exponential_moving_average(&mut table, 2, None);
    let ema_half = create_exponential_moving_average(&mut table, 2, Some(Real(0.5)));
    let rsi = create_relative_strength_index(&mut table, 2);
    let macd = create_moving_average_convergence_divergence(&mut table, 2, 3, 2);
    let ramp = [0.0, 2.0, 4.0, 6.0, 8.0];
    let expected = vec![None, Some(1.0), Some(3.0), Some(5.0), Some(7.0)];
    assert_eq!(feed(&mut table, sma, &ramp), expected);
    assert_eq!(feed(&mut table, ema, &ramp), expected);
    assert_eq!(feed(&mut table, ema_half, &[0.0, 2.0, 4.0]), vec![None, Some(1.0), Some(2.5)]);
    assert_eq!(feed(&mut table, rsi, &[0.0, 2.0, 1.0]), vec![None, None, Some(0.6666666666666667)]);
    assert_eq!(
        feed(&mut table, macd, &[0.0, 2.0, 1.0, 10.0, 5.0]),
        vec![None, None, None, Some(0.7499999999999996), Some(-0.11111111111111116)]
    );
}

#[test]
fn handles_keep_their_own_state() {
    let mut table = IndicatorTable::<Real>::new();
    let a = create_simple_moving_average(&mut table, 2);
    let b = create_simple_moving_average(&mut table, 2);
    assert_ne!(a, b);
    assert_eq!(feed(&mut table, a, &[0.0]), vec![None]);
    assert_eq!(feed(&mut table, b, &[10.0]), vec![None]);
    assert_eq!(feed(&mut table, a, &[2.0]), vec![Some(1.0)]);
    assert_eq!(feed(&mut table, b, &[20.0]), vec![Some(15.0)]);
}

#[test]
fn destroyed_handle_is_dead_for_good() {
    let mut table = IndicatorTable::<Real>::new();
    let first = create_simple_moving_average(&mut table, 1);
    assert_eq!(feed(&mut table, first, &[3.0]), vec![Some(3.0)]);
    destroy_indicator(&mut table, first);
    let mut slot = Real(0.0);
    assert_eq!(
        eval_indicator(&mut table, first, Real(1.0), Some(&mut slot)),
        EvalResult::EvalErr
    );
    destroy_indicator(&mut table, first);
    let second = create_simple_moving_average(&mut table, 1);
    assert_ne!(second, first);
    assert_ne!(second, NULL_HANDLE);
    assert_eq!(
        eval_indicator(&mut table, first, Real(1.0), Some(&mut slot)),
        EvalResult::EvalErr
    );
    assert_eq!(feed(&mut table, second, &[9.0]), vec![Some(9.0)]);
}

#[test]
fn unknown_handle_is_an_error() {
    let mut table = IndicatorTable::<Real>::new();
    let mut slot = Real(0.0);
    assert_eq!(eval_indicator(&mut table, 17, Real(1.0), Some(&mut slot)), EvalResult::EvalErr);
    assert_eq!(
        eval_indicator(&mut table, usize::MAX, Real(1.0), Some(&mut slot)),
        EvalResult::EvalErr
    );
    destroy_indicator(&mut table, 17);
    destroy_indicator(&mut table, usize::MAX);
}
