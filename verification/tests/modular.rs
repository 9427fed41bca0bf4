use ta::{Eval, ExponentialMovingAverage, Scalar, SimpleMovingAverage};

#[test]
fn modular_arithmetic_wraps() {
    assert_eq!(u64::MAX.plus(2), 1);
    assert_eq!(0u64.minus(1), u64::MAX);
    assert_eq!((1u64 << 63).times(2), 0);
    assert_eq!(7u64.plus(5).minus(5), 7);
    assert_eq!(<u64 as Scalar>::from_count(3), 3);
    assert_eq!(<u64 as Scalar>::from_count(1u128 << 64), 0);
    assert_eq!(<u64 as Scalar>::from_count((1u128 << 64) + 9), 9);
}

#[test]
fn modular_division_truncates_and_is_total() {
    assert_eq!(7u64.over(2), 3);
    assert_eq!(7u64.over(0), 0);
    assert_eq!(0u64.over(0), 0);
}

#[test]
fn modular_comparisons_are_the_usual_ones() {
    assert!(3u64.same(3));
    assert!(!3u64.same(4));
    assert!(3u64.below(4));
    assert!(!4u64.below(4));
}

#[test]
fn sma_over_integers() {
    let mut sma = SimpleMovingAverage::<u64>::new(2).unwrap();
    let out: Vec<Option<u64>> = [0u64, 2, 4, 6, 8].iter().map(|v| sma.eval(*v)).collect();
    assert_eq!(out, vec![None, Some(1), Some(3), Some(5), Some(7)]);
}

#[test]
fn sma_over_integers_survives_wrapping_sums() {
    let mut sma = SimpleMovingAverage::<u64>::new(2).unwrap();
    let out: Vec<Option<u64>> =
        [u64::MAX, 3, 5, 9].iter().map(|v| sma.eval(*v)).collect();
    assert_eq!(out, vec![None, Some(1), Some(4), Some(7)]);
}

#[test]
fn ema_over_integers_with_unit_factor_follows_the_input() {
    let mut ema = ExponentialMovingAverage::<u64>::new(2, Some(1)).unwrap();
    let out: Vec<Option<u64>> = [4u64, 8, 5, 11].iter().map(|v| ema.eval(*v)).collect();
    assert_eq!(out, vec![None, Some(6), Some(5), Some(11)]);
}
