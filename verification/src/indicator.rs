use crate::ema::ExponentialMovingAverage;
use crate::eval::Eval;
use crate::macd::MovingAverageConvergenceDivergence;
use crate::rsi::RelativeStrengthIndex;
use crate::scalar::Scalar;
use crate::sma::SimpleMovingAverage;
use vstd::prelude::*;

verus! {

/// Exactly one of the four indicators, evaluated through the one capability.
pub enum Indicator<T> {
    SimpleMovingAverage(SimpleMovingAverage<T>),
    ExponentialMovingAverage(ExponentialMovingAverage<T>),
    RelativeStrengthIndex(RelativeStrengthIndex<T>),
    MovingAverageConvergenceDivergence(MovingAverageConvergenceDivergence<T>),
}

impl<T: Scalar> Indicator<T> {
    /// Both are the same kind of indicator.
    pub open spec fn same_kind(&self, other: &Self) -> bool {
        match (self, other) {
            (Indicator::SimpleMovingAverage(_), Indicator::SimpleMovingAverage(_)) => true,
            (Indicator::ExponentialMovingAverage(_), Indicator::ExponentialMovingAverage(_)) => true,
            (Indicator::RelativeStrengthIndex(_), Indicator::RelativeStrengthIndex(_)) => true,
            (
                Indicator::MovingAverageConvergenceDivergence(_),
                Indicator::MovingAverageConvergenceDivergence(_),
            ) => true,
            _ => false,
        }
    }
}

impl<T: Scalar> Eval<T> for Indicator<T> {
    open spec fn valid(&self) -> bool {
        match self {
            Indicator::SimpleMovingAverage(sma) => sma.valid(),
            Indicator::ExponentialMovingAverage(ema) => ema.valid(),
            Indicator::RelativeStrengthIndex(rsi) => rsi.valid(),
            Indicator::MovingAverageConvergenceDivergence(macd) => macd.valid(),
        }
    }

    open spec fn history(&self) -> Seq<T> {
        match self {
            Indicator::SimpleMovingAverage(sma) => sma.history(),
            Indicator::ExponentialMovingAverage(ema) => ema.history(),
            Indicator::RelativeStrengthIndex(rsi) => rsi.history(),
            Indicator::MovingAverageConvergenceDivergence(macd) => macd.history(),
        }
    }

    open spec fn answer(&self, h: Seq<T>) -> Option<T> {
        match self {
            Indicator::SimpleMovingAverage(sma) => sma.answer(h),
            Indicator::ExponentialMovingAverage(ema) => ema.answer(h),
            Indicator::RelativeStrengthIndex(rsi) => rsi.answer(h),
            Indicator::MovingAverageConvergenceDivergence(macd) => macd.answer(h),
        }
    }

    /// Hands the tick to whichever indicator this is.
    fn eval(&mut self, value: T) -> (r: Option<T>)
        ensures
            final(self).same_kind(old(self)),
    {
        match self {
            Indicator::SimpleMovingAverage(sma) => sma.eval(value),
            Indicator::ExponentialMovingAverage(ema) => ema.eval(value),
            Indicator::RelativeStrengthIndex(rsi) => rsi.eval(value),
            Indicator::MovingAverageConvergenceDivergence(macd) => macd.eval(value),
        }
    }
}

} // verus!
