use crate::ema::ExponentialMovingAverage;
use crate::model::{default_factor, macd_diffs, macd_output};
use crate::eval::Eval;
use crate::scalar::Scalar;
use vstd::prelude::*;

verus! {

/// Difference of a short and a long exponential average, measured against
/// a signal average of that difference.
pub struct MovingAverageConvergenceDivergence<T> {
    ema_short: ExponentialMovingAverage<T>,
    ema_long: ExponentialMovingAverage<T>,
    ema_signal: ExponentialMovingAverage<T>,
}

impl<T: Scalar> MovingAverageConvergenceDivergence<T> {
    /// The period of the short average.
    pub closed spec fn short_period(&self) -> nat {
        self.ema_short.period()
    }

    /// The period of the long average.
    pub closed spec fn long_period(&self) -> nat {
        self.ema_long.period()
    }

    /// The period of the signal average.
    pub closed spec fn signal_period(&self) -> nat {
        self.ema_signal.period()
    }

    /// Every value fed so far, oldest first.
    pub closed spec fn seen(&self) -> Seq<T> {
        self.ema_short.seen()
    }

    /// The short and the long average were fed every tick, and the signal
    /// average exactly the differences that were defined.
    pub closed spec fn wf(&self) -> bool {
        &&& self.ema_short.wf()
        &&& self.ema_long.wf()
        &&& self.ema_signal.wf()
        &&& self.ema_short.period() >= 1
        &&& self.ema_long.period() >= 1
        &&& self.ema_signal.period() >= 1
        &&& self.ema_short.factor() == default_factor::<T>(self.ema_short.period())
        &&& self.ema_long.factor() == default_factor::<T>(self.ema_long.period())
        &&& self.ema_signal.factor() == default_factor::<T>(self.ema_signal.period())
        &&& self.ema_long.seen() == self.ema_short.seen()
        &&& self.ema_signal.seen() == macd_diffs(
            self.ema_short.period(),
            self.ema_long.period(),
            self.ema_short.seen(),
        )
    }

    /// A valid indicator has three periods of at least one.
    pub proof fn lemma_periods_positive(&self)
        requires
            self.wf(),
        ensures
            self.short_period() >= 1,
            self.long_period() >= 1,
            self.signal_period() >= 1,
    {
    }

    /// A fresh indicator; it is refused if any of the three periods is zero.
    pub fn new(short_period: usize, long_period: usize, signal_period: usize) -> (r: Result<Self, ()>)
        ensures
            r is Err <==> short_period == 0 || long_period == 0 || signal_period == 0,
            r matches Ok(m) ==> {
                &&& m.wf()
                &&& m.short_period() == short_period
                &&& m.long_period() == long_period
                &&& m.signal_period() == signal_period
                &&& m.seen() == Seq::<T>::empty()
            },
    {
        let ema_short = match ExponentialMovingAverage::new(short_period, None) {
            Ok(e) => e,
            Err(_) => {
                return Err(());
            },
        };
        let ema_long = match ExponentialMovingAverage::new(long_period, None) {
            Ok(e) => e,
            Err(_) => {
                return Err(());
            },
        };
        let ema_signal = match ExponentialMovingAverage::new(signal_period, None) {
            Ok(e) => e,
            Err(_) => {
                return Err(());
            },
        };
        let macd = MovingAverageConvergenceDivergence { ema_short, ema_long, ema_signal };
        Ok(macd)
    }
}

impl<T: Scalar> Eval<T> for MovingAverageConvergenceDivergence<T> {
    open spec fn valid(&self) -> bool {
        self.wf()
    }

    open spec fn history(&self) -> Seq<T> {
        self.seen()
    }

    open spec fn answer(&self, h: Seq<T>) -> Option<T> {
        macd_output(self.short_period(), self.long_period(), self.signal_period(), h)
    }

    /// Feeds one tick to the short and the long average, the difference (once
    /// defined) to the signal average, and answers once all three do.
    fn eval(&mut self, value: T) -> (r: Option<T>)
        ensures
            final(self).wf(),
            final(self).short_period() == old(self).short_period(),
            final(self).long_period() == old(self).long_period(),
            final(self).signal_period() == old(self).signal_period(),
            final(self).seen() == old(self).seen().push(value),
            r == macd_output(
                final(self).short_period(),
                final(self).long_period(),
                final(self).signal_period(),
                final(self).seen(),
            ),
    {
        proof {
            assert(self.ema_short.seen().push(value).drop_last() == self.ema_short.seen());
        }
        let s = self.ema_short.eval(value);
        let l = self.ema_long.eval(value);
        let diff = match (s, l) {
            (Some(s_val), Some(l_val)) => Some(s_val.minus(l_val)),
            _ => None,
        };
        let signal = match diff {
            Some(diff) => self.ema_signal.eval(diff),
            None => None,
        };
        match (diff, signal) {
            (Some(diff), Some(signal)) => Some(diff.minus(signal)),
            _ => None,
        }
    }
}

} // verus!
