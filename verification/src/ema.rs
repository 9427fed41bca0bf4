use crate::model::{default_factor, ema_output, lemma_ema_ready};
use crate::eval::Eval;
use crate::scalar::Scalar;
use crate::sma::SimpleMovingAverage;
use vstd::prelude::*;

verus! {

/// Recursive smoothing, seeded by a simple moving average of the same period.
pub struct ExponentialMovingAverage<T> {
    sma: SimpleMovingAverage<T>,
    prev_ema: Option<T>,
    smoothing_factor: T,
    seen: Ghost<Seq<T>>,
}

impl<T: Scalar> ExponentialMovingAverage<T> {
    /// The seeding period, at least one.
    pub closed spec fn period(&self) -> nat {
        self.sma.period()
    }

    /// The weight of the newest value.
    pub closed spec fn factor(&self) -> T {
        self.smoothing_factor
    }

    /// Every value fed so far, oldest first.
    pub closed spec fn seen(&self) -> Seq<T> {
        self.seen@
    }

    /// The stored previous answer is the model's, and the seeding average
    /// has seen every tick for as long as there is none.
    pub closed spec fn wf(&self) -> bool {
        &&& self.sma.wf()
        &&& self.sma.period() >= 1
        &&& self.prev_ema == ema_output(self.sma.period(), self.smoothing_factor, self.seen@)
        &&& self.prev_ema is None ==> self.sma.seen() == self.seen@
    }

    /// The previous answer, once there is one.
    pub closed spec fn previous(&self) -> Option<T> {
        self.prev_ema
    }

    /// What validity means: the period is at least one, and the previous
    /// answer is the model's answer on the ticks so far, which exists from
    /// the `period`-th tick on and so is never lost again.
    pub proof fn lemma_state(&self)
        requires
            self.wf(),
        ensures
            self.period() >= 1,
            self.previous() == ema_output(self.period(), self.factor(), self.seen()),
            self.previous() is Some <==> self.seen().len() >= self.period(),
    {
        lemma_ema_ready(self.sma.period(), self.smoothing_factor, self.seen@);
    }

    /// A fresh average; a zero period is refused. Without a given factor the
    /// default of two over `period + 1` is taken.
    pub fn new(period: usize, smoothing_factor: Option<T>) -> (r: Result<Self, ()>)
        ensures
            r is Err <==> period == 0,
            r matches Ok(e) ==> {
                &&& e.wf()
                &&& e.period() == period
                &&& e.seen() == Seq::<T>::empty()
                &&& e.factor() == match smoothing_factor {
                    Some(f) => f,
                    None => default_factor::<T>(period as nat),
                }
            },
    {
        let sma = match SimpleMovingAverage::new(period) {
            Ok(sma) => sma,
            Err(_) => {
                return Err(());
            },
        };
        let factor: T = match smoothing_factor {
            Some(f) => f,
            None => T::from_count(2).over(T::from_count(period as u128 + 1)),
        };
        let ema = ExponentialMovingAverage {
            sma,
            prev_ema: None,
            smoothing_factor: factor,
            seen: Ghost(Seq::empty()),
        };
        Ok(ema)
    }
}

impl<T: Scalar> Eval<T> for ExponentialMovingAverage<T> {
    open spec fn valid(&self) -> bool {
        self.wf()
    }

    open spec fn history(&self) -> Seq<T> {
        self.seen()
    }

    open spec fn answer(&self, h: Seq<T>) -> Option<T> {
        ema_output(self.period(), self.factor(), h)
    }

    /// Feeds one tick. While no previous answer exists the seeding average
    /// decides; afterwards the answer is the blend of the value with the
    /// previous answer.
    fn eval(&mut self, value: T) -> (r: Option<T>)
        ensures
            final(self).wf(),
            final(self).period() == old(self).period(),
            final(self).factor() == old(self).factor(),
            final(self).seen() == old(self).seen().push(value),
            r == ema_output(final(self).period(), final(self).factor(), final(self).seen()),
    {
        let ghost before = self.seen@;
        proof {
            lemma_ema_ready(self.sma.period(), self.smoothing_factor, before);
            assert(before.push(value).drop_last() == before);
        }
        self.seen = Ghost(before.push(value));
        match self.prev_ema {
            Some(prev_ema) => {
                let one: T = T::from_count(1);
                let cur_ema: T = value.times(self.smoothing_factor).plus(
                    prev_ema.times(one.minus(self.smoothing_factor)),
                );
                self.prev_ema = Some(cur_ema);
                Some(cur_ema)
            },
            None => {
                let cur_ema = self.sma.eval(value);
                self.prev_ema = cur_ema;
                cur_ema
            },
        }
    }
}

} // verus!
