use crate::ema::ExponentialMovingAverage;
use crate::model::{ema_output, gain, gains, loss, losses, rsi_factor, rsi_output, strength};
use crate::eval::Eval;
use crate::scalar::Scalar;
use vstd::prelude::*;

verus! {

/// Relative strength of gains against losses, each smoothed by its own
/// exponential average of the same period.
pub struct RelativeStrengthIndex<T> {
    ema_down: ExponentialMovingAverage<T>,
    ema_up: ExponentialMovingAverage<T>,
    prev_val: Option<T>,
    seen: Ghost<Seq<T>>,
}

impl<T: Scalar> RelativeStrengthIndex<T> {
    /// The period of both averages, at least one.
    pub closed spec fn period(&self) -> nat {
        self.ema_up.period()
    }

    /// Every value fed so far, oldest first.
    pub closed spec fn seen(&self) -> Seq<T> {
        self.seen@
    }

    /// Both averages are configured alike and were fed every change.
    closed spec fn trackers_wf(&self) -> bool {
        &&& self.ema_up.wf()
        &&& self.ema_down.wf()
        &&& self.ema_up.period() >= 1
        &&& self.ema_down.period() == self.ema_up.period()
        &&& self.ema_up.factor() == rsi_factor::<T>(self.ema_up.period())
        &&& self.ema_down.factor() == rsi_factor::<T>(self.ema_up.period())
    }

    /// The gain tracker has seen every gain, the loss tracker every loss,
    /// and the previous value is the last one fed.
    pub closed spec fn wf(&self) -> bool {
        &&& self.trackers_wf()
        &&& self.ema_up.seen() == gains(self.seen@)
        &&& self.ema_down.seen() == losses(self.seen@)
        &&& self.prev_val == if self.seen@.len() == 0 {
            None
        } else {
            Some(self.seen@.last())
        }
    }

    /// The last value fed, once there is one.
    pub closed spec fn previous(&self) -> Option<T> {
        self.prev_val
    }

    /// What validity means: the period is at least one, and the previous
    /// value is the last one fed.
    pub proof fn lemma_state(&self)
        requires
            self.wf(),
        ensures
            self.period() >= 1,
            self.previous() == if self.seen().len() == 0 {
                None
            } else {
                Some(self.seen().last())
            },
    {
    }

    /// A fresh index; a zero period is refused.
    pub fn new(period: usize) -> (r: Result<Self, ()>)
        ensures
            r is Err <==> period == 0,
            r matches Ok(s) ==> s.wf() && s.period() == period && s.seen() == Seq::<T>::empty(),
    {
        let smoothing_factor: T = T::from_count(1).over(T::from_count(period as u128));
        let ema_down = match ExponentialMovingAverage::new(period, Some(smoothing_factor)) {
            Ok(e) => e,
            Err(_) => {
                return Err(());
            },
        };
        let ema_up = match ExponentialMovingAverage::new(period, Some(smoothing_factor)) {
            Ok(e) => e,
            Err(_) => {
                return Err(());
            },
        };
        let rsi = RelativeStrengthIndex {
            ema_down,
            ema_up,
            prev_val: None,
            seen: Ghost(Seq::empty()),
        };
        Ok(rsi)
    }

    fn tick(&mut self, prev_val: T, val: T) -> (r: Option<T>)
        requires
            old(self).trackers_wf(),
        ensures
            final(self).trackers_wf(),
            final(self).period() == old(self).period(),
            final(self).prev_val == old(self).prev_val,
            final(self).seen == old(self).seen,
            final(self).ema_up.seen() == old(self).ema_up.seen().push(gain(prev_val, val)),
            final(self).ema_down.seen() == old(self).ema_down.seen().push(loss(prev_val, val)),
            r == match (
                ema_output(
                    final(self).period(),
                    rsi_factor::<T>(final(self).period()),
                    final(self).ema_up.seen(),
                ),
                ema_output(
                    final(self).period(),
                    rsi_factor::<T>(final(self).period()),
                    final(self).ema_down.seen(),
                ),
            ) {
                (Some(up), Some(down)) => Some(strength(up, down)),
                _ => None,
            },
    {
        let zero: T = T::from_count(0);
        let (up, down) = if prev_val.same(val) {
            let up = self.ema_up.eval(zero);
            let down = self.ema_down.eval(zero);
            (up, down)
        } else if prev_val.below(val) {
            let up = self.ema_up.eval(val.minus(prev_val));
            let down = self.ema_down.eval(zero);
            (up, down)
        } else {
            let up = self.ema_up.eval(zero);
            let down = self.ema_down.eval(prev_val.minus(val));
            (up, down)
        };
        match (up, down) {
            (Some(up), Some(down)) => {
                let one: T = T::from_count(1);
                let rs: T = up.over(down);
                Some(one.minus(one.over(one.plus(rs))))
            },
            _ => None,
        }
    }
}

impl<T: Scalar> Eval<T> for RelativeStrengthIndex<T> {
    open spec fn valid(&self) -> bool {
        self.wf()
    }

    open spec fn history(&self) -> Seq<T> {
        self.seen()
    }

    open spec fn answer(&self, h: Seq<T>) -> Option<T> {
        rsi_output(self.period(), h)
    }

    /// Feeds one tick. The first tick only sets the previous value; every
    /// later one feeds the change to both averages and answers once both do.
    fn eval(&mut self, value: T) -> (r: Option<T>)
        ensures
            final(self).wf(),
            final(self).period() == old(self).period(),
            final(self).seen() == old(self).seen().push(value),
            r == rsi_output(final(self).period(), final(self).seen()),
    {
        let ghost before = self.seen@;
        proof {
            assert(before.push(value).drop_last() == before);
        }
        let res = match self.prev_val {
            Some(prev_val) => self.tick(prev_val, value),
            None => None,
        };
        self.prev_val = Some(value);
        self.seen = Ghost(before.push(value));
        res
    }
}

} // verus!
