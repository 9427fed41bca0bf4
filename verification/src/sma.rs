use crate::eval::Eval;
use crate::laws::{exact_sums, lemma_running_sum_exact};
use crate::model::{running_sum, sma_output, total, window};
use crate::scalar::Scalar;
use std::collections::VecDeque;
use vstd::prelude::*;

verus! {

/// Running mean over a sliding window of the most recent `period` values.
pub struct SimpleMovingAverage<T> {
    buffer: VecDeque<T>,
    sum: Option<T>,
    period: usize,
    seen: Ghost<Seq<T>>,
}

/// Sums a non-empty window from its oldest value to its newest.
fn sum_of<T: Scalar>(buffer: &VecDeque<T>) -> (r: T)
    requires
        buffer@.len() >= 1,
    ensures
        r == total(buffer@),
{
    let n: usize = buffer.len();
    let mut acc: T = buffer[0];
    let mut i: usize = 1;
    assert(buffer@.take(1).len() == 1);
    while i < n
        invariant
            1 <= i <= n,
            n == buffer@.len(),
            acc == total(buffer@.take(i as int)),
        decreases n - i,
    {
        acc = acc.plus(buffer[i]);
        proof {
            assert(buffer@.take(i + 1).drop_last() == buffer@.take(i as int));
        }
        i += 1;
    }
    proof {
        assert(buffer@.take(n as int) == buffer@);
    }
    acc
}

impl<T: Scalar> SimpleMovingAverage<T> {
    /// The window length, at least one.
    pub closed spec fn period(&self) -> nat {
        self.period as nat
    }

    /// Every value fed so far, oldest first.
    pub closed spec fn seen(&self) -> Seq<T> {
        self.seen@
    }

    /// The values in the window, oldest first.
    pub closed spec fn held(&self) -> Seq<T> {
        self.buffer@
    }

    /// The sum carried along, once the window has filled.
    pub closed spec fn carried(&self) -> Option<T> {
        self.sum
    }

    /// The window holds the latest values and the carried sum is the running sum.
    pub closed spec fn wf(&self) -> bool {
        &&& self.period >= 1
        &&& self.buffer@ == window(self.period as nat, self.seen@)
        &&& self.sum == if self.seen@.len() >= self.period {
            Some(running_sum(self.period as nat, self.seen@))
        } else {
            None
        }
    }

    /// What validity means: the window never holds more than `period`
    /// values, namely the latest ones; a sum is carried from the tick on
    /// which the window first fills; and where sums are exact it is the total
    /// of the window.
    pub proof fn lemma_state(&self)
        requires
            self.wf(),
        ensures
            self.period() >= 1,
            self.held() == window(self.period(), self.seen()),
            self.held().len() <= self.period(),
            self.carried() is Some <==> self.seen().len() >= self.period(),
            self.carried() is Some ==> self.carried() == Some(
                running_sum(self.period(), self.seen()),
            ),
            exact_sums::<T>() && self.carried() is Some ==> self.carried() == Some(
                total(self.held()),
            ),
    {
        if exact_sums::<T>() && self.sum is Some {
            lemma_running_sum_exact(self.period as nat, self.seen@);
        }
    }

    /// A fresh average with an empty window; a zero period is refused.
    pub fn new(period: usize) -> (r: Result<Self, ()>)
        ensures
            r is Err <==> period == 0,
            r matches Ok(s) ==> s.wf() && s.period() == period && s.seen() == Seq::<T>::empty(),
    {
        if period == 0 {
            return Err(());
        }
        let s = SimpleMovingAverage {
            buffer: VecDeque::new(),
            sum: None,
            period,
            seen: Ghost(Seq::empty()),
        };
        Ok(s)
    }
}

impl<T: Scalar> Eval<T> for SimpleMovingAverage<T> {
    open spec fn valid(&self) -> bool {
        self.wf()
    }

    open spec fn history(&self) -> Seq<T> {
        self.seen()
    }

    open spec fn answer(&self, h: Seq<T>) -> Option<T> {
        sma_output(self.period(), h)
    }

    /// Feeds one tick. Answers `None` until `period` values were seen, and
    /// from then on the running sum divided by the period.
    fn eval(&mut self, value: T) -> (r: Option<T>)
        ensures
            final(self).wf(),
            final(self).period() == old(self).period(),
            final(self).seen() == old(self).seen().push(value),
            r == sma_output(final(self).period(), final(self).seen()),
    {
        let ghost before = self.seen@;
        self.buffer.push_back(value);
        self.seen = Ghost(before.push(value));
        proof {
            assert(before.push(value).drop_last() == before);
        }
        let period: usize = self.period;
        match self.sum {
            Some(sum) => {
                let old_val: T = self.buffer.pop_front().unwrap();
                let next: T = sum.plus(value).minus(old_val);
                self.sum = Some(next);
                proof {
                    assert(self.buffer@ == window(period as nat, self.seen@));
                }
                Some(next.over(T::from_count(period as u128)))
            },
            None => {
                if self.buffer.len() < period {
                    return None;
                }
                let sum: T = sum_of(&self.buffer);
                self.sum = Some(sum);
                Some(sum.over(T::from_count(period as u128)))
            },
        }
    }
}

} // verus!
