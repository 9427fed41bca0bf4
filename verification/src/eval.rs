use crate::scalar::Scalar;
use vstd::prelude::*;

verus! {

/// The one capability every indicator offers: take a tick, answer with an
/// output or with `None` while warming up.
pub trait Eval<T: Scalar> {
    /// The state is consistent with the ticks fed so far.
    spec fn valid(&self) -> bool;

    /// Every value fed so far, oldest first.
    spec fn history(&self) -> Seq<T>;

    /// What an indicator configured as this one answers on the last tick of `h`.
    spec fn answer(&self, h: Seq<T>) -> Option<T>;

    /// Feeds one tick: the history grows by `value`, the configuration stays,
    /// and the result is the configuration's answer on the grown history.
    fn eval(&mut self, value: T) -> (r: Option<T>)
        requires
            old(self).valid(),
        ensures
            final(self).valid(),
            final(self).history() == old(self).history().push(value),
            forall|h: Seq<T>| #[trigger] final(self).answer(h) == old(self).answer(h),
            r == final(self).answer(final(self).history()),
    ;
}

} // verus!
