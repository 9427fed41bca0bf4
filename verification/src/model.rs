use crate::scalar::Scalar;
use vstd::prelude::*;

verus! {

/// Sum of a sequence from left to right, starting from its first element.
/// The empty sequence sums to the scalar of the count zero.
pub open spec fn total<T: Scalar>(s: Seq<T>) -> T
    decreases s.len(),
{
    if s.len() == 0 {
        T::count_spec(0)
    } else if s.len() == 1 {
        s[0]
    } else {
        total(s.drop_last()).plus_spec(s.last())
    }
}

/// The most recent `p` values of the history `h` (all of it while shorter).
pub open spec fn window<T>(p: nat, h: Seq<T>) -> Seq<T> {
    if h.len() <= p {
        h
    } else {
        h.subrange(h.len() - p, h.len() as int)
    }
}

/// The sum a moving average of period `p` carries after the history `h`:
/// summed in full while at most `p` values were seen, and from then on
/// updated by adding the newest value and taking away the one that leaves.
pub open spec fn running_sum<T: Scalar>(p: nat, h: Seq<T>) -> T
    decreases h.len(),
{
    if h.len() <= p {
        total(h)
    } else {
        running_sum(p, h.drop_last()).plus_spec(h.last()).minus_spec(h[h.len() - 1 - p])
    }
}

/// What a simple moving average of period `p` answers on the last tick of `h`.
pub open spec fn sma_output<T: Scalar>(p: nat, h: Seq<T>) -> Option<T> {
    if h.len() < p {
        None
    } else {
        Some(running_sum(p, h).over_spec(T::count_spec(p)))
    }
}

/// The smoothing factor an exponential average of period `p` takes when
/// none is given: two over `p + 1`.
pub open spec fn default_factor<T: Scalar>(p: nat) -> T {
    T::count_spec(2).over_spec(T::count_spec(p + 1))
}

/// One smoothing step: the newest value weighted by `factor`, the previous
/// average by one minus `factor`.
pub open spec fn blend<T: Scalar>(value: T, prev: T, factor: T) -> T {
    value.times_spec(factor).plus_spec(prev.times_spec(T::count_spec(1).minus_spec(factor)))
}

/// What an exponential moving average of period `p` and factor `f` answers on
/// the last tick of `h`: the simple average while it seeds, then the blend of
/// the newest value with the previous answer.
pub open spec fn ema_output<T: Scalar>(p: nat, f: T, h: Seq<T>) -> Option<T>
    decreases h.len(),
{
    if h.len() <= p {
        sma_output(p, h)
    } else {
        match ema_output(p, f, h.drop_last()) {
            Some(prev) => Some(blend(h.last(), prev, f)),
            None => None,
        }
    }
}

/// An exponential average answers exactly from its `p`-th tick on.
pub proof fn lemma_ema_ready<T: Scalar>(p: nat, f: T, h: Seq<T>)
    requires
        p >= 1,
    ensures
        ema_output(p, f, h) is Some <==> h.len() >= p,
    decreases h.len(),
{
    if h.len() > p {
        lemma_ema_ready(p, f, h.drop_last());
    }
}

/// The upward part of the move from `prev` to `val`: its size where the
/// value rose, zero otherwise.
pub open spec fn gain<T: Scalar>(prev: T, val: T) -> T {
    if prev.same_spec(val) {
        T::count_spec(0)
    } else if prev.below_spec(val) {
        val.minus_spec(prev)
    } else {
        T::count_spec(0)
    }
}

/// The downward part of the move from `prev` to `val`: zero where the value
/// stayed or rose, `prev - val` otherwise.
pub open spec fn loss<T: Scalar>(prev: T, val: T) -> T {
    if prev.same_spec(val) {
        T::count_spec(0)
    } else if prev.below_spec(val) {
        T::count_spec(0)
    } else {
        prev.minus_spec(val)
    }
}

/// The gains between neighbours of `h`, one for each tick but the first.
pub open spec fn gains<T: Scalar>(h: Seq<T>) -> Seq<T>
    decreases h.len(),
{
    if h.len() < 2 {
        Seq::empty()
    } else {
        gains(h.drop_last()).push(gain(h[h.len() - 2], h.last()))
    }
}

/// The losses between neighbours of `h`, one for each tick but the first.
pub open spec fn losses<T: Scalar>(h: Seq<T>) -> Seq<T>
    decreases h.len(),
{
    if h.len() < 2 {
        Seq::empty()
    } else {
        losses(h.drop_last()).push(loss(h[h.len() - 2], h.last()))
    }
}

/// The smoothing factor of both averages inside a strength index: one over `p`.
pub open spec fn rsi_factor<T: Scalar>(p: nat) -> T {
    T::count_spec(1).over_spec(T::count_spec(p))
}

/// The index for an average gain `up` and an average loss `down`:
/// `1 - 1 / (1 + up / down)`.
pub open spec fn strength<T: Scalar>(up: T, down: T) -> T {
    T::count_spec(1).minus_spec(
        T::count_spec(1).over_spec(T::count_spec(1).plus_spec(up.over_spec(down))),
    )
}

/// What a relative strength index of period `p` answers on the last tick of `h`.
pub open spec fn rsi_output<T: Scalar>(p: nat, h: Seq<T>) -> Option<T> {
    match (
        ema_output(p, rsi_factor::<T>(p), gains(h)),
        ema_output(p, rsi_factor::<T>(p), losses(h)),
    ) {
        (Some(up), Some(down)) => Some(strength(up, down)),
        _ => None,
    }
}

/// A tick that does not fall below its predecessor feeds a zero loss, and
/// one that does not rise above it a zero gain.
pub proof fn lemma_one_sided_change<T: Scalar>(prev: T, val: T)
    ensures
        prev.same_spec(val) || prev.below_spec(val) ==> loss(prev, val) == T::count_spec(0),
        prev.same_spec(val) || !prev.below_spec(val) ==> gain(prev, val) == T::count_spec(0),
{
}

/// There is one gain and one loss for each tick after the first.
pub proof fn lemma_changes_len<T: Scalar>(h: Seq<T>)
    ensures
        gains(h).len() == (if h.len() == 0 { 0 } else { h.len() - 1 }),
        losses(h).len() == gains(h).len(),
    decreases h.len(),
{
    if h.len() >= 2 {
        lemma_changes_len(h.drop_last());
    }
}

/// A relative strength index answers exactly from tick `p + 1` on: one tick
/// to have a previous value, then `p` changes to seed both averages, which
/// become ready on the same tick.
pub proof fn lemma_rsi_ready<T: Scalar>(p: nat, h: Seq<T>)
    requires
        p >= 1,
    ensures
        rsi_output(p, h) is Some <==> h.len() >= p + 1,
        ema_output(p, rsi_factor::<T>(p), gains(h)) is Some <==> ema_output(
            p,
            rsi_factor::<T>(p),
            losses(h),
        ) is Some,
{
    lemma_changes_len(h);
    lemma_ema_ready(p, rsi_factor::<T>(p), gains(h));
    lemma_ema_ready(p, rsi_factor::<T>(p), losses(h));
}

/// The short average minus the long one, once both answer.
pub open spec fn macd_diff<T: Scalar>(ps: nat, pl: nat, h: Seq<T>) -> Option<T> {
    match (
        ema_output(ps, default_factor::<T>(ps), h),
        ema_output(pl, default_factor::<T>(pl), h),
    ) {
        (Some(s), Some(l)) => Some(s.minus_spec(l)),
        _ => None,
    }
}

/// The differences that were defined along `h`, in the order of their ticks:
/// what the signal average has been fed.
pub open spec fn macd_diffs<T: Scalar>(ps: nat, pl: nat, h: Seq<T>) -> Seq<T>
    decreases h.len(),
{
    if h.len() == 0 {
        Seq::empty()
    } else {
        match macd_diff(ps, pl, h) {
            Some(d) => macd_diffs(ps, pl, h.drop_last()).push(d),
            None => macd_diffs(ps, pl, h.drop_last()),
        }
    }
}

/// What a convergence/divergence indicator answers on the last tick of `h`:
/// the difference minus the signal average of the differences.
pub open spec fn macd_output<T: Scalar>(ps: nat, pl: nat, psig: nat, h: Seq<T>) -> Option<T> {
    match macd_diff(ps, pl, h) {
        Some(d) => match ema_output(psig, default_factor::<T>(psig), macd_diffs(ps, pl, h)) {
            Some(signal) => Some(d.minus_spec(signal)),
            None => None,
        },
        None => None,
    }
}

/// The larger of two periods.
pub open spec fn longer(ps: nat, pl: nat) -> nat {
    if ps >= pl {
        ps
    } else {
        pl
    }
}

/// The difference is defined exactly from the tick on which the slower of
/// the two averages answers, so that many differences exist.
pub proof fn lemma_diffs_len<T: Scalar>(ps: nat, pl: nat, h: Seq<T>)
    requires
        ps >= 1,
        pl >= 1,
    ensures
        macd_diff(ps, pl, h) is Some <==> h.len() >= longer(ps, pl),
        macd_diffs(ps, pl, h).len() == (if h.len() < longer(ps, pl) {
            0
        } else {
            h.len() - longer(ps, pl) + 1
        }),
    decreases h.len(),
{
    lemma_ema_ready(ps, default_factor::<T>(ps), h);
    lemma_ema_ready(pl, default_factor::<T>(pl), h);
    if h.len() > 0 {
        lemma_diffs_len(ps, pl, h.drop_last());
    }
}

/// The indicator answers exactly from tick
/// `max(short, long) + signal - 1` on.
pub proof fn lemma_macd_ready<T: Scalar>(ps: nat, pl: nat, psig: nat, h: Seq<T>)
    requires
        ps >= 1,
        pl >= 1,
        psig >= 1,
    ensures
        macd_output(ps, pl, psig, h) is Some <==> h.len() >= longer(ps, pl) + psig - 1,
{
    lemma_diffs_len(ps, pl, h);
    lemma_ema_ready(psig, default_factor::<T>(psig), macd_diffs(ps, pl, h));
}

} // verus!
