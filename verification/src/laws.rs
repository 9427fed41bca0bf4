use crate::model::{
    blend, ema_output, lemma_changes_len, lemma_ema_ready, losses, rsi_factor, running_sum,
    sma_output, total, window,
};
use crate::scalar::Scalar;
use vstd::prelude::*;

verus! {

/// Addition of `a` and `b` does not depend on their order.
pub open spec fn commutes<T: Scalar>(a: T, b: T) -> bool {
    a.plus_spec(b) == b.plus_spec(a)
}

/// Addition of `a`, `b` and `c` does not depend on the grouping.
pub open spec fn associates<T: Scalar>(a: T, b: T, c: T) -> bool {
    a.plus_spec(b).plus_spec(c) == a.plus_spec(b.plus_spec(c))
}

/// Taking `b` away after adding it gives `a` back.
pub open spec fn cancels<T: Scalar>(a: T, b: T) -> bool {
    a.plus_spec(b).minus_spec(b) == a
}

/// Sums over `T` are exact: addition is commutative and associative, and
/// subtraction undoes it. Rounding number types do not satisfy this.
pub open spec fn exact_sums<T: Scalar>() -> bool {
    &&& forall|a: T, b: T| #[trigger] commutes(a, b)
    &&& forall|a: T, b: T, c: T| #[trigger] associates(a, b, c)
    &&& forall|a: T, b: T| #[trigger] cancels(a, b)
}

/// The integers modulo 2^64 have exact sums.
pub proof fn lemma_u64_exact()
    ensures
        exact_sums::<u64>(),
{
    assert forall|a: u64, b: u64, c: u64| #[trigger] associates(a, b, c) by {
        let m = 0x1_0000_0000_0000_0000int;
        let ab = (a + b) % m;
        let bc = (b + c) % m;
        assert((ab + c) % m == (a + bc) % m);
    }
    assert forall|a: u64, b: u64| #[trigger] cancels(a, b) by {
        let m = 0x1_0000_0000_0000_0000int;
        let ab = (a + b) % m;
        assert((ab - b) % m == a);
    }
}

/// With exact sums, the total of two or more values is the first one plus
/// the total of the rest.
pub proof fn lemma_total_front<T: Scalar>(s: Seq<T>)
    requires
        exact_sums::<T>(),
        s.len() >= 2,
    ensures
        total(s) == s[0].plus_spec(total(s.subrange(1, s.len() as int))),
    decreases s.len(),
{
    let rest = s.subrange(1, s.len() as int);
    if s.len() == 2 {
        assert(total(s.drop_last()) == s[0]);
        assert(total(rest) == s[1]);
    } else {
        lemma_total_front(s.drop_last());
        assert(s.drop_last().subrange(1, s.len() - 1) == rest.drop_last());
        assert(associates(s[0], total(rest.drop_last()), s.last()));
        assert(rest.last() == s.last());
        assert(total(rest) == total(rest.drop_last()).plus_spec(rest.last()));
        assert(s.drop_last()[0] == s[0]);
    }
}

/// With exact sums, the sum that a moving average carries is the total of
/// its window.
pub proof fn lemma_running_sum_exact<T: Scalar>(p: nat, h: Seq<T>)
    requires
        exact_sums::<T>(),
        p >= 1,
        h.len() >= p,
    ensures
        running_sum(p, h) == total(window(p, h)),
    decreases h.len(),
{
    if h.len() > p {
        let h0 = h.drop_last();
        let w0 = window(p, h0);
        let w = window(p, h);
        let x = h.last();
        let o = h[h.len() - 1 - p];
        lemma_running_sum_exact(p, h0);
        assert(w0[0] == o);
        assert(w.last() == x);
        if p == 1 {
            assert(commutes(o, x));
            assert(cancels(x, o));
        } else {
            let mid = w0.subrange(1, p as int);
            assert(w.drop_last() == mid);
            lemma_total_front(w0);
            let m = total(mid);
            assert(commutes(o, m));
            assert(associates(m, o, x));
            assert(commutes(o, x));
            assert(associates(m, x, o));
            assert(cancels(m.plus_spec(x), o));
        }
    }
}

/// The arithmetic mean of `s`: its total over its length.
pub open spec fn mean<T: Scalar>(s: Seq<T>) -> T {
    total(s).over_spec(T::count_spec(s.len()))
}

/// A simple moving average of period `p` is silent for its first `p - 1`
/// ticks and answers on every tick from the `p`-th on.
pub proof fn lemma_sma_ready<T: Scalar>(p: nat, h: Seq<T>)
    ensures
        sma_output(p, h) is Some <==> h.len() >= p,
{
}

/// With exact sums, every answer of a simple moving average is the
/// arithmetic mean of the last `p` values fed.
pub proof fn lemma_sma_mean<T: Scalar>(p: nat, h: Seq<T>)
    requires
        exact_sums::<T>(),
        p >= 1,
        h.len() >= p,
    ensures
        sma_output(p, h) == Some(mean(h.subrange(h.len() - p, h.len() as int))),
{
    lemma_running_sum_exact(p, h);
    if h.len() == p {
        assert(h.subrange(0, h.len() as int) == h);
    }
}

/// The first answer of an exponential average, on its `p`-th tick, is the
/// simple moving average of the same period over the same values.
pub proof fn lemma_ema_seed<T: Scalar>(p: nat, f: T, h: Seq<T>)
    requires
        p >= 1,
        h.len() == p,
    ensures
        ema_output(p, f, h) == sma_output(p, h),
        ema_output(p, f, h) is Some,
        ema_output(p, f, h.drop_last()) is None,
{
    lemma_ema_ready(p, f, h.drop_last());
}

/// Every later answer of an exponential average blends the newest value
/// with the previous answer: `value * f + prev * (1 - f)`.
pub proof fn lemma_ema_step<T: Scalar>(p: nat, f: T, h: Seq<T>)
    requires
        p >= 1,
        h.len() > p,
    ensures
        ema_output(p, f, h.drop_last()) is Some,
        ema_output(p, f, h) == Some(blend(h.last(), ema_output(p, f, h.drop_last())->0, f)),
{
    lemma_ema_ready(p, f, h.drop_last());
}

/// Once a strength index answers, a tick that does not fall below its
/// predecessor only lets the average loss decay: it becomes the blend of
/// zero with the previous average loss.
pub proof fn lemma_rsi_loss_decays<T: Scalar>(p: nat, h: Seq<T>)
    requires
        p >= 1,
        h.len() > p + 1,
        h[h.len() - 2].same_spec(h.last()) || h[h.len() - 2].below_spec(h.last()),
    ensures
        ema_output(p, rsi_factor::<T>(p), losses(h.drop_last())) is Some,
        ema_output(p, rsi_factor::<T>(p), losses(h)) == Some(
            blend(
                T::count_spec(0),
                ema_output(p, rsi_factor::<T>(p), losses(h.drop_last()))->0,
                rsi_factor::<T>(p),
            ),
        ),
{
    lemma_changes_len(h);
    lemma_changes_len(h.drop_last());
    assert(losses(h).drop_last() == losses(h.drop_last()));
    lemma_ema_step(p, rsi_factor::<T>(p), losses(h));
}

} // verus!
