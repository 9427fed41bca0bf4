use crate::ema::ExponentialMovingAverage;
use crate::eval::Eval;
use crate::indicator::Indicator;
use crate::macd::MovingAverageConvergenceDivergence;
use crate::model::default_factor;
use crate::result::EvalResult;
use crate::rsi::RelativeStrengthIndex;
use crate::scalar::Scalar;
use crate::sma::SimpleMovingAverage;
use vstd::prelude::*;

verus! {

/// The handle that names no indicator.
pub const NULL_HANDLE: usize = 0;

/// Owner of every indicator that was created and not yet destroyed, each
/// under a handle of its own. A handle is issued once and never again, so a
/// destroyed handle stays dead.
pub struct IndicatorTable<T> {
    slots: Vec<Option<Indicator<T>>>,
}

impl<T: Scalar> IndicatorTable<T> {
    /// The live handles, each with its indicator.
    pub closed spec fn live(&self) -> Map<usize, Indicator<T>> {
        Map::new(
            |h: usize| h < self.slots@.len() && self.slots@[h as int] is Some,
            |h: usize| self.slots@[h as int]->0,
        )
    }

    /// The handle that the next successful creation returns.
    pub closed spec fn issued(&self) -> nat {
        self.slots@.len()
    }

    /// The null handle is dead and every live indicator is valid.
    pub closed spec fn wf(&self) -> bool {
        &&& self.slots@.len() >= 1
        &&& self.slots@[0] is None
        &&& forall|i: int|
            0 <= i < self.slots@.len() && (#[trigger] self.slots@[i]) is Some
                ==> self.slots@[i]->0.valid()
    }

    /// In a valid table the null handle is never live, every live handle was
    /// issued before, and every live indicator is valid.
    pub proof fn lemma_live(&self)
        requires
            self.wf(),
        ensures
            !self.live().contains_key(NULL_HANDLE),
            self.issued() >= 1,
            forall|h: usize| #[trigger] self.live().contains_key(h) ==> h < self.issued(),
            forall|h: usize| #[trigger]
                self.live().contains_key(h) ==> self.live()[h].valid(),
    {
    }

    /// An empty table.
    pub fn new() -> (table: Self)
        ensures
            table.wf(),
            table.live() == Map::<usize, Indicator<T>>::empty(),
            table.issued() == 1,
    {
        let mut slots: Vec<Option<Indicator<T>>> = Vec::new();
        slots.push(None);
        let table = IndicatorTable { slots };
        assert(table.live() =~= Map::<usize, Indicator<T>>::empty());
        table
    }

    /// Takes ownership of `indicator` and issues its handle.
    fn install(&mut self, indicator: Indicator<T>) -> (handle: usize)
        requires
            old(self).wf(),
            indicator.valid(),
        ensures
            final(self).wf(),
            handle == old(self).issued(),
            handle != NULL_HANDLE,
            final(self).issued() == old(self).issued() + 1,
            final(self).live() == old(self).live().insert(handle, indicator),
    {
        let handle: usize = self.slots.len();
        self.slots.push(Some(indicator));
        assert(self.live() =~= old(self).live().insert(handle, indicator));
        handle
    }
}

/// Creates a simple moving average in `table`. Answers the null handle, and
/// changes nothing, exactly when `period` is zero.
pub fn create_simple_moving_average<T: Scalar>(
    table: &mut IndicatorTable<T>,
    period: usize,
) -> (handle: usize)
    requires
        old(table).wf(),
    ensures
        final(table).wf(),
        handle == NULL_HANDLE <==> period == 0,
        period == 0 ==> final(table).live() == old(table).live(),
        period == 0 ==> final(table).issued() == old(table).issued(),
        period != 0 ==> {
            &&& handle == old(table).issued()
            &&& final(table).issued() == old(table).issued() + 1
            &&& final(table).live() == old(table).live().insert(handle, final(table).live()[handle])
            &&& final(table).live()[handle] matches Indicator::SimpleMovingAverage(sma)
            &&& sma.wf()
            &&& sma.period() == period
            &&& sma.seen() == Seq::<T>::empty()
        },
{
    match SimpleMovingAverage::new(period) {
        Err(_) => NULL_HANDLE,
        Ok(sma) => table.install(Indicator::SimpleMovingAverage(sma)),
    }
}

/// Creates an exponential moving average in `table`, with the given factor
/// or the default one. Answers the null handle, and changes nothing, exactly
/// when `period` is zero.
pub fn create_exponential_moving_average<T: Scalar>(
    table: &mut IndicatorTable<T>,
    period: usize,
    smoothing_factor: Option<T>,
) -> (handle: usize)
    requires
        old(table).wf(),
    ensures
        final(table).wf(),
        handle == NULL_HANDLE <==> period == 0,
        period == 0 ==> final(table).live() == old(table).live(),
        period == 0 ==> final(table).issued() == old(table).issued(),
        period != 0 ==> {
            &&& handle == old(table).issued()
            &&& final(table).issued() == old(table).issued() + 1
            &&& final(table).live() == old(table).live().insert(handle, final(table).live()[handle])
            &&& final(table).live()[handle] matches Indicator::ExponentialMovingAverage(ema)
            &&& ema.wf()
            &&& ema.period() == period
            &&& ema.seen() == Seq::<T>::empty()
            &&& ema.factor() == match smoothing_factor {
                Some(f) => f,
                None => default_factor::<T>(period as nat),
            }
        },
{
    match ExponentialMovingAverage::new(period, smoothing_factor) {
        Err(_) => NULL_HANDLE,
        Ok(ema) => table.install(Indicator::ExponentialMovingAverage(ema)),
    }
}

/// Creates a relative strength index in `table`. Answers the null handle,
/// and changes nothing, exactly when `period` is zero.
pub fn create_relative_strength_index<T: Scalar>(
    table: &mut IndicatorTable<T>,
    period: usize,
) -> (handle: usize)
    requires
        old(table).wf(),
    ensures
        final(table).wf(),
        handle == NULL_HANDLE <==> period == 0,
        period == 0 ==> final(table).live() == old(table).live(),
        period == 0 ==> final(table).issued() == old(table).issued(),
        period != 0 ==> {
            &&& handle == old(table).issued()
            &&& final(table).issued() == old(table).issued() + 1
            &&& final(table).live() == old(table).live().insert(handle, final(table).live()[handle])
            &&& final(table).live()[handle] matches Indicator::RelativeStrengthIndex(rsi)
            &&& rsi.wf()
            &&& rsi.period() == period
            &&& rsi.seen() == Seq::<T>::empty()
        },
{
    match RelativeStrengthIndex::new(period) {
        Err(_) => NULL_HANDLE,
        Ok(rsi) => table.install(Indicator::RelativeStrengthIndex(rsi)),
    }
}

/// Creates a convergence/divergence indicator in `table`. Answers the null
/// handle, and changes nothing, exactly when one of the periods is zero.
pub fn create_moving_average_convergence_divergence<T: Scalar>(
    table: &mut IndicatorTable<T>,
    short_period: usize,
    long_period: usize,
    signal_period: usize,
) -> (handle: usize)
    requires
        old(table).wf(),
    ensures
        final(table).wf(),
        handle == NULL_HANDLE <==> short_period == 0 || long_period == 0 || signal_period == 0,
        handle == NULL_HANDLE ==> final(table).live() == old(table).live(),
        handle == NULL_HANDLE ==> final(table).issued() == old(table).issued(),
        handle != NULL_HANDLE ==> {
            &&& handle == old(table).issued()
            &&& final(table).issued() == old(table).issued() + 1
            &&& final(table).live() == old(table).live().insert(handle, final(table).live()[handle])
            &&& final(table).live()[handle] matches Indicator::MovingAverageConvergenceDivergence(
                macd,
            )
            &&& macd.wf()
            &&& macd.short_period() == short_period
            &&& macd.long_period() == long_period
            &&& macd.signal_period() == signal_period
            &&& macd.seen() == Seq::<T>::empty()
        },
{
    match MovingAverageConvergenceDivergence::new(short_period, long_period, signal_period) {
        Err(_) => NULL_HANDLE,
        Ok(macd) => table.install(Indicator::MovingAverageConvergenceDivergence(macd)),
    }
}

/// Releases the indicator under `handle`. A handle that is null, unknown or
/// already destroyed leaves the table as it is.
pub fn destroy_indicator<T: Scalar>(table: &mut IndicatorTable<T>, handle: usize)
    requires
        old(table).wf(),
    ensures
        final(table).wf(),
        final(table).issued() == old(table).issued(),
        final(table).live() == old(table).live().remove(handle),
        handle == NULL_HANDLE ==> final(table).live() == old(table).live(),
{
    if handle < table.slots.len() {
        table.slots[handle] = None;
    }
    assert(table.live() =~= old(table).live().remove(handle));
    assert(handle == NULL_HANDLE ==> table.live() =~= old(table).live());
}

/// Feeds `value` to the indicator under `handle`.
///
/// The call is an error, and changes nothing, exactly when the handle is not
/// live or there is no output slot. Otherwise the indicator takes the tick
/// and stays under its handle; an answer is written to the slot, and while
/// there is none the slot keeps its value. No call releases a handle or
/// brings one to life.
pub fn eval_indicator<T: Scalar>(
    table: &mut IndicatorTable<T>,
    handle: usize,
    value: T,
    out: Option<&mut T>,
) -> (r: EvalResult)
    requires
        old(table).wf(),
    ensures
        final(table).wf(),
        final(table).issued() == old(table).issued(),
        final(table).live().dom() == old(table).live().dom(),
        r == EvalResult::EvalErr <==> !old(table).live().contains_key(handle) || out is None,
        handle == NULL_HANDLE ==> r == EvalResult::EvalErr,
        r == EvalResult::EvalErr ==> final(table).live() == old(table).live(),
        out is Some && r != EvalResult::EvalOk ==> *final(out.unwrap()) == *out.unwrap(),
        r != EvalResult::EvalErr ==> {
            let before = old(table).live()[handle];
            let after = final(table).live()[handle];
            &&& final(table).live() == old(table).live().insert(handle, after)
            &&& after.same_kind(&before)
            &&& after.history() == before.history().push(value)
            &&& forall|h: Seq<T>| #[trigger] after.answer(h) == before.answer(h)
            &&& match before.answer(after.history()) {
                Some(v) => r == EvalResult::EvalOk && *final(out.unwrap()) == v,
                None => r == EvalResult::EvalNone,
            }
        },
{
    if handle >= table.slots.len() {
        return EvalResult::EvalErr;
    }
    let slot = match out {
        Some(slot) => slot,
        None => {
            return EvalResult::EvalErr;
        },
    };
    let r = match &mut table.slots[handle] {
        Some(indicator) => match indicator.eval(value) {
            Some(out_val) => {
                *slot = out_val;
                EvalResult::EvalOk
            },
            None => EvalResult::EvalNone,
        },
        None => EvalResult::EvalErr,
    };
    proof {
        if r != EvalResult::EvalErr {
            assert(table.live() =~= old(table).live().insert(handle, table.live()[handle]));
        } else {
            assert(table.live() =~= old(table).live());
        }
        assert(table.live().dom() =~= old(table).live().dom());
    }
    r
}

} // verus!
