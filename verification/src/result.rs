use vstd::prelude::*;

verus! {

/// Outcome of one evaluation through a handle.
#[derive(Clone, Copy, Debug, PartialEq, Eq, Structural)]
pub enum EvalResult {
    /// An output value was produced and written.
    EvalOk,
    /// The call succeeded but the indicator is still warming up.
    EvalNone,
    /// The handle or the output slot was not usable.
    EvalErr,
}

} // verus!
