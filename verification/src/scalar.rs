use vstd::prelude::*;

verus! {

/// The number type an indicator computes over.
///
/// Each operation is a total function of its arguments; the spec function
/// beside it names its result, and the indicators' contracts are stated over
/// those names. No algebraic law is assumed of them unless a lemma asks for it.
///
/// A verified implementation overrides every spec function with what its
/// operation computes. The default bodies are there for number types defined
/// in unverified code, where spec functions do not exist: of such a type
/// nothing is proved but that the indicators combine its operations as the
/// model says.
pub trait Scalar: Sized + Copy {
    /// The scalar that stands for the count `n`.
    open spec fn count_spec(n: nat) -> Self {
        arbitrary()
    }

    /// The sum `self + rhs`.
    open spec fn plus_spec(self, rhs: Self) -> Self {
        arbitrary()
    }

    /// The difference `self - rhs`.
    open spec fn minus_spec(self, rhs: Self) -> Self {
        arbitrary()
    }

    /// The product `self * rhs`.
    open spec fn times_spec(self, rhs: Self) -> Self {
        arbitrary()
    }

    /// The quotient `self / rhs`, defined for every divisor.
    open spec fn over_spec(self, rhs: Self) -> Self {
        arbitrary()
    }

    /// Numeric equality (which need not be reflexive).
    open spec fn same_spec(self, rhs: Self) -> bool {
        arbitrary()
    }

    /// Strict "less than" (which need not be total).
    open spec fn below_spec(self, rhs: Self) -> bool {
        arbitrary()
    }

    /// Converts a count, such as a period, to a scalar.
    fn from_count(n: u128) -> (r: Self)
        ensures
            r == Self::count_spec(n as nat),
    ;

    /// Adds.
    fn plus(self, rhs: Self) -> (r: Self)
        ensures
            r == self.plus_spec(rhs),
    ;

    /// Subtracts.
    fn minus(self, rhs: Self) -> (r: Self)
        ensures
            r == self.minus_spec(rhs),
    ;

    /// Multiplies.
    fn times(self, rhs: Self) -> (r: Self)
        ensures
            r == self.times_spec(rhs),
    ;

    /// Divides; never fails.
    fn over(self, rhs: Self) -> (r: Self)
        ensures
            r == self.over_spec(rhs),
    ;

    /// Tests numeric equality.
    fn same(self, rhs: Self) -> (r: bool)
        ensures
            r == self.same_spec(rhs),
    ;

    /// Tests whether `self` is strictly less than `rhs`.
    fn below(self, rhs: Self) -> (r: bool)
        ensures
            r == self.below_spec(rhs),
    ;
}

/// Unsigned integers modulo 2^64: an exact ring, with truncating division
/// that yields zero for a zero divisor.
impl Scalar for u64 {
    open spec fn count_spec(n: nat) -> u64 {
        (n % 0x1_0000_0000_0000_0000) as u64
    }

    open spec fn plus_spec(self, rhs: u64) -> u64 {
        ((self + rhs) % 0x1_0000_0000_0000_0000) as u64
    }

    open spec fn minus_spec(self, rhs: u64) -> u64 {
        ((self - rhs) % 0x1_0000_0000_0000_0000) as u64
    }

    open spec fn times_spec(self, rhs: u64) -> u64 {
        ((self * rhs) % 0x1_0000_0000_0000_0000) as u64
    }

    open spec fn over_spec(self, rhs: u64) -> u64 {
        if rhs == 0 {
            0
        } else {
            self / rhs
        }
    }

    open spec fn same_spec(self, rhs: u64) -> bool {
        self == rhs
    }

    open spec fn below_spec(self, rhs: u64) -> bool {
        self < rhs
    }

    fn from_count(n: u128) -> (r: u64) {
        let m: u128 = n % 0x1_0000_0000_0000_0000u128;
        m as u64
    }

    fn plus(self, rhs: u64) -> (r: u64) {
        self.wrapping_add(rhs)
    }

    fn minus(self, rhs: u64) -> (r: u64) {
        self.wrapping_sub(rhs)
    }

    fn times(self, rhs: u64) -> (r: u64) {
        self.wrapping_mul(rhs)
    }

    fn over(self, rhs: u64) -> (r: u64) {
        if rhs == 0 {
            0
        } else {
            self / rhs
        }
    }

    fn same(self, rhs: u64) -> (r: bool) {
        self == rhs
    }

    fn below(self, rhs: u64) -> (r: bool) {
        self < rhs
    }
}

} // verus!
