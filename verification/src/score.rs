//! Chips and mult, the two counters a play is scored in.

use core::ops::{Add, Mul};
use vstd::prelude::*;
use vstd::std_specs::ops::{AddSpecImpl, MulSpecImpl};

verus! {

/// A chip count. Chips add; they do not multiply, except through
/// [`ChipsAllowMul`].
#[derive(Debug, Copy, Clone, PartialEq, Eq, PartialOrd, Ord, Structural)]
pub struct Chips(pub u64);

/// A multiplier. Mult both adds and multiplies.
#[derive(Debug, Copy, Clone, PartialEq, Eq, PartialOrd, Ord, Structural)]
pub struct Mult(pub u64);

impl Add for Chips {
    type Output = Chips;

    fn add(self, rhs: Chips) -> (sum: Chips) {
        Chips(self.0 + rhs.0)
    }
}

impl AddSpecImpl for Chips {
    open spec fn obeys_add_spec() -> bool {
        true
    }

    open spec fn add_req(self, rhs: Chips) -> bool {
        self.0 + rhs.0 <= u64::MAX
    }

    open spec fn add_spec(self, rhs: Chips) -> Chips {
        Chips((self.0 + rhs.0) as u64)
    }
}

impl Add<u64> for Chips {
    type Output = Chips;

    fn add(self, rhs: u64) -> (sum: Chips) {
        Chips(self.0 + rhs)
    }
}

impl AddSpecImpl<u64> for Chips {
    open spec fn obeys_add_spec() -> bool {
        true
    }

    open spec fn add_req(self, rhs: u64) -> bool {
        self.0 + rhs <= u64::MAX
    }

    open spec fn add_spec(self, rhs: u64) -> Chips {
        Chips((self.0 + rhs) as u64)
    }
}

impl Add for Mult {
    type Output = Mult;

    fn add(self, rhs: Mult) -> (sum: Mult) {
        Mult(self.0 + rhs.0)
    }
}

impl AddSpecImpl for Mult {
    open spec fn obeys_add_spec() -> bool {
        true
    }

    open spec fn add_req(self, rhs: Mult) -> bool {
        self.0 + rhs.0 <= u64::MAX
    }

    open spec fn add_spec(self, rhs: Mult) -> Mult {
        Mult((self.0 + rhs.0) as u64)
    }
}

impl Add<u64> for Mult {
    type Output = Mult;

    fn add(self, rhs: u64) -> (sum: Mult) {
        Mult(self.0 + rhs)
    }
}

impl AddSpecImpl<u64> for Mult {
    open spec fn obeys_add_spec() -> bool {
        true
    }

    open spec fn add_req(self, rhs: u64) -> bool {
        self.0 + rhs <= u64::MAX
    }

    open spec fn add_spec(self, rhs: u64) -> Mult {
        Mult((self.0 + rhs) as u64)
    }
}

impl Mul for Mult {
    type Output = Mult;

    fn mul(self, rhs: Mult) -> (product: Mult) {
        Mult(self.0 * rhs.0)
    }
}

impl MulSpecImpl for Mult {
    open spec fn obeys_mul_spec() -> bool {
        true
    }

    open spec fn mul_req(self, rhs: Mult) -> bool {
        self.0 * rhs.0 <= u64::MAX
    }

    open spec fn mul_spec(self, rhs: Mult) -> Mult {
        Mult((self.0 * rhs.0) as u64)
    }
}

impl Mul<u64> for Mult {
    type Output = Mult;

    fn mul(self, rhs: u64) -> (product: Mult) {
        Mult(self.0 * rhs)
    }
}

impl MulSpecImpl<u64> for Mult {
    open spec fn obeys_mul_spec() -> bool {
        true
    }

    open spec fn mul_req(self, rhs: u64) -> bool {
        self.0 * rhs <= u64::MAX
    }

    open spec fn mul_spec(self, rhs: u64) -> Mult {
        Mult((self.0 * rhs) as u64)
    }
}

/// Chips that may be multiplied.
///
/// Scaling a per-level chip bonus by a level count is the one place where
/// chips are multiplied. The step has to be asked for by wrapping the chips
/// with [`ChipsAllowMul::new`] and unwrapping the product with
/// [`ChipsAllowMul::finish`]; `Chips` itself has no multiplication.
#[derive(Debug, Copy, Clone, PartialEq, Eq, PartialOrd, Ord, Structural)]
pub struct ChipsAllowMul(u64);

impl ChipsAllowMul {
    /// The wrapped chip count.
    pub closed spec fn value(self) -> u64 {
        self.0
    }

    pub fn new(chips: Chips) -> (wrapped: Self)
        ensures
            wrapped.value() == chips.0,
    {
        Self(chips.0)
    }

    pub fn finish(self) -> (chips: Chips)
        ensures
            chips.0 == self.value(),
    {
        Chips(self.0)
    }
}

impl Mul for ChipsAllowMul {
    type Output = ChipsAllowMul;

    fn mul(self, rhs: ChipsAllowMul) -> (product: ChipsAllowMul)
        ensures
            product.value() == self.value() * rhs.value(),
    {
        ChipsAllowMul(self.0 * rhs.0)
    }
}

impl MulSpecImpl for ChipsAllowMul {
    open spec fn obeys_mul_spec() -> bool {
        true
    }

    open spec fn mul_req(self, rhs: ChipsAllowMul) -> bool {
        self.value() * rhs.value() <= u64::MAX
    }

    closed spec fn mul_spec(self, rhs: ChipsAllowMul) -> ChipsAllowMul {
        ChipsAllowMul((self.0 * rhs.0) as u64)
    }
}

impl Mul<u64> for ChipsAllowMul {
    type Output = ChipsAllowMul;

    fn mul(self, rhs: u64) -> (product: ChipsAllowMul)
        ensures
            product.value() == self.value() * rhs,
    {
        ChipsAllowMul(self.0 * rhs)
    }
}

impl MulSpecImpl<u64> for ChipsAllowMul {
    open spec fn obeys_mul_spec() -> bool {
        true
    }

    open spec fn mul_req(self, rhs: u64) -> bool {
        self.value() * rhs <= u64::MAX
    }

    closed spec fn mul_spec(self, rhs: u64) -> ChipsAllowMul {
        ChipsAllowMul((self.0 * rhs) as u64)
    }
}

/// A bare pair of running chips and mult.
#[derive(Debug)]
pub struct ScoreBuilder {
    pub chips: Chips,
    pub mult: Mult,
}

} // verus!
