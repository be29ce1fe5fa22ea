//! Keeps the set of edition modes closed.

use core::convert::Infallible;
use vstd::prelude::*;

verus! {

/// A trait that only this crate can implement.
pub trait Sealed {

}

impl Sealed for () {

}

impl Sealed for Infallible {

}

} // verus!
