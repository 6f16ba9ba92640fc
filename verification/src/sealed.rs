//! Keeps the set of address families closed.

use vstd::prelude::*;

verus! {

/// Implemented by the address families of this crate and by no other type, so
/// that nothing outside the crate can add a family.
pub trait Sealed {

}

} // verus!
