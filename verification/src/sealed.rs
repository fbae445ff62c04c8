//! What keeps a trait of this crate from being implemented outside it.

use vstd::prelude::*;

verus! {

/// The marker types of this crate. This module is private, so no other crate can name the trait or
/// add to the types that have it.
pub trait Sealed {

}

} // verus!
