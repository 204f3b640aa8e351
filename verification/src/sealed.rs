//! Keeps the set of policies closed: only the types of this crate can be
//! policies, so hooks can be added without breaking anyone.
use vstd::prelude::*;

verus! {

/// Implemented by every policy of this crate, and by nothing else.
pub trait Sealed {

}

} // verus!
