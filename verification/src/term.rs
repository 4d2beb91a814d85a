use vstd::prelude::*;

verus! {

/// An election term. Terms are numbered from zero upwards.
pub type Term = usize;

} // verus!
