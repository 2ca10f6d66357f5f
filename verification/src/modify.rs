//! A field of a partial update: replaced by a value, kept as it is, or
//! reset to the column's default.

use vstd::prelude::*;

verus! {

#[derive(Debug, Clone, Copy, PartialEq, Eq, Structural, Hash)]
pub enum Modify<V> {
    Assign(V),
    Keep,
    Reset,
}

} // verus!
