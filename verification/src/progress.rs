//! Whether an operation has completed.
use vstd::prelude::*;

verus! {

/// What polling an operation yields.
#[derive(Debug, PartialEq, Eq)]
pub enum Progress<T> {
    /// The operation has completed with this value.
    Ready(T),
    /// The operation has not completed; the caller is woken when it may.
    Pending,
}

} // verus!
