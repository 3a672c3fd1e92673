//! The answer of an operation that may have to wait.
use vstd::prelude::*;

verus! {

/// Either a finished value, or the word that the caller has to be woken again.
#[derive(PartialEq, Eq, Debug)]
pub enum Poll<T> {
    Ready(T),
    Pending,
}

} // verus!
