//! The reasons for which the store turns a request down.

use vstd::prelude::*;

verus! {

/// Why the store turned a request down.
#[derive(Debug, Clone, Copy, PartialEq, Eq, Structural)]
pub enum StoreError {
    /// There is no task at all to act on.
    EmptyStore,
    /// The position names no task of the store.
    InvalidIndex,
    /// The priority lies outside 1 to 5.
    InvalidPriority,
    /// The description is empty once the white space around it is gone.
    EmptyDescription,
}

} // verus!
