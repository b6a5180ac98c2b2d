//! Error kinds surfaced by the admin-gated operations.

use vstd::prelude::*;

verus! {

/// Every failure of a public operation is one of these enumerable kinds,
/// returned as an explicit `Err` value rather than raised as a fault.
#[derive(Clone, Copy, Debug, PartialEq, Eq, Structural)]
pub enum QuickexError {
    /// `initialize` was called while an administrator record already exists.
    AlreadyInitialized,
    /// The caller of a privileged write does not match the stored administrator.
    Unauthorized,
    /// A privileged write was attempted before `initialize` ever succeeded.
    NotInitialized,
}

} // verus!
