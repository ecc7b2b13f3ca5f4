//! The ways an operation of the club can fail.

use vstd::prelude::*;

verus! {

/// Why an operation was refused. A refused operation changes nothing.
#[derive(Clone, Copy, Debug, PartialEq, Eq, Structural)]
pub enum ErrorClub {
    /// The caller may not perform the operation.
    PermissionDenied,
    /// No member has the given identifier.
    NotFound,
    /// A member with the given identifier is already registered.
    AlreadyExists,
    /// The code names no category.
    InvalidCategory,
    /// The code names no activity.
    InvalidActivity,
    /// The member has no pending payment of the given amount.
    NoMatchingPendingPayment,
    /// No member was ever registered, so there is nothing to bill.
    NoBillingYet,
    /// Fewer than thirty days have passed since the last billing.
    BillingNotDue,
    /// The account is already part of the staff.
    AlreadyStaff,
    /// The account is not part of the staff.
    NotStaff,
    /// The discount is larger than the price it would be taken off.
    ArithmeticUnderflow,
}

} // verus!
