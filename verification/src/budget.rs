//! The retry budget.
//!
//! The budget is `tower`'s: a balance that deposits raise and withdrawals
//! lower, and that forgets what is older than its time to live. Its answers
//! depend on the clock, so nothing is claimed of them here.

use tower::retry::budget::Budget;
use vstd::prelude::*;

verus! {

#[verifier::external_type_specification]
#[verifier::external_body]
pub struct ExBudget(Budget);

/// `Budget::withdraw`: asks the budget for one retry. `true` where it had
/// the balance for one, which is then spent.
#[verifier::external_body]
pub(crate) fn withdraw(budget: &Budget) -> bool {
    budget.withdraw().is_ok()
}

/// `Budget::deposit`: credits the budget with one request that was not
/// retried.
#[verifier::external_body]
pub(crate) fn deposit(budget: &Budget) {
    budget.deposit()
}

} // verus!
