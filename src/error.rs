use vstd::prelude::*;

verus! {

/// Every way an operation of this library can fail.
#[derive(Clone, Copy, Debug, PartialEq, Eq, Structural)]
pub enum RecurringPaymentsError {
    ProgramPaused,
    InvalidAmount,
    InvalidFrequency,
    MaxPoliciesReached,
    Unauthorized,
    InvalidPolicyStatusTransition,
    PolicyNotFound,
    InsufficientDelegatedAmount,
    PaymentNotDue,
    InsufficientBalance,
    NoDelegateSet,
    PolicyPaused,
    InvalidInterval,
    InvalidFeeBps,
    InvalidPaymentDueDate,
    ArithmeticOverflow,
}

} // verus!
