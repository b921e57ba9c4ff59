use vstd::prelude::*;

verus! {

/// The orchestrator's canonical payment-attempt lifecycle state.
#[derive(Debug, Clone, Copy, PartialEq, Eq, Structural)]
pub enum AttemptStatus {
    Started,
    AuthenticationPending,
    AuthenticationFailed,
    Authorized,
    Charged,
    Pending,
    Failure,
}

/// The orchestrator's canonical refund lifecycle state.
#[derive(Debug, Clone, Copy, PartialEq, Eq, Structural)]
pub enum RefundStatus {
    Success,
    Failure,
    Pending,
    ManualReview,
}

/// ISO 4217 currency codes accepted by the orchestrator.
#[derive(Debug, Clone, Copy, PartialEq, Eq, Structural)]
pub enum Currency {
    AUD,
    CAD,
    CNY,
    EUR,
    GBP,
    HKD,
    JPY,
    NZD,
    SGD,
    USD,
}

} // verus!
