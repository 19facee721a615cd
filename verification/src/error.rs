//! The typed failures a transition can report.
//!
//! Every failure is returned as an explicit value to the immediate caller;
//! the engine never recovers or retries internally.

use core::marker::PhantomData;
use vstd::prelude::*;

use crate::state::{TradeAction, TradeState};

verus! {

/// The validation rule a proposed set of mutable fields violated.
#[derive(Debug, Clone, Copy, PartialEq, Eq, Structural)]
pub enum DetailIssue {
    /// One of the date-ordering rules failed: the value date and the delivery
    /// date must both be on or after the trade date, and the delivery date on
    /// or after the value date.
    DatesNotOrdered,
    /// The notional currency is not among the eligible underlying currencies.
    CurrencyNotInUnderlying,
}

/// A structural violation in proposed mutable trade fields. Recoverable: the
/// caller may retry with corrected input.
#[derive(Debug, Clone, Copy, PartialEq, Eq, Structural)]
pub struct InvalidDetails {
    /// The first rule violated, in checking order: dates before
    /// currency membership.
    pub issue: DetailIssue,
}

impl InvalidDetails {
    /// A human-readable account of the violated rule.
    pub open spec fn spec_description(self) -> Seq<char> {
        match self.issue {
            DetailIssue::DatesNotOrdered => "Dates must be chronologically ordered"@,
            DetailIssue::CurrencyNotInUnderlying => "Currency not listed in the underlying"@,
        }
    }

    /// A human-readable account of the violated rule.
    pub fn description(&self) -> (r: &'static str)
        ensures
            r@ == self.spec_description(),
    {
        match self.issue {
            DetailIssue::DatesNotOrdered => "Dates must be chronologically ordered",
            DetailIssue::CurrencyNotInUnderlying => "Currency not listed in the underlying",
        }
    }
}

/// The acting requester does not own the trade it tried to transition from
/// state `S`. Terminal for the call: the record is consumed by the attempt and
/// is not returned alongside the error.
#[derive(Debug)]
pub struct UnauthorisedRequester<S: TradeState> {
    requester: String,
    action: TradeAction,
    _state: PhantomData<S>,
}

impl<S: TradeState> UnauthorisedRequester<S> {
    /// Identifier of the requester whose ownership check failed.
    pub closed spec fn spec_requester(&self) -> Seq<char> {
        self.requester@
    }

    /// The action that was attempted.
    pub closed spec fn spec_action(&self) -> TradeAction {
        self.action
    }

    pub(crate) fn new(requester: String, action: TradeAction) -> (r: Self)
        ensures
            r.spec_requester() == requester@,
            r.spec_action() == action,
    {
        UnauthorisedRequester { requester, action, _state: PhantomData }
    }

    /// Identifier of the requester whose ownership check failed.
    pub fn requester(&self) -> (r: &str)
        ensures
            r@ == self.spec_requester(),
    {
        self.requester.as_str()
    }

    /// The action that was attempted.
    pub fn action(&self) -> (r: TradeAction)
        ensures
            r == self.spec_action(),
    {
        self.action
    }

    /// The display name of the state from which the transition was attempted.
    pub fn state_name(&self) -> (r: &'static str)
        ensures
            r@ == S::state_name(),
    {
        S::name()
    }
}

} // verus!
