//! The fixed catalogue of lifecycle states a trade moves through, and the
//! actions that move it.
//!
//! Each state is a zero-sized type implementing [`TradeState`], so that a
//! trade record tagged with its state only offers the transitions that are
//! legal from that state. States from which a trade may still be cancelled
//! additionally implement [`CancellableState`]; `Draft`, `Executed` and
//! `Cancelled` do not, so cancelling from those states does not compile.

use vstd::prelude::*;

verus! {

/// Marker trait for the type-state pattern: a lifecycle state a trade record
/// can be tagged with. Each state has a stable display name used in audit
/// records, and a small numeric tag for wire encodings.
pub trait TradeState: Sized {
    /// The state's display name, as a mathematical sequence of characters.
    spec fn state_name() -> Seq<char>;

    /// The state's numeric tag.
    spec fn state_id() -> u8;

    /// The state's display name.
    fn name() -> (r: &'static str)
        ensures
            r@ == Self::state_name(),
    ;

    /// The state's numeric tag.
    fn id() -> (r: u8)
        ensures
            r == Self::state_id(),
    ;
}

/// Marker trait: a trade tagged with a state implementing this trait can
/// still be cancelled.
pub trait CancellableState: TradeState {
}

/// The trade has been created but not submitted.
#[derive(Debug)]
pub struct Draft;

impl TradeState for Draft {
    open spec fn state_name() -> Seq<char> {
        "Draft"@
    }

    open spec fn state_id() -> u8 {
        0
    }

    fn name() -> &'static str {
        "Draft"
    }

    fn id() -> u8 {
        0
    }
}

/// The trade has been submitted and is awaiting approval.
#[derive(Debug)]
pub struct PendingApproval;

impl TradeState for PendingApproval {
    open spec fn state_name() -> Seq<char> {
        "PendingApproval"@
    }

    open spec fn state_id() -> u8 {
        1
    }

    fn name() -> &'static str {
        "PendingApproval"
    }

    fn id() -> u8 {
        1
    }
}

impl CancellableState for PendingApproval {
}

/// The trade details were updated by the approver, requiring reapproval from
/// the original requester.
#[derive(Debug)]
pub struct NeedsReapproval;

impl TradeState for NeedsReapproval {
    open spec fn state_name() -> Seq<char> {
        "NeedsReapproval"@
    }

    open spec fn state_id() -> u8 {
        2
    }

    fn name() -> &'static str {
        "NeedsReapproval"
    }

    fn id() -> u8 {
        2
    }
}

impl CancellableState for NeedsReapproval {
}

/// The trade has been approved and is ready to send to the counterparty.
#[derive(Debug)]
pub struct Approved;

impl TradeState for Approved {
    open spec fn state_name() -> Seq<char> {
        "Approved"@
    }

    open spec fn state_id() -> u8 {
        3
    }

    fn name() -> &'static str {
        "Approved"
    }

    fn id() -> u8 {
        3
    }
}

impl CancellableState for Approved {
}

/// The trade has been sent to the counterparty for execution.
#[derive(Debug)]
pub struct SentToCounterparty;

impl TradeState for SentToCounterparty {
    open spec fn state_name() -> Seq<char> {
        "SentToCounterparty"@
    }

    open spec fn state_id() -> u8 {
        4
    }

    fn name() -> &'static str {
        "SentToCounterparty"
    }

    fn id() -> u8 {
        4
    }
}

impl CancellableState for SentToCounterparty {
}

/// The trade has been executed and booked.
#[derive(Debug)]
pub struct Executed;

impl TradeState for Executed {
    open spec fn state_name() -> Seq<char> {
        "Executed"@
    }

    open spec fn state_id() -> u8 {
        5
    }

    fn name() -> &'static str {
        "Executed"
    }

    fn id() -> u8 {
        5
    }
}

/// The trade has been cancelled.
#[derive(Debug)]
pub struct Cancelled;

impl TradeState for Cancelled {
    open spec fn state_name() -> Seq<char> {
        "Cancelled"@
    }

    open spec fn state_id() -> u8 {
        6
    }

    fn name() -> &'static str {
        "Cancelled"
    }

    fn id() -> u8 {
        6
    }
}

/// The action a transition performs, recorded in the audit history.
#[derive(Debug, Clone, Copy, PartialEq, Eq, Structural)]
pub enum TradeAction {
    Cancel,
    Submit,
    Accept,
    Update,
    Approve,
    SendToExecute,
    Book,
}

impl TradeAction {
    /// The action's display name, as a mathematical sequence of characters.
    pub open spec fn spec_name(self) -> Seq<char> {
        match self {
            TradeAction::Cancel => "cancel"@,
            TradeAction::Submit => "submit"@,
            TradeAction::Accept => "accept"@,
            TradeAction::Update => "update"@,
            TradeAction::Approve => "approve"@,
            TradeAction::SendToExecute => "send to execute"@,
            TradeAction::Book => "book"@,
        }
    }

    /// The action's display name.
    pub fn name(&self) -> (r: &'static str)
        ensures
            r@ == self.spec_name(),
    {
        match self {
            TradeAction::Cancel => "cancel",
            TradeAction::Submit => "submit",
            TradeAction::Accept => "accept",
            TradeAction::Update => "update",
            TradeAction::Approve => "approve",
            TradeAction::SendToExecute => "send to execute",
            TradeAction::Book => "book",
        }
    }
}

} // verus!
