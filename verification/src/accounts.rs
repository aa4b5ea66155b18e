//! What each operation works on: the records and balances that it reads and changes.

use vstd::prelude::*;
use crate::principal::{Principal, Wallet};
use crate::registry::OracleState;
use crate::request::{Request, RequestView};

verus! {

/// What `initialize` works on.
#[derive(Clone, Debug, PartialEq, Eq)]
pub struct Initialize {
    /// The registry to set up.
    pub oracle_state: OracleState,
    pub bump: u8,
}

/// What `create_request` works on.
#[derive(Clone, Debug, PartialEq, Eq)]
pub struct CreateRequest {
    /// The record to fill in. What it held before is overwritten.
    pub request: Request,
    pub oracle_state: OracleState,
    /// The balance of the pool that holds the reward.
    pub request_escrow: u64,
    /// The party that asks, and pays the reward.
    pub creator: Wallet,
    pub bump: u8,
}

/// What a `CreateRequest` holds, with the request as its view.
pub struct CreateRequestView {
    pub request: RequestView,
    pub oracle_state: OracleState,
    pub request_escrow: u64,
    pub creator: Wallet,
    pub bump: u8,
}

impl View for CreateRequest {
    type V = CreateRequestView;

    open spec fn view(&self) -> CreateRequestView {
        CreateRequestView {
            request: self.request@,
            oracle_state: self.oracle_state,
            request_escrow: self.request_escrow,
            creator: self.creator,
            bump: self.bump,
        }
    }
}

/// What `propose_answer` works on.
#[derive(Clone, Debug, PartialEq, Eq)]
pub struct ProposeAnswer {
    pub request: Request,
    /// The balance of the pool that holds the proposer's bond.
    pub proposal_escrow: u64,
    /// The party that answers, and posts the bond.
    pub proposer: Wallet,
}

/// What a `ProposeAnswer` holds, with the request as its view.
pub struct ProposeAnswerView {
    pub request: RequestView,
    pub proposal_escrow: u64,
    pub proposer: Wallet,
}

impl View for ProposeAnswer {
    type V = ProposeAnswerView;

    open spec fn view(&self) -> ProposeAnswerView {
        ProposeAnswerView {
            request: self.request@,
            proposal_escrow: self.proposal_escrow,
            proposer: self.proposer,
        }
    }
}

/// What `dispute_answer` works on.
#[derive(Clone, Debug, PartialEq, Eq)]
pub struct DisputeAnswer {
    pub request: Request,
    /// The balance of the pool that holds the disputer's bond.
    pub dispute_escrow: u64,
    /// The party that contests the answer, and posts the bond.
    pub disputer: Wallet,
}

/// What a `DisputeAnswer` holds, with the request as its view.
pub struct DisputeAnswerView {
    pub request: RequestView,
    pub dispute_escrow: u64,
    pub disputer: Wallet,
}

impl View for DisputeAnswer {
    type V = DisputeAnswerView;

    open spec fn view(&self) -> DisputeAnswerView {
        DisputeAnswerView {
            request: self.request@,
            dispute_escrow: self.dispute_escrow,
            disputer: self.disputer,
        }
    }
}

/// What `resolve_undisputed` works on.
#[derive(Clone, Debug, PartialEq, Eq)]
pub struct ResolveUndisputed {
    pub request: Request,
    /// The balance of the pool that holds the reward.
    pub request_escrow: u64,
    /// The balance of the pool that holds the proposer's bond.
    pub proposal_escrow: u64,
    /// The balance to pay out to. It has to be the proposer's.
    pub proposer_account: Wallet,
}

/// What a `ResolveUndisputed` holds, with the request as its view.
pub struct ResolveUndisputedView {
    pub request: RequestView,
    pub request_escrow: u64,
    pub proposal_escrow: u64,
    pub proposer_account: Wallet,
}

impl View for ResolveUndisputed {
    type V = ResolveUndisputedView;

    open spec fn view(&self) -> ResolveUndisputedView {
        ResolveUndisputedView {
            request: self.request@,
            request_escrow: self.request_escrow,
            proposal_escrow: self.proposal_escrow,
            proposer_account: self.proposer_account,
        }
    }
}

/// What `resolve_disputed_via_vote` works on.
#[derive(Clone, Debug, PartialEq, Eq)]
pub struct ResolveDisputed {
    pub request: Request,
    pub oracle_state: OracleState,
    /// The balance of the pool that holds the reward.
    pub request_escrow: u64,
    /// The balance of the pool that holds the proposer's bond.
    pub proposal_escrow: u64,
    /// The balance of the pool that holds the disputer's bond.
    pub dispute_escrow: u64,
    /// The balance to pay out to. It has to be the winner's.
    pub winner_account: Wallet,
    /// The party that decides. It has to be the administrator.
    pub resolver: Principal,
}

/// What a `ResolveDisputed` holds, with the request as its view.
pub struct ResolveDisputedView {
    pub request: RequestView,
    pub oracle_state: OracleState,
    pub request_escrow: u64,
    pub proposal_escrow: u64,
    pub dispute_escrow: u64,
    pub winner_account: Wallet,
    pub resolver: Principal,
}

impl View for ResolveDisputed {
    type V = ResolveDisputedView;

    open spec fn view(&self) -> ResolveDisputedView {
        ResolveDisputedView {
            request: self.request@,
            oracle_state: self.oracle_state,
            request_escrow: self.request_escrow,
            proposal_escrow: self.proposal_escrow,
            dispute_escrow: self.dispute_escrow,
            winner_account: self.winner_account,
            resolver: self.resolver,
        }
    }
}

/// What `cancel_request` works on.
#[derive(Clone, Debug, PartialEq, Eq)]
pub struct CancelRequest {
    pub request: Request,
    /// The balance of the pool that holds the reward.
    pub request_escrow: u64,
    /// The party that cancels, and is refunded. It has to be the creator.
    pub creator: Wallet,
}

/// What a `CancelRequest` holds, with the request as its view.
pub struct CancelRequestView {
    pub request: RequestView,
    pub request_escrow: u64,
    pub creator: Wallet,
}

impl View for CancelRequest {
    type V = CancelRequestView;

    open spec fn view(&self) -> CancelRequestView {
        CancelRequestView {
            request: self.request@,
            request_escrow: self.request_escrow,
            creator: self.creator,
        }
    }
}

} // verus!
