//! What the oracle reports of each operation that succeeded.

use vstd::prelude::*;
use crate::principal::Principal;

verus! {

/// A request was created.
#[derive(Clone, Debug, PartialEq, Eq)]
pub struct RequestCreated {
    pub request_id: u64,
    pub creator: Principal,
    pub question: String,
    pub reward_amount: u64,
    pub bond_amount: u64,
    pub expiry_timestamp: i64,
}

/// What a `RequestCreated` holds, with the question as its sequence of characters.
pub struct RequestCreatedView {
    pub request_id: u64,
    pub creator: Principal,
    pub question: Seq<char>,
    pub reward_amount: u64,
    pub bond_amount: u64,
    pub expiry_timestamp: i64,
}

impl View for RequestCreated {
    type V = RequestCreatedView;

    open spec fn view(&self) -> RequestCreatedView {
        RequestCreatedView {
            request_id: self.request_id,
            creator: self.creator,
            question: self.question@,
            reward_amount: self.reward_amount,
            bond_amount: self.bond_amount,
            expiry_timestamp: self.expiry_timestamp,
        }
    }
}

/// An answer was proposed.
#[derive(Clone, Debug, PartialEq, Eq)]
pub struct AnswerProposed {
    pub request_id: u64,
    pub proposer: Principal,
    pub answer: String,
    pub proposal_time: i64,
}

/// What an `AnswerProposed` holds, with the answer as its sequence of characters.
pub struct AnswerProposedView {
    pub request_id: u64,
    pub proposer: Principal,
    pub answer: Seq<char>,
    pub proposal_time: i64,
}

impl View for AnswerProposed {
    type V = AnswerProposedView;

    open spec fn view(&self) -> AnswerProposedView {
        AnswerProposedView {
            request_id: self.request_id,
            proposer: self.proposer,
            answer: self.answer@,
            proposal_time: self.proposal_time,
        }
    }
}

/// An answer was disputed.
#[derive(Clone, Copy, Debug, PartialEq, Eq)]
pub struct AnswerDisputed {
    pub request_id: u64,
    pub disputer: Principal,
    pub dispute_time: i64,
}

/// A request was settled without a dispute.
#[derive(Clone, Debug, PartialEq, Eq)]
pub struct RequestResolved {
    pub request_id: u64,
    pub answer: String,
    pub winner: Principal,
    pub payout: u64,
}

/// What a `RequestResolved` holds, with the answer as its sequence of characters.
pub struct RequestResolvedView {
    pub request_id: u64,
    pub answer: Seq<char>,
    pub winner: Principal,
    pub payout: u64,
}

impl View for RequestResolved {
    type V = RequestResolvedView;

    open spec fn view(&self) -> RequestResolvedView {
        RequestResolvedView {
            request_id: self.request_id,
            answer: self.answer@,
            winner: self.winner,
            payout: self.payout,
        }
    }
}

/// A dispute was settled.
#[derive(Clone, Copy, Debug, PartialEq, Eq)]
pub struct DisputeResolved {
    pub request_id: u64,
    pub winner: Principal,
    pub loser: Principal,
    pub proposer_wins: bool,
}

} // verus!
