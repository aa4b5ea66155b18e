//! A request: one question, its terms, and how far it has come.

use vstd::prelude::*;
use crate::answer::{answer_accepted, AnswerType, MAX_ANSWER_LEN};
use crate::principal::Principal;

verus! {

/// The longest question that is accepted, in bytes of UTF-8.
pub const MAX_QUESTION_LEN: usize = 500;

/// The shortest challenge period that is accepted, in seconds: one hour.
pub const MIN_CHALLENGE_PERIOD: i64 = 3600;

/// The longest challenge period that is accepted, in seconds: seven days.
pub const MAX_CHALLENGE_PERIOD: i64 = 604800;

/// How far a request has come.
#[derive(Clone, Copy, Debug, PartialEq, Eq, Structural)]
pub enum RequestStatus {
    Created,
    Proposed,
    Disputed,
    Resolved,
    Cancelled,
}

impl RequestStatus {
    /// Whether a request in this status can pass directly into `next`. A proposed answer
    /// is settled at once or disputed first; only a request without an answer can be
    /// cancelled.
    pub open spec fn can_become(self, next: RequestStatus) -> bool {
        match (self, next) {
            (RequestStatus::Created, RequestStatus::Proposed) => true,
            (RequestStatus::Created, RequestStatus::Cancelled) => true,
            (RequestStatus::Proposed, RequestStatus::Disputed) => true,
            (RequestStatus::Proposed, RequestStatus::Resolved) => true,
            (RequestStatus::Disputed, RequestStatus::Resolved) => true,
            _ => false,
        }
    }

    /// Whether nothing can follow this status.
    pub open spec fn is_terminal(self) -> bool {
        self == RequestStatus::Resolved || self == RequestStatus::Cancelled
    }

    /// How many steps of the longest path lie behind this status.
    pub open spec fn stage(self) -> nat {
        match self {
            RequestStatus::Created => 0,
            RequestStatus::Proposed => 1,
            RequestStatus::Disputed => 2,
            RequestStatus::Resolved => 3,
            RequestStatus::Cancelled => 3,
        }
    }
}

/// One question with its terms and its history.
#[derive(Clone, Debug, PartialEq, Eq)]
pub struct Request {
    pub request_id: u64,
    pub creator: Principal,
    pub question: String,
    pub answer_type: AnswerType,
    pub reward_amount: u64,
    pub bond_amount: u64,
    pub expiry_timestamp: i64,
    pub challenge_period: i64,
    pub data_source: Option<String>,
    pub metadata: Option<String>,
    pub status: RequestStatus,
    pub created_at: i64,
    pub proposer: Option<Principal>,
    pub proposal_time: Option<i64>,
    pub answer: Option<String>,
    pub disputer: Option<Principal>,
    pub dispute_time: Option<i64>,
    pub resolved_at: Option<i64>,
    pub bump: u8,
}

impl Default for Request {
    /// A blank record, as it is before a request is created in it.
    fn default() -> (r: Request)
        ensures
            r@ == (RequestView {
                request_id: 0,
                creator: r.creator,
                question: Seq::empty(),
                answer_type: AnswerType::YesNo,
                reward_amount: 0,
                bond_amount: 0,
                expiry_timestamp: 0,
                challenge_period: 0,
                data_source: None,
                metadata: None,
                status: RequestStatus::Created,
                created_at: 0,
                proposer: None,
                proposal_time: None,
                answer: None,
                disputer: None,
                dispute_time: None,
                resolved_at: None,
                bump: 0,
            }),
            r.creator.is_zero(),
    {
        Request {
            request_id: 0,
            creator: Principal::default(),
            question: String::new(),
            answer_type: AnswerType::YesNo,
            reward_amount: 0,
            bond_amount: 0,
            expiry_timestamp: 0,
            challenge_period: 0,
            data_source: None,
            metadata: None,
            status: RequestStatus::Created,
            created_at: 0,
            proposer: None,
            proposal_time: None,
            answer: None,
            disputer: None,
            dispute_time: None,
            resolved_at: None,
            bump: 0,
        }
    }
}

/// What a `Request` holds, with each text as its sequence of characters.
pub struct RequestView {
    pub request_id: u64,
    pub creator: Principal,
    pub question: Seq<char>,
    pub answer_type: AnswerType,
    pub reward_amount: u64,
    pub bond_amount: u64,
    pub expiry_timestamp: i64,
    pub challenge_period: i64,
    pub data_source: Option<Seq<char>>,
    pub metadata: Option<Seq<char>>,
    pub status: RequestStatus,
    pub created_at: i64,
    pub proposer: Option<Principal>,
    pub proposal_time: Option<i64>,
    pub answer: Option<Seq<char>>,
    pub disputer: Option<Principal>,
    pub dispute_time: Option<i64>,
    pub resolved_at: Option<i64>,
    pub bump: u8,
}

/// The characters of an optional text.
pub open spec fn text_of(t: Option<String>) -> Option<Seq<char>> {
    match t {
        Some(s) => Some(s@),
        None => None,
    }
}

/// The number of bytes that a text takes in UTF-8.
pub open spec fn utf8_len(text: Seq<char>) -> nat {
    vstd::utf8::encode_utf8(text).len()
}

impl RequestView {
    /// The terms are such as a creation accepts: a question of at most 500 bytes, a reward
    /// and a bond above zero, an expiry after the creation, and a challenge period between
    /// one hour and seven days.
    pub open spec fn terms_valid(self) -> bool {
        &&& utf8_len(self.question) <= MAX_QUESTION_LEN
        &&& self.reward_amount > 0
        &&& self.bond_amount > 0
        &&& self.expiry_timestamp > self.created_at
        &&& MIN_CHALLENGE_PERIOD <= self.challenge_period <= MAX_CHALLENGE_PERIOD
    }

    /// A proposal is on record: who made it, when, and an answer of the form and length
    /// that the question asks for, given no earlier than the expiry.
    pub open spec fn has_proposal(self) -> bool {
        &&& self.proposer is Some
        &&& self.proposal_time is Some
        &&& self.answer is Some
        &&& self.proposal_time->0 >= self.expiry_timestamp
        &&& utf8_len(self.answer->0) <= MAX_ANSWER_LEN
        &&& answer_accepted(self.answer_type, self.answer->0)
    }

    /// No proposal is on record.
    pub open spec fn has_no_proposal(self) -> bool {
        self.proposer is None && self.proposal_time is None && self.answer is None
    }

    /// A dispute is on record: who raised it, and when, which was within the challenge
    /// period of the proposal.
    pub open spec fn has_dispute(self) -> bool {
        &&& self.disputer is Some
        &&& self.dispute_time is Some
        &&& self.proposal_time is Some
        &&& window_open(self.dispute_time->0, self.proposal_time->0, self.challenge_period)
    }

    /// No dispute is on record.
    pub open spec fn has_no_dispute(self) -> bool {
        self.disputer is None && self.dispute_time is None
    }

    /// The record is one that the operations can have left: its terms are valid and its
    /// history is the one that its status tells of. A request that was settled without a
    /// dispute was settled after the challenge period.
    pub open spec fn well_formed(self) -> bool {
        &&& self.terms_valid()
        &&& match self.status {
            RequestStatus::Created | RequestStatus::Cancelled => {
                &&& self.has_no_proposal()
                &&& self.has_no_dispute()
                &&& self.resolved_at is None
            },
            RequestStatus::Proposed => {
                &&& self.has_proposal()
                &&& self.has_no_dispute()
                &&& self.resolved_at is None
            },
            RequestStatus::Disputed => {
                &&& self.has_proposal()
                &&& self.has_dispute()
                &&& self.resolved_at is None
            },
            RequestStatus::Resolved => {
                &&& self.has_proposal()
                &&& self.resolved_at is Some
                &&& self.has_dispute() || (self.has_no_dispute() && !window_open(
                    self.resolved_at->0,
                    self.proposal_time->0,
                    self.challenge_period,
                ))
            },
        }
    }

    /// Whether `later` has the terms of this record: the identifier, the creator, the
    /// question and all that was fixed at the creation.
    pub open spec fn same_terms(self, later: RequestView) -> bool {
        &&& later.request_id == self.request_id
        &&& later.creator == self.creator
        &&& later.question == self.question
        &&& later.answer_type == self.answer_type
        &&& later.reward_amount == self.reward_amount
        &&& later.bond_amount == self.bond_amount
        &&& later.expiry_timestamp == self.expiry_timestamp
        &&& later.challenge_period == self.challenge_period
        &&& later.data_source == self.data_source
        &&& later.metadata == self.metadata
        &&& later.created_at == self.created_at
        &&& later.bump == self.bump
    }

    /// Whether `later` keeps what this record has of a history: what is set stays as it is.
    pub open spec fn history_kept(self, later: RequestView) -> bool {
        &&& self.proposer is Some ==> later.proposer == self.proposer
        &&& self.proposal_time is Some ==> later.proposal_time == self.proposal_time
        &&& self.answer is Some ==> later.answer == self.answer
        &&& self.disputer is Some ==> later.disputer == self.disputer
        &&& self.dispute_time is Some ==> later.dispute_time == self.dispute_time
        &&& self.resolved_at is Some ==> later.resolved_at == self.resolved_at
    }
}

impl View for Request {
    type V = RequestView;

    open spec fn view(&self) -> RequestView {
        RequestView {
            request_id: self.request_id,
            creator: self.creator,
            question: self.question@,
            answer_type: self.answer_type,
            reward_amount: self.reward_amount,
            bond_amount: self.bond_amount,
            expiry_timestamp: self.expiry_timestamp,
            challenge_period: self.challenge_period,
            data_source: text_of(self.data_source),
            metadata: text_of(self.metadata),
            status: self.status,
            created_at: self.created_at,
            proposer: self.proposer,
            proposal_time: self.proposal_time,
            answer: text_of(self.answer),
            disputer: self.disputer,
            dispute_time: self.dispute_time,
            resolved_at: self.resolved_at,
            bump: self.bump,
        }
    }
}

/// Whether an answer proposed at `proposal_time` can still be disputed at `now`: the
/// challenge period has not run out. Its last moment counts.
pub open spec fn window_open(now: i64, proposal_time: i64, challenge_period: i64) -> bool {
    now <= proposal_time + challenge_period
}

/// Whether an answer proposed at `proposal_time` can still be disputed at `now`.
pub fn challenge_window_open(now: i64, proposal_time: i64, challenge_period: i64) -> (r: bool)
    ensures
        r == window_open(now, proposal_time, challenge_period),
{
    now as i128 <= proposal_time as i128 + challenge_period as i128
}

} // verus!
