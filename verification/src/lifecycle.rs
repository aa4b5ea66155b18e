//! The life of one request, from its creation on: the record, its three pools, and what
//! has moved into and out of the pools so far. Every operation acts on this book as the
//! contracts of the operations say.

use vstd::prelude::*;
use crate::accounts::{
    CancelRequestView, CreateRequestView, DisputeAnswerView, ProposeAnswerView,
    ResolveDisputedView, ResolveUndisputedView,
};
use crate::instructions::{
    cancel_rejection, cancelled, dispute_rejection, disputed, propose_rejection, proposed,
    resolve_disputed_rejection, resolve_undisputed_rejection, resolved_disputed,
    resolved_undisputed,
};
use crate::principal::{Principal, Wallet};
use crate::registry::OracleState;
use crate::request::{RequestStatus, RequestView};

verus! {

/// One request with its pools, and the sums that have moved so far.
pub struct Book {
    pub request: RequestView,
    /// The balance of the pool that holds the reward.
    pub request_escrow: u64,
    /// The balance of the pool that holds the proposer's bond.
    pub proposal_escrow: u64,
    /// The balance of the pool that holds the disputer's bond.
    pub dispute_escrow: u64,
    /// All that parties have paid into the pools.
    pub deposited: nat,
    /// All that the pools have paid out to parties.
    pub paid_out: nat,
}

/// One call of an operation on a request that exists, with the balance it was given to
/// draw on or to pay into.
pub enum Step {
    Propose { now: i64, answer: Seq<char>, proposer: Wallet },
    Dispute { now: i64, disputer: Wallet },
    ResolveUndisputed { now: i64, proposer_account: Wallet },
    ResolveDisputed {
        now: i64,
        proposer_wins: bool,
        oracle_state: OracleState,
        winner_account: Wallet,
        resolver: Principal,
    },
    Cancel { creator: Wallet },
}

impl Book {
    /// What the three pools hold together.
    pub open spec fn escrowed(self) -> nat {
        (self.request_escrow + self.proposal_escrow + self.dispute_escrow) as nat
    }

    /// The book of a request that `create_request` has just created into an empty reward
    /// pool: `pre` is what the operation was given, `post` what it left.
    pub open spec fn opened(pre: CreateRequestView, post: CreateRequestView) -> Book {
        Book {
            request: post.request,
            request_escrow: post.request_escrow,
            proposal_escrow: 0,
            dispute_escrow: 0,
            deposited: (pre.creator.lamports - post.creator.lamports) as nat,
            paid_out: 0,
        }
    }

    /// The book after an answer was proposed, or the book as it is if the call is rejected.
    pub open spec fn propose(self, now: i64, answer: Seq<char>, proposer: Wallet) -> Book {
        let pre = ProposeAnswerView {
            request: self.request,
            proposal_escrow: self.proposal_escrow,
            proposer,
        };
        if propose_rejection(pre, now, answer) is Some {
            self
        } else {
            let post = proposed(pre, now, answer);
            Book {
                request: post.request,
                proposal_escrow: post.proposal_escrow,
                deposited: (self.deposited + pre.proposer.lamports - post.proposer.lamports) as nat,
                ..self
            }
        }
    }

    /// The book after the answer was disputed, or the book as it is if the call is rejected.
    pub open spec fn dispute(self, now: i64, disputer: Wallet) -> Book {
        let pre = DisputeAnswerView {
            request: self.request,
            dispute_escrow: self.dispute_escrow,
            disputer,
        };
        if dispute_rejection(pre, now) is Some {
            self
        } else {
            let post = disputed(pre, now);
            Book {
                request: post.request,
                dispute_escrow: post.dispute_escrow,
                deposited: (self.deposited + pre.disputer.lamports - post.disputer.lamports) as nat,
                ..self
            }
        }
    }

    /// The book after the request was settled without a dispute, or the book as it is if
    /// the call is rejected.
    pub open spec fn resolve_undisputed(self, now: i64, proposer_account: Wallet) -> Book {
        let pre = ResolveUndisputedView {
            request: self.request,
            request_escrow: self.request_escrow,
            proposal_escrow: self.proposal_escrow,
            proposer_account,
        };
        if resolve_undisputed_rejection(pre, now) is Some {
            self
        } else {
            let post = resolved_undisputed(pre, now);
            Book {
                request: post.request,
                request_escrow: post.request_escrow,
                proposal_escrow: post.proposal_escrow,
                paid_out: (self.paid_out + post.proposer_account.lamports
                    - pre.proposer_account.lamports) as nat,
                ..self
            }
        }
    }

    /// The book after the dispute was settled, or the book as it is if the call is
    /// rejected.
    pub open spec fn resolve_disputed(
        self,
        now: i64,
        proposer_wins: bool,
        oracle_state: OracleState,
        winner_account: Wallet,
        resolver: Principal,
    ) -> Book {
        let pre = ResolveDisputedView {
            request: self.request,
            oracle_state,
            request_escrow: self.request_escrow,
            proposal_escrow: self.proposal_escrow,
            dispute_escrow: self.dispute_escrow,
            winner_account,
            resolver,
        };
        if resolve_disputed_rejection(pre, proposer_wins) is Some {
            self
        } else {
            let post = resolved_disputed(pre, now);
            Book {
                request: post.request,
                request_escrow: post.request_escrow,
                proposal_escrow: post.proposal_escrow,
                dispute_escrow: post.dispute_escrow,
                paid_out: (self.paid_out + post.winner_account.lamports
                    - pre.winner_account.lamports) as nat,
                ..self
            }
        }
    }

    /// The book after the request was cancelled, or the book as it is if the call is
    /// rejected.
    pub open spec fn cancel(self, creator: Wallet) -> Book {
        let pre = CancelRequestView {
            request: self.request,
            request_escrow: self.request_escrow,
            creator,
        };
        if cancel_rejection(pre) is Some {
            self
        } else {
            let post = cancelled(pre);
            Book {
                request: post.request,
                request_escrow: post.request_escrow,
                paid_out: (self.paid_out + post.creator.lamports - pre.creator.lamports) as nat,
                ..self
            }
        }
    }

    /// The book after one call.
    pub open spec fn after(self, step: Step) -> Book {
        match step {
            Step::Propose { now, answer, proposer } => self.propose(now, answer, proposer),
            Step::Dispute { now, disputer } => self.dispute(now, disputer),
            Step::ResolveUndisputed { now, proposer_account } => self.resolve_undisputed(
                now,
                proposer_account,
            ),
            Step::ResolveDisputed {
                now,
                proposer_wins,
                oracle_state,
                winner_account,
                resolver,
            } => self.resolve_disputed(now, proposer_wins, oracle_state, winner_account, resolver),
            Step::Cancel { creator } => self.cancel(creator),
        }
    }

    /// The book after the given calls, made in order.
    pub open spec fn after_all(self, steps: Seq<Step>) -> Book
        decreases steps.len(),
    {
        if steps.len() == 0 {
            self
        } else {
            self.after_all(steps.drop_last()).after(steps.last())
        }
    }

    /// The bonds that have been posted for the request: one by the proposer, if there is
    /// one, and one by the disputer, if there is one.
    pub open spec fn bonds_posted(self) -> nat {
        let by_proposer: nat = if self.request.proposer is Some {
            self.request.bond_amount as nat
        } else {
            0
        };
        let by_disputer: nat = if self.request.disputer is Some {
            self.request.bond_amount as nat
        } else {
            0
        };
        by_proposer + by_disputer
    }

    /// The pools hold what the status of the request calls for, and the parties recorded
    /// are those that the status calls for: the reward until the request is settled or
    /// cancelled, the proposer's bond from the proposal on, the disputer's bond from the
    /// dispute on, and nothing once the request is settled or cancelled.
    pub open spec fn backed(self) -> bool {
        let r = self.request;
        match r.status {
            RequestStatus::Created => {
                &&& self.request_escrow == r.reward_amount
                &&& self.proposal_escrow == 0
                &&& self.dispute_escrow == 0
                &&& r.proposer is None
                &&& r.disputer is None
                &&& self.paid_out == 0
            },
            RequestStatus::Proposed => {
                &&& self.request_escrow == r.reward_amount
                &&& self.proposal_escrow == r.bond_amount
                &&& self.dispute_escrow == 0
                &&& r.proposer is Some
                &&& r.disputer is None
                &&& self.paid_out == 0
            },
            RequestStatus::Disputed => {
                &&& self.request_escrow == r.reward_amount
                &&& self.proposal_escrow == r.bond_amount
                &&& self.dispute_escrow == r.bond_amount
                &&& r.proposer is Some
                &&& r.disputer is Some
                &&& self.paid_out == 0
            },
            RequestStatus::Resolved => {
                &&& self.escrowed() == 0
                &&& r.proposer is Some
            },
            RequestStatus::Cancelled => {
                &&& self.escrowed() == 0
                &&& r.proposer is None
                &&& r.disputer is None
            },
        }
    }

    /// What went into the pools is the reward and the bonds posted, and all of it is
    /// either still in the pools or paid out.
    pub open spec fn conserved(self) -> bool {
        &&& self.deposited == self.request.reward_amount + self.bonds_posted()
        &&& self.deposited == self.paid_out + self.escrowed()
    }
}

} // verus!
