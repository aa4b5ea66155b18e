//! The operations of the oracle. Each one checks its inputs against the records, moves
//! funds between the balances it was given, updates the records and reports what happened;
//! or it rejects the call and changes nothing.

use vstd::prelude::*;
use crate::accounts::{
    CancelRequest, CancelRequestView, CreateRequest, CreateRequestView, DisputeAnswer,
    DisputeAnswerView, Initialize, ProposeAnswer, ProposeAnswerView, ResolveDisputed,
    ResolveDisputedView, ResolveUndisputed, ResolveUndisputedView,
};
use crate::answer::{accepts_answer, answer_accepted, AnswerType, MAX_ANSWER_LEN};
use crate::error::OracleError;
use crate::escrow::{transfer, transfer_rejection};
use crate::events::{
    AnswerDisputed, AnswerProposed, AnswerProposedView, DisputeResolved, RequestCreated,
    RequestCreatedView, RequestResolved, RequestResolvedView,
};
use crate::principal::{Principal, Wallet};
use crate::registry::OracleState;
use crate::request::{
    challenge_window_open, text_of, utf8_len, window_open, Request, RequestStatus, RequestView,
    MAX_CHALLENGE_PERIOD, MAX_QUESTION_LEN, MIN_CHALLENGE_PERIOD,
};

verus! {

/// Sets up the registry under the given administrator, with no request counted yet.
pub fn initialize(ctx: &mut Initialize, admin: Principal) -> (res: Result<(), OracleError>)
    ensures
        res is Ok,
        final(ctx).oracle_state == (OracleState {
            admin,
            request_count: 0,
            total_volume: 0,
            bump: old(ctx).bump,
        }),
        final(ctx).bump == old(ctx).bump,
{
    ctx.oracle_state.admin = admin;
    ctx.oracle_state.request_count = 0;
    ctx.oracle_state.total_volume = 0;
    ctx.oracle_state.bump = ctx.bump;
    Ok(())
}

/// Why `create_request` rejects a call, if it does. The first reason that applies is given.
pub open spec fn create_rejection(
    pre: CreateRequestView,
    now: i64,
    question: Seq<char>,
    reward_amount: u64,
    bond_amount: u64,
    expiry_timestamp: i64,
    challenge_period: i64,
) -> Option<OracleError> {
    if utf8_len(question) > MAX_QUESTION_LEN {
        Some(OracleError::QuestionTooLong)
    } else if reward_amount == 0 {
        Some(OracleError::InvalidReward)
    } else if bond_amount == 0 {
        Some(OracleError::InvalidBond)
    } else if expiry_timestamp <= now {
        Some(OracleError::InvalidExpiry)
    } else if challenge_period < MIN_CHALLENGE_PERIOD {
        Some(OracleError::ChallengePeriodTooShort)
    } else if challenge_period > MAX_CHALLENGE_PERIOD {
        Some(OracleError::ChallengePeriodTooLong)
    } else if transfer_rejection(pre.creator.lamports, pre.request_escrow, reward_amount)
        is Some {
        transfer_rejection(pre.creator.lamports, pre.request_escrow, reward_amount)
    } else if !pre.oracle_state.can_register(reward_amount) {
        Some(OracleError::ArithmeticOverflow)
    } else {
        None
    }
}

/// The records and balances after `create_request` has accepted a call.
pub open spec fn created(
    pre: CreateRequestView,
    now: i64,
    question: Seq<char>,
    answer_type: AnswerType,
    reward_amount: u64,
    bond_amount: u64,
    expiry_timestamp: i64,
    challenge_period: i64,
    data_source: Option<Seq<char>>,
    metadata: Option<Seq<char>>,
) -> CreateRequestView {
    CreateRequestView {
        request: RequestView {
            request_id: (pre.oracle_state.request_count + 1) as u64,
            creator: pre.creator.key,
            question,
            answer_type,
            reward_amount,
            bond_amount,
            expiry_timestamp,
            challenge_period,
            data_source,
            metadata,
            status: RequestStatus::Created,
            created_at: now,
            proposer: None,
            proposal_time: None,
            answer: None,
            disputer: None,
            dispute_time: None,
            resolved_at: None,
            bump: pre.bump,
        },
        oracle_state: pre.oracle_state.registered(reward_amount),
        request_escrow: (pre.request_escrow + reward_amount) as u64,
        creator: Wallet {
            key: pre.creator.key,
            lamports: (pre.creator.lamports - reward_amount) as u64,
        },
        bump: pre.bump,
    }
}

/// Creates a request at time `now`: fills in the record, gives it the next identifier,
/// moves the reward from the creator into the reward pool, and counts the request in the
/// registry.
pub fn create_request(
    ctx: &mut CreateRequest,
    now: i64,
    question: String,
    answer_type: AnswerType,
    reward_amount: u64,
    bond_amount: u64,
    expiry_timestamp: i64,
    challenge_period: i64,
    data_source: Option<String>,
    metadata: Option<String>,
) -> (res: Result<RequestCreated, OracleError>)
    ensures
        match res {
            Ok(event) => {
                &&& create_rejection(
                    old(ctx)@,
                    now,
                    question@,
                    reward_amount,
                    bond_amount,
                    expiry_timestamp,
                    challenge_period,
                ) is None
                &&& final(ctx)@ == created(
                    old(ctx)@,
                    now,
                    question@,
                    answer_type,
                    reward_amount,
                    bond_amount,
                    expiry_timestamp,
                    challenge_period,
                    text_of(data_source),
                    text_of(metadata),
                )
                &&& event@ == (RequestCreatedView {
                    request_id: (old(ctx).oracle_state.request_count + 1) as u64,
                    creator: old(ctx).creator.key,
                    question: question@,
                    reward_amount,
                    bond_amount,
                    expiry_timestamp,
                })
                &&& final(ctx)@.request.well_formed()
            },
            Err(e) => {
                &&& create_rejection(
                    old(ctx)@,
                    now,
                    question@,
                    reward_amount,
                    bond_amount,
                    expiry_timestamp,
                    challenge_period,
                ) == Some(e)
                &&& final(ctx)@ == old(ctx)@
            },
        },
{
    if question.as_str().as_bytes().len() > MAX_QUESTION_LEN {
        return Err(OracleError::QuestionTooLong);
    }
    if reward_amount == 0 {
        return Err(OracleError::InvalidReward);
    }
    if bond_amount == 0 {
        return Err(OracleError::InvalidBond);
    }
    if expiry_timestamp <= now {
        return Err(OracleError::InvalidExpiry);
    }
    if challenge_period < MIN_CHALLENGE_PERIOD {
        return Err(OracleError::ChallengePeriodTooShort);
    }
    if challenge_period > MAX_CHALLENGE_PERIOD {
        return Err(OracleError::ChallengePeriodTooLong);
    }
    let (creator_balance, escrow_balance) = match transfer(
        ctx.creator.lamports,
        ctx.request_escrow,
        reward_amount,
    ) {
        Ok(balances) => balances,
        Err(e) => {
            return Err(e);
        },
    };
    let request_id = match ctx.oracle_state.register_request(reward_amount) {
        Ok(id) => id,
        Err(e) => {
            return Err(e);
        },
    };
    let event = RequestCreated {
        request_id,
        creator: ctx.creator.key,
        question: question.clone(),
        reward_amount,
        bond_amount,
        expiry_timestamp,
    };
    ctx.request = Request {
        request_id,
        creator: ctx.creator.key,
        question,
        answer_type,
        reward_amount,
        bond_amount,
        expiry_timestamp,
        challenge_period,
        data_source,
        metadata,
        status: RequestStatus::Created,
        created_at: now,
        proposer: None,
        proposal_time: None,
        answer: None,
        disputer: None,
        dispute_time: None,
        resolved_at: None,
        bump: ctx.bump,
    };
    ctx.creator.lamports = creator_balance;
    ctx.request_escrow = escrow_balance;
    Ok(event)
}

/// Why `propose_answer` rejects a call, if it does. The first reason that applies is given.
pub open spec fn propose_rejection(pre: ProposeAnswerView, now: i64, answer: Seq<char>) -> Option<
    OracleError,
> {
    if pre.request.status != RequestStatus::Created {
        Some(OracleError::InvalidStatus)
    } else if now < pre.request.expiry_timestamp {
        Some(OracleError::RequestNotExpired)
    } else if utf8_len(answer) > MAX_ANSWER_LEN {
        Some(OracleError::AnswerTooLong)
    } else if !answer_accepted(pre.request.answer_type, answer) {
        Some(OracleError::InvalidAnswer)
    } else {
        transfer_rejection(pre.proposer.lamports, pre.proposal_escrow, pre.request.bond_amount)
    }
}

/// The records and balances after `propose_answer` has accepted a call.
pub open spec fn proposed(pre: ProposeAnswerView, now: i64, answer: Seq<char>) -> ProposeAnswerView {
    ProposeAnswerView {
        request: RequestView {
            proposer: Some(pre.proposer.key),
            proposal_time: Some(now),
            answer: Some(answer),
            status: RequestStatus::Proposed,
            ..pre.request
        },
        proposal_escrow: (pre.proposal_escrow + pre.request.bond_amount) as u64,
        proposer: Wallet {
            key: pre.proposer.key,
            lamports: (pre.proposer.lamports - pre.request.bond_amount) as u64,
        },
    }
}

/// Proposes `answer` to a request at time `now`: moves the bond from the proposer into the
/// proposal pool and records the proposer, the time and the answer.
pub fn propose_answer(ctx: &mut ProposeAnswer, now: i64, answer: String) -> (res: Result<
    AnswerProposed,
    OracleError,
>)
    ensures
        match res {
            Ok(event) => {
                &&& propose_rejection(old(ctx)@, now, answer@) is None
                &&& final(ctx)@ == proposed(old(ctx)@, now, answer@)
                &&& event@ == (AnswerProposedView {
                    request_id: old(ctx).request.request_id,
                    proposer: old(ctx).proposer.key,
                    answer: answer@,
                    proposal_time: now,
                })
                &&& old(ctx)@.request.well_formed() ==> final(ctx)@.request.well_formed()
            },
            Err(e) => {
                &&& propose_rejection(old(ctx)@, now, answer@) == Some(e)
                &&& final(ctx)@ == old(ctx)@
            },
        },
{
    if ctx.request.status != RequestStatus::Created {
        return Err(OracleError::InvalidStatus);
    }
    if now < ctx.request.expiry_timestamp {
        return Err(OracleError::RequestNotExpired);
    }
    if answer.as_str().as_bytes().len() > MAX_ANSWER_LEN {
        return Err(OracleError::AnswerTooLong);
    }
    if !accepts_answer(ctx.request.answer_type, answer.as_str()) {
        return Err(OracleError::InvalidAnswer);
    }
    let (proposer_balance, escrow_balance) = match transfer(
        ctx.proposer.lamports,
        ctx.proposal_escrow,
        ctx.request.bond_amount,
    ) {
        Ok(balances) => balances,
        Err(e) => {
            return Err(e);
        },
    };
    let event = AnswerProposed {
        request_id: ctx.request.request_id,
        proposer: ctx.proposer.key,
        answer: answer.clone(),
        proposal_time: now,
    };
    ctx.proposer.lamports = proposer_balance;
    ctx.proposal_escrow = escrow_balance;
    ctx.request.proposer = Some(ctx.proposer.key);
    ctx.request.proposal_time = Some(now);
    ctx.request.answer = Some(answer);
    ctx.request.status = RequestStatus::Proposed;
    Ok(event)
}

/// Why `dispute_answer` rejects a call, if it does. The first reason that applies is given.
pub open spec fn dispute_rejection(pre: DisputeAnswerView, now: i64) -> Option<OracleError> {
    if pre.request.status != RequestStatus::Proposed {
        Some(OracleError::InvalidStatus)
    } else if pre.request.proposal_time is None {
        Some(OracleError::NoProposal)
    } else if !window_open(now, pre.request.proposal_time->0, pre.request.challenge_period) {
        Some(OracleError::ChallengePeriodExpired)
    } else {
        transfer_rejection(pre.disputer.lamports, pre.dispute_escrow, pre.request.bond_amount)
    }
}

/// The records and balances after `dispute_answer` has accepted a call.
pub open spec fn disputed(pre: DisputeAnswerView, now: i64) -> DisputeAnswerView {
    DisputeAnswerView {
        request: RequestView {
            disputer: Some(pre.disputer.key),
            dispute_time: Some(now),
            status: RequestStatus::Disputed,
            ..pre.request
        },
        dispute_escrow: (pre.dispute_escrow + pre.request.bond_amount) as u64,
        disputer: Wallet {
            key: pre.disputer.key,
            lamports: (pre.disputer.lamports - pre.request.bond_amount) as u64,
        },
    }
}

/// Disputes the proposed answer at time `now`: moves the bond from the disputer into the
/// dispute pool and records the disputer and the time. The counter-answer is taken for
/// information; it is neither checked nor kept.
pub fn dispute_answer(ctx: &mut DisputeAnswer, now: i64, counter_answer: Option<String>) -> (res:
    Result<AnswerDisputed, OracleError>)
    ensures
        match res {
            Ok(event) => {
                &&& dispute_rejection(old(ctx)@, now) is None
                &&& final(ctx)@ == disputed(old(ctx)@, now)
                &&& event == (AnswerDisputed {
                    request_id: old(ctx).request.request_id,
                    disputer: old(ctx).disputer.key,
                    dispute_time: now,
                })
                &&& old(ctx)@.request.well_formed() ==> final(ctx)@.request.well_formed()
            },
            Err(e) => {
                &&& dispute_rejection(old(ctx)@, now) == Some(e)
                &&& final(ctx)@ == old(ctx)@
            },
        },
{
    if ctx.request.status != RequestStatus::Proposed {
        return Err(OracleError::InvalidStatus);
    }
    let proposal_time = match ctx.request.proposal_time {
        Some(t) => t,
        None => {
            return Err(OracleError::NoProposal);
        },
    };
    if !challenge_window_open(now, proposal_time, ctx.request.challenge_period) {
        return Err(OracleError::ChallengePeriodExpired);
    }
    let (disputer_balance, escrow_balance) = match transfer(
        ctx.disputer.lamports,
        ctx.dispute_escrow,
        ctx.request.bond_amount,
    ) {
        Ok(balances) => balances,
        Err(e) => {
            return Err(e);
        },
    };
    ctx.disputer.lamports = disputer_balance;
    ctx.dispute_escrow = escrow_balance;
    ctx.request.disputer = Some(ctx.disputer.key);
    ctx.request.dispute_time = Some(now);
    ctx.request.status = RequestStatus::Disputed;
    Ok(
        AnswerDisputed {
            request_id: ctx.request.request_id,
            disputer: ctx.disputer.key,
            dispute_time: now,
        },
    )
}

/// Why `resolve_undisputed` rejects a call, if it does. The first reason that applies is
/// given.
pub open spec fn resolve_undisputed_rejection(pre: ResolveUndisputedView, now: i64) -> Option<
    OracleError,
> {
    if pre.request.status != RequestStatus::Proposed {
        Some(OracleError::InvalidStatus)
    } else if pre.request.proposal_time is None {
        Some(OracleError::NoProposal)
    } else if window_open(now, pre.request.proposal_time->0, pre.request.challenge_period) {
        Some(OracleError::ChallengePeriodNotExpired)
    } else if pre.request.proposer is None {
        Some(OracleError::NoProposer)
    } else if pre.request.answer is None {
        Some(OracleError::NoProposal)
    } else if pre.proposer_account.key != pre.request.proposer->0 {
        Some(OracleError::Unauthorized)
    } else if pre.request_escrow < pre.request.reward_amount || pre.proposal_escrow
        < pre.request.bond_amount {
        Some(OracleError::InsufficientFunds)
    } else if pre.proposer_account.lamports + pre.request.reward_amount + pre.request.bond_amount
        > u64::MAX {
        Some(OracleError::ArithmeticOverflow)
    } else {
        None
    }
}

/// The records and balances after `resolve_undisputed` has accepted a call.
pub open spec fn resolved_undisputed(pre: ResolveUndisputedView, now: i64) -> ResolveUndisputedView {
    ResolveUndisputedView {
        request: RequestView {
            status: RequestStatus::Resolved,
            resolved_at: Some(now),
            ..pre.request
        },
        request_escrow: (pre.request_escrow - pre.request.reward_amount) as u64,
        proposal_escrow: (pre.proposal_escrow - pre.request.bond_amount) as u64,
        proposer_account: Wallet {
            key: pre.proposer_account.key,
            lamports: (pre.proposer_account.lamports + pre.request.reward_amount
                + pre.request.bond_amount) as u64,
        },
    }
}

/// Settles a request whose answer nobody disputed in time: pays the reward and the
/// proposer's bond to the proposer and records the time.
pub fn resolve_undisputed(ctx: &mut ResolveUndisputed, now: i64) -> (res: Result<
    RequestResolved,
    OracleError,
>)
    ensures
        match res {
            Ok(event) => {
                &&& resolve_undisputed_rejection(old(ctx)@, now) is None
                &&& final(ctx)@ == resolved_undisputed(old(ctx)@, now)
                &&& event@ == (RequestResolvedView {
                    request_id: old(ctx).request.request_id,
                    answer: old(ctx)@.request.answer->0,
                    winner: old(ctx).request.proposer->0,
                    payout: (old(ctx).request.reward_amount + old(ctx).request.bond_amount) as u64,
                })
                &&& old(ctx)@.request.well_formed() ==> final(ctx)@.request.well_formed()
            },
            Err(e) => {
                &&& resolve_undisputed_rejection(old(ctx)@, now) == Some(e)
                &&& final(ctx)@ == old(ctx)@
            },
        },
{
    if ctx.request.status != RequestStatus::Proposed {
        return Err(OracleError::InvalidStatus);
    }
    let proposal_time = match ctx.request.proposal_time {
        Some(t) => t,
        None => {
            return Err(OracleError::NoProposal);
        },
    };
    if challenge_window_open(now, proposal_time, ctx.request.challenge_period) {
        return Err(OracleError::ChallengePeriodNotExpired);
    }
    let proposer = match ctx.request.proposer {
        Some(p) => p,
        None => {
            return Err(OracleError::NoProposer);
        },
    };
    let answer = match &ctx.request.answer {
        Some(a) => a.clone(),
        None => {
            return Err(OracleError::NoProposal);
        },
    };
    if ctx.proposer_account.key != proposer {
        return Err(OracleError::Unauthorized);
    }
    let reward = ctx.request.reward_amount;
    let bond = ctx.request.bond_amount;
    let request_escrow = match ctx.request_escrow.checked_sub(reward) {
        Some(left) => left,
        None => {
            return Err(OracleError::InsufficientFunds);
        },
    };
    let proposal_escrow = match ctx.proposal_escrow.checked_sub(bond) {
        Some(left) => left,
        None => {
            return Err(OracleError::InsufficientFunds);
        },
    };
    let payout = match reward.checked_add(bond) {
        Some(sum) => sum,
        None => {
            return Err(OracleError::ArithmeticOverflow);
        },
    };
    let balance = match ctx.proposer_account.lamports.checked_add(payout) {
        Some(sum) => sum,
        None => {
            return Err(OracleError::ArithmeticOverflow);
        },
    };
    ctx.request_escrow = request_escrow;
    ctx.proposal_escrow = proposal_escrow;
    ctx.proposer_account.lamports = balance;
    ctx.request.status = RequestStatus::Resolved;
    ctx.request.resolved_at = Some(now);
    Ok(RequestResolved { request_id: ctx.request.request_id, answer, winner: proposer, payout })
}

/// The party that a decision names the winner: the proposer if `proposer_wins`, else the
/// disputer.
pub open spec fn winner_of(proposer: Principal, disputer: Principal, proposer_wins: bool) -> Principal {
    if proposer_wins {
        proposer
    } else {
        disputer
    }
}

/// The party that a decision names the loser: the one that is not the winner.
pub open spec fn loser_of(proposer: Principal, disputer: Principal, proposer_wins: bool) -> Principal {
    if proposer_wins {
        disputer
    } else {
        proposer
    }
}

/// Why `resolve_disputed_via_vote` rejects a call, if it does. The first reason that
/// applies is given.
pub open spec fn resolve_disputed_rejection(pre: ResolveDisputedView, proposer_wins: bool) -> Option<
    OracleError,
> {
    if pre.resolver != pre.oracle_state.admin {
        Some(OracleError::Unauthorized)
    } else if pre.request.status != RequestStatus::Disputed {
        Some(OracleError::InvalidStatus)
    } else if pre.request.proposer is None {
        Some(OracleError::NoProposer)
    } else if pre.request.disputer is None {
        Some(OracleError::NoDisputer)
    } else if pre.winner_account.key != winner_of(
        pre.request.proposer->0,
        pre.request.disputer->0,
        proposer_wins,
    ) {
        Some(OracleError::Unauthorized)
    } else if pre.request_escrow < pre.request.reward_amount || pre.proposal_escrow
        < pre.request.bond_amount || pre.dispute_escrow < pre.request.bond_amount {
        Some(OracleError::InsufficientFunds)
    } else if pre.winner_account.lamports + pre.request.reward_amount + 2 * pre.request.bond_amount
        > u64::MAX {
        Some(OracleError::ArithmeticOverflow)
    } else {
        None
    }
}

/// The records and balances after `resolve_disputed_via_vote` has accepted a call.
pub open spec fn resolved_disputed(pre: ResolveDisputedView, now: i64) -> ResolveDisputedView {
    ResolveDisputedView {
        request: RequestView {
            status: RequestStatus::Resolved,
            resolved_at: Some(now),
            ..pre.request
        },
        oracle_state: pre.oracle_state,
        request_escrow: (pre.request_escrow - pre.request.reward_amount) as u64,
        proposal_escrow: (pre.proposal_escrow - pre.request.bond_amount) as u64,
        dispute_escrow: (pre.dispute_escrow - pre.request.bond_amount) as u64,
        winner_account: Wallet {
            key: pre.winner_account.key,
            lamports: (pre.winner_account.lamports + pre.request.reward_amount + 2
                * pre.request.bond_amount) as u64,
        },
        resolver: pre.resolver,
    }
}

/// Settles a disputed request by the administrator's decision at time `now`: pays the
/// reward and both bonds to the winner, nothing to the loser, and records the time.
pub fn resolve_disputed_via_vote(ctx: &mut ResolveDisputed, now: i64, proposer_wins: bool) -> (res:
    Result<DisputeResolved, OracleError>)
    ensures
        match res {
            Ok(event) => {
                &&& resolve_disputed_rejection(old(ctx)@, proposer_wins) is None
                &&& final(ctx)@ == resolved_disputed(old(ctx)@, now)
                &&& event == (DisputeResolved {
                    request_id: old(ctx).request.request_id,
                    winner: winner_of(
                        old(ctx).request.proposer->0,
                        old(ctx).request.disputer->0,
                        proposer_wins,
                    ),
                    loser: loser_of(
                        old(ctx).request.proposer->0,
                        old(ctx).request.disputer->0,
                        proposer_wins,
                    ),
                    proposer_wins,
                })
                &&& old(ctx)@.request.well_formed() ==> final(ctx)@.request.well_formed()
            },
            Err(e) => {
                &&& resolve_disputed_rejection(old(ctx)@, proposer_wins) == Some(e)
                &&& final(ctx)@ == old(ctx)@
            },
        },
{
    if ctx.resolver != ctx.oracle_state.admin {
        return Err(OracleError::Unauthorized);
    }
    if ctx.request.status != RequestStatus::Disputed {
        return Err(OracleError::InvalidStatus);
    }
    let proposer = match ctx.request.proposer {
        Some(p) => p,
        None => {
            return Err(OracleError::NoProposer);
        },
    };
    let disputer = match ctx.request.disputer {
        Some(d) => d,
        None => {
            return Err(OracleError::NoDisputer);
        },
    };
    let (winner, loser) = if proposer_wins {
        (proposer, disputer)
    } else {
        (disputer, proposer)
    };
    if ctx.winner_account.key != winner {
        return Err(OracleError::Unauthorized);
    }
    let reward = ctx.request.reward_amount;
    let bond = ctx.request.bond_amount;
    let request_escrow = match ctx.request_escrow.checked_sub(reward) {
        Some(left) => left,
        None => {
            return Err(OracleError::InsufficientFunds);
        },
    };
    let proposal_escrow = match ctx.proposal_escrow.checked_sub(bond) {
        Some(left) => left,
        None => {
            return Err(OracleError::InsufficientFunds);
        },
    };
    let dispute_escrow = match ctx.dispute_escrow.checked_sub(bond) {
        Some(left) => left,
        None => {
            return Err(OracleError::InsufficientFunds);
        },
    };
    let bond_payout = match bond.checked_mul(2) {
        Some(product) => product,
        None => {
            return Err(OracleError::ArithmeticOverflow);
        },
    };
    let total_payout = match reward.checked_add(bond_payout) {
        Some(sum) => sum,
        None => {
            return Err(OracleError::ArithmeticOverflow);
        },
    };
    let balance = match ctx.winner_account.lamports.checked_add(total_payout) {
        Some(sum) => sum,
        None => {
            return Err(OracleError::ArithmeticOverflow);
        },
    };
    ctx.request_escrow = request_escrow;
    ctx.proposal_escrow = proposal_escrow;
    ctx.dispute_escrow = dispute_escrow;
    ctx.winner_account.lamports = balance;
    ctx.request.status = RequestStatus::Resolved;
    ctx.request.resolved_at = Some(now);
    Ok(DisputeResolved { request_id: ctx.request.request_id, winner, loser, proposer_wins })
}

/// Why `cancel_request` rejects a call, if it does. The first reason that applies is given.
pub open spec fn cancel_rejection(pre: CancelRequestView) -> Option<OracleError> {
    if pre.request.status != RequestStatus::Created {
        Some(OracleError::InvalidStatus)
    } else if pre.creator.key != pre.request.creator {
        Some(OracleError::Unauthorized)
    } else {
        transfer_rejection(pre.request_escrow, pre.creator.lamports, pre.request.reward_amount)
    }
}

/// The records and balances after `cancel_request` has accepted a call.
pub open spec fn cancelled(pre: CancelRequestView) -> CancelRequestView {
    CancelRequestView {
        request: RequestView { status: RequestStatus::Cancelled, ..pre.request },
        request_escrow: (pre.request_escrow - pre.request.reward_amount) as u64,
        creator: Wallet {
            key: pre.creator.key,
            lamports: (pre.creator.lamports + pre.request.reward_amount) as u64,
        },
    }
}

/// Cancels a request that nobody has answered yet: refunds the reward to the creator.
pub fn cancel_request(ctx: &mut CancelRequest) -> (res: Result<(), OracleError>)
    ensures
        match res {
            Ok(()) => {
                &&& cancel_rejection(old(ctx)@) is None
                &&& final(ctx)@ == cancelled(old(ctx)@)
                &&& old(ctx)@.request.well_formed() ==> final(ctx)@.request.well_formed()
            },
            Err(e) => {
                &&& cancel_rejection(old(ctx)@) == Some(e)
                &&& final(ctx)@ == old(ctx)@
            },
        },
{
    if ctx.request.status != RequestStatus::Created {
        return Err(OracleError::InvalidStatus);
    }
    if ctx.creator.key != ctx.request.creator {
        return Err(OracleError::Unauthorized);
    }
    let (escrow_balance, creator_balance) = match transfer(
        ctx.request_escrow,
        ctx.creator.lamports,
        ctx.request.reward_amount,
    ) {
        Ok(balances) => balances,
        Err(e) => {
            return Err(e);
        },
    };
    ctx.request_escrow = escrow_balance;
    ctx.creator.lamports = creator_balance;
    ctx.request.status = RequestStatus::Cancelled;
    Ok(())
}

} // verus!
