//! What holds of the oracle as a whole, proved from the contracts of its operations.

use vstd::prelude::*;
use crate::accounts::{
    CancelRequestView, CreateRequestView, DisputeAnswerView, ProposeAnswerView,
    ResolveDisputedView, ResolveUndisputedView,
};
use crate::answer::{
    answer_accepted, is_float_literal, text_no, text_yes, AnswerType, MAX_ANSWER_LEN,
};
use crate::error::OracleError;
use crate::escrow::transfer_rejection;
use crate::instructions::{
    cancel_rejection, cancelled, create_rejection, created, dispute_rejection, disputed,
    propose_rejection, proposed, resolve_disputed_rejection, resolve_undisputed_rejection,
    resolved_disputed, resolved_undisputed,
};
use crate::lifecycle::{Book, Step};
use crate::registry::OracleState;
use crate::request::{utf8_len, RequestStatus};

verus! {

/// One call keeps a book in balance: if the pools were backed and the funds conserved
/// before the call, they are after it, whether the call was accepted or rejected.
pub proof fn lemma_step_keeps_balance(book: Book, step: Step)
    requires
        book.backed(),
        book.conserved(),
    ensures
        book.after(step).backed(),
        book.after(step).conserved(),
{
}

/// Conservation. From the creation of a request into an empty reward pool on, whatever
/// calls are made in whatever order, the reward and the bonds posted are what has been
/// paid out and what remains in the three pools together. The pools hold what the status
/// calls for, and nothing once the request is settled or cancelled; the record stays well
/// formed.
pub proof fn lemma_funds_are_conserved(
    pre: CreateRequestView,
    now: i64,
    question: Seq<char>,
    answer_type: AnswerType,
    reward_amount: u64,
    bond_amount: u64,
    expiry_timestamp: i64,
    challenge_period: i64,
    data_source: Option<Seq<char>>,
    metadata: Option<Seq<char>>,
    steps: Seq<Step>,
)
    requires
        pre.request_escrow == 0,
        create_rejection(
            pre,
            now,
            question,
            reward_amount,
            bond_amount,
            expiry_timestamp,
            challenge_period,
        ) is None,
    ensures
        ({
            let post = created(
                pre,
                now,
                question,
                answer_type,
                reward_amount,
                bond_amount,
                expiry_timestamp,
                challenge_period,
                data_source,
                metadata,
            );
            let book = Book::opened(pre, post).after_all(steps);
            &&& book.conserved()
            &&& book.backed()
            &&& book.request.reward_amount + book.bonds_posted() == book.paid_out + book.escrowed()
            &&& book.request.status.is_terminal() ==> book.escrowed() == 0
            &&& book.request.well_formed()
        }),
    decreases steps.len(),
{
    lemma_record_is_kept(
        Book::opened(
            pre,
            created(
                pre,
                now,
                question,
                answer_type,
                reward_amount,
                bond_amount,
                expiry_timestamp,
                challenge_period,
                data_source,
                metadata,
            ),
        ),
        steps,
    );
    if steps.len() > 0 {
        lemma_funds_are_conserved(
            pre,
            now,
            question,
            answer_type,
            reward_amount,
            bond_amount,
            expiry_timestamp,
            challenge_period,
            data_source,
            metadata,
            steps.drop_last(),
        );
        let post = created(
            pre,
            now,
            question,
            answer_type,
            reward_amount,
            bond_amount,
            expiry_timestamp,
            challenge_period,
            data_source,
            metadata,
        );
        lemma_step_keeps_balance(
            Book::opened(pre, post).after_all(steps.drop_last()),
            steps.last(),
        );
    }
}

/// No operation makes or destroys funds: the balances that an operation was given hold
/// together as much after it as before.
pub proof fn lemma_operations_move_funds_only(
    create: CreateRequestView,
    propose: ProposeAnswerView,
    dispute: DisputeAnswerView,
    undisputed: ResolveUndisputedView,
    vote: ResolveDisputedView,
    cancel: CancelRequestView,
    now: i64,
    question: Seq<char>,
    answer_type: AnswerType,
    reward_amount: u64,
    bond_amount: u64,
    expiry_timestamp: i64,
    challenge_period: i64,
    data_source: Option<Seq<char>>,
    metadata: Option<Seq<char>>,
    answer: Seq<char>,
    proposer_wins: bool,
)
    ensures
        create_rejection(
            create,
            now,
            question,
            reward_amount,
            bond_amount,
            expiry_timestamp,
            challenge_period,
        ) is None ==> ({
            let post = created(
                create,
                now,
                question,
                answer_type,
                reward_amount,
                bond_amount,
                expiry_timestamp,
                challenge_period,
                data_source,
                metadata,
            );
            post.request_escrow + post.creator.lamports == create.request_escrow
                + create.creator.lamports
        }),
        propose_rejection(propose, now, answer) is None ==> ({
            let post = proposed(propose, now, answer);
            post.proposal_escrow + post.proposer.lamports == propose.proposal_escrow
                + propose.proposer.lamports
        }),
        dispute_rejection(dispute, now) is None ==> ({
            let post = disputed(dispute, now);
            post.dispute_escrow + post.disputer.lamports == dispute.dispute_escrow
                + dispute.disputer.lamports
        }),
        resolve_undisputed_rejection(undisputed, now) is None ==> ({
            let post = resolved_undisputed(undisputed, now);
            post.request_escrow + post.proposal_escrow + post.proposer_account.lamports
                == undisputed.request_escrow + undisputed.proposal_escrow
                + undisputed.proposer_account.lamports
        }),
        resolve_disputed_rejection(vote, proposer_wins) is None ==> ({
            let post = resolved_disputed(vote, now);
            post.request_escrow + post.proposal_escrow + post.dispute_escrow
                + post.winner_account.lamports == vote.request_escrow + vote.proposal_escrow
                + vote.dispute_escrow + vote.winner_account.lamports
        }),
        cancel_rejection(cancel) is None ==> ({
            let post = cancelled(cancel);
            post.request_escrow + post.creator.lamports == cancel.request_escrow
                + cancel.creator.lamports
        }),
{
}

/// The counter of requests goes up by exactly one with each request that is registered,
/// the new request gets the new count as its identifier, and the volume grows by the
/// reward.
pub proof fn lemma_counter_goes_up_by_one(registry: OracleState, reward_amount: u64)
    requires
        registry.can_register(reward_amount),
    ensures
        registry.registered(reward_amount).request_count == registry.request_count + 1,
        registry.registered(reward_amount).total_volume == registry.total_volume + reward_amount,
        registry.registered(reward_amount).admin == registry.admin,
{
}

/// No identifier is given twice. Of the requests that are registered one after another,
/// each gets an identifier above that of every earlier one: the `k`-th gets the count
/// before the first, plus `k`.
pub proof fn lemma_identifiers_are_never_reused(registry: OracleState, rewards: Seq<u64>)
    requires
        registry.registered_all(rewards) is Some,
    ensures
        registry.registered_all(rewards)->0.request_count == registry.request_count
            + rewards.len(),
        forall|k: int|
            0 <= k <= rewards.len() ==> {
                &&& #[trigger] registry.registered_all(rewards.take(k)) is Some
                &&& registry.registered_all(rewards.take(k))->0.request_count
                    == registry.request_count + k
            },
    decreases rewards.len(),
{
    if rewards.len() > 0 {
        let earlier = rewards.drop_last();
        lemma_identifiers_are_never_reused(registry, earlier);
        assert forall|k: int| 0 <= k <= rewards.len() implies {
            &&& #[trigger] registry.registered_all(rewards.take(k)) is Some
            &&& registry.registered_all(rewards.take(k))->0.request_count
                == registry.request_count + k
        } by {
            if k == rewards.len() {
                assert(rewards.take(k) =~= rewards);
            } else {
                assert(rewards.take(k) =~= earlier.take(k));
            }
        }
    } else {
        assert forall|k: int| 0 <= k <= rewards.len() implies {
            &&& #[trigger] registry.registered_all(rewards.take(k)) is Some
            &&& registry.registered_all(rewards.take(k))->0.request_count
                == registry.request_count + k
        } by {
            assert(rewards.take(k) =~= rewards);
        }
    }
}

/// A request is settled only from `Proposed` or from `Disputed`, and cancelled only from
/// `Created`. Every step leads on: no status comes back once it was left, nothing follows
/// `Resolved` or `Cancelled`, and between `Created` and `Resolved` lies `Proposed`.
pub proof fn lemma_status_edges(from: RequestStatus, to: RequestStatus)
    ensures
        from.can_become(RequestStatus::Resolved) <==> from == RequestStatus::Proposed || from
            == RequestStatus::Disputed,
        from.can_become(RequestStatus::Cancelled) <==> from == RequestStatus::Created,
        from.can_become(RequestStatus::Disputed) <==> from == RequestStatus::Proposed,
        from.can_become(RequestStatus::Proposed) <==> from == RequestStatus::Created,
        !from.can_become(RequestStatus::Created),
        from.can_become(to) ==> from.stage() < to.stage(),
        from.is_terminal() ==> !from.can_become(to),
{
}

/// Each operation that is accepted takes the request along one edge: `propose_answer`
/// from `Created` to `Proposed`, `dispute_answer` from `Proposed` to `Disputed`,
/// `resolve_undisputed` from `Proposed` to `Resolved`, `resolve_disputed_via_vote` from
/// `Disputed` to `Resolved`, and `cancel_request` from `Created` to `Cancelled`.
pub proof fn lemma_operations_follow_edges(
    propose: ProposeAnswerView,
    dispute: DisputeAnswerView,
    undisputed: ResolveUndisputedView,
    vote: ResolveDisputedView,
    cancel: CancelRequestView,
    now: i64,
    answer: Seq<char>,
    proposer_wins: bool,
)
    ensures
        propose_rejection(propose, now, answer) is None ==> {
            &&& propose.request.status == RequestStatus::Created
            &&& proposed(propose, now, answer).request.status == RequestStatus::Proposed
        },
        dispute_rejection(dispute, now) is None ==> {
            &&& dispute.request.status == RequestStatus::Proposed
            &&& disputed(dispute, now).request.status == RequestStatus::Disputed
        },
        resolve_undisputed_rejection(undisputed, now) is None ==> {
            &&& undisputed.request.status == RequestStatus::Proposed
            &&& resolved_undisputed(undisputed, now).request.status == RequestStatus::Resolved
        },
        resolve_disputed_rejection(vote, proposer_wins) is None ==> {
            &&& vote.request.status == RequestStatus::Disputed
            &&& resolved_disputed(vote, now).request.status == RequestStatus::Resolved
        },
        cancel_rejection(cancel) is None ==> {
            &&& cancel.request.status == RequestStatus::Created
            &&& cancelled(cancel).request.status == RequestStatus::Cancelled
        },
{
}

/// Whatever calls are made on a request, its status stays or moves along edges: after
/// any run of calls the status is the one before, or a later one.
pub proof fn lemma_status_only_advances(book: Book, steps: Seq<Step>)
    ensures
        book.after_all(steps).request.status == book.request.status
            || book.request.status.stage() < book.after_all(steps).request.status.stage(),
        steps.len() > 0 ==> {
            let before = book.after_all(steps.drop_last()).request.status;
            let after = book.after_all(steps).request.status;
            before == after || before.can_become(after)
        },
        book.request.status.is_terminal() ==> book.after_all(steps).request.status
            == book.request.status,
    decreases steps.len(),
{
    if steps.len() > 0 {
        lemma_status_only_advances(book, steps.drop_last());
    }
}

/// The timing gate. An answer to a request without one is rejected as too early before
/// the expiry, and the expiry itself is no longer too early: at and after it, an answer
/// of the right form by a proposer who can post the bond is accepted.
pub proof fn lemma_timing_gate(pre: ProposeAnswerView, now: i64, answer: Seq<char>)
    requires
        pre.request.status == RequestStatus::Created,
    ensures
        now < pre.request.expiry_timestamp ==> propose_rejection(pre, now, answer) == Some(
            OracleError::RequestNotExpired,
        ),
        now >= pre.request.expiry_timestamp ==> propose_rejection(pre, now, answer) != Some(
            OracleError::RequestNotExpired,
        ),
        utf8_len(answer) <= MAX_ANSWER_LEN && answer_accepted(pre.request.answer_type, answer)
            && transfer_rejection(
            pre.proposer.lamports,
            pre.proposal_escrow,
            pre.request.bond_amount,
        ) is None ==> (propose_rejection(pre, now, answer) is None <==> now
            >= pre.request.expiry_timestamp),
{
}

/// The dispute window. For a proposed answer, at every moment exactly one of the two is
/// open: disputing, up to and including the end of the challenge period, and settling
/// without a dispute, after it. A party that can post the bond disputes successfully if
/// and only if the window is open; the proposer is paid successfully if and only if it
/// is closed.
pub proof fn lemma_dispute_window(dispute: DisputeAnswerView, settle: ResolveUndisputedView, now: i64)
    requires
        dispute.request == settle.request,
        settle.request.status == RequestStatus::Proposed,
        settle.request.proposal_time is Some,
        settle.request.proposer is Some,
        settle.request.answer is Some,
        transfer_rejection(
            dispute.disputer.lamports,
            dispute.dispute_escrow,
            dispute.request.bond_amount,
        ) is None,
        settle.proposer_account.key == settle.request.proposer->0,
        settle.request_escrow >= settle.request.reward_amount,
        settle.proposal_escrow >= settle.request.bond_amount,
        settle.proposer_account.lamports + settle.request.reward_amount
            + settle.request.bond_amount <= u64::MAX,
    ensures
        dispute_rejection(dispute, now) is None <==> now <= settle.request.proposal_time->0
            + settle.request.challenge_period,
        resolve_undisputed_rejection(settle, now) is None <==> now
            > settle.request.proposal_time->0 + settle.request.challenge_period,
        dispute_rejection(dispute, now) is None <==> resolve_undisputed_rejection(settle, now)
            is Some,
        dispute_rejection(dispute, now) is Some ==> dispute_rejection(dispute, now) == Some(
            OracleError::ChallengePeriodExpired,
        ),
        resolve_undisputed_rejection(settle, now) is Some ==> resolve_undisputed_rejection(
            settle,
            now,
        ) == Some(OracleError::ChallengePeriodNotExpired),
{
}

/// The form of an answer. A yes-or-no question accepts `YES` and `NO` and nothing else, a
/// numeric question accepts exactly the texts that read as a decimal floating-point
/// number, and a multiple-choice question accepts every text. An answer of the wrong
/// form, to a request that is due and of a length that is allowed, is rejected as
/// invalid.
pub proof fn lemma_answer_format(pre: ProposeAnswerView, now: i64, answer: Seq<char>)
    ensures
        answer_accepted(AnswerType::YesNo, answer) <==> answer == "YES"@ || answer == "NO"@,
        answer_accepted(AnswerType::Numeric, answer) <==> is_float_literal(
            vstd::utf8::encode_utf8(answer),
        ),
        answer_accepted(AnswerType::MultipleChoice, answer),
        pre.request.status == RequestStatus::Created && now >= pre.request.expiry_timestamp
            && utf8_len(answer) <= MAX_ANSWER_LEN ==> (propose_rejection(pre, now, answer) == Some(
            OracleError::InvalidAnswer,
        ) <==> !answer_accepted(pre.request.answer_type, answer)),
{
    reveal_strlit("YES");
    reveal_strlit("NO");
    assert("YES"@ =~= text_yes());
    assert("NO"@ =~= text_no());
}

/// What a request was created with stays as it is, and what is once on record of its
/// history is never changed. Whatever calls are made, the terms are the same after them.
/// A record that was well formed is well formed after them, and in it each of the
/// proposer, the time of the proposal, the answer, the disputer, the time of the dispute
/// and the time of the settlement is set at most once.
pub proof fn lemma_record_is_kept(book: Book, steps: Seq<Step>)
    ensures
        book.request.same_terms(book.after_all(steps).request),
        book.request.well_formed() ==> book.after_all(steps).request.well_formed(),
        book.request.well_formed() ==> book.request.history_kept(book.after_all(steps).request),
    decreases steps.len(),
{
    if steps.len() > 0 {
        lemma_record_is_kept(book, steps.drop_last());
    }
}

/// A well-formed request never lacks what an operation needs of its history: no call on
/// it is rejected for a missing proposal, proposer or disputer.
pub proof fn lemma_well_formed_requests_are_whole(
    dispute: DisputeAnswerView,
    undisputed: ResolveUndisputedView,
    vote: ResolveDisputedView,
    now: i64,
    proposer_wins: bool,
)
    requires
        dispute.request.well_formed(),
        undisputed.request.well_formed(),
        vote.request.well_formed(),
    ensures
        dispute_rejection(dispute, now) != Some(OracleError::NoProposal),
        resolve_undisputed_rejection(undisputed, now) != Some(OracleError::NoProposal),
        resolve_undisputed_rejection(undisputed, now) != Some(OracleError::NoProposer),
        resolve_disputed_rejection(vote, proposer_wins) != Some(OracleError::NoProposer),
        resolve_disputed_rejection(vote, proposer_wins) != Some(OracleError::NoDisputer),
{
}

/// An operation that is called on a request in the wrong status is rejected for the
/// status, whatever else the call holds: a proposal or a cancellation on a request that
/// is not `Created`, a dispute or a settlement without a dispute on one that is not
/// `Proposed`, and the administrator's decision on one that is not `Disputed`.
pub proof fn lemma_wrong_status_is_rejected(
    propose: ProposeAnswerView,
    dispute: DisputeAnswerView,
    undisputed: ResolveUndisputedView,
    vote: ResolveDisputedView,
    cancel: CancelRequestView,
    now: i64,
    answer: Seq<char>,
    proposer_wins: bool,
)
    ensures
        propose.request.status != RequestStatus::Created ==> propose_rejection(
            propose,
            now,
            answer,
        ) == Some(OracleError::InvalidStatus),
        cancel.request.status != RequestStatus::Created ==> cancel_rejection(cancel) == Some(
            OracleError::InvalidStatus,
        ),
        dispute.request.status != RequestStatus::Proposed ==> dispute_rejection(dispute, now)
            == Some(OracleError::InvalidStatus),
        undisputed.request.status != RequestStatus::Proposed ==> resolve_undisputed_rejection(
            undisputed,
            now,
        ) == Some(OracleError::InvalidStatus),
        vote.resolver == vote.oracle_state.admin && vote.request.status
            != RequestStatus::Disputed ==> resolve_disputed_rejection(vote, proposer_wins) == Some(
            OracleError::InvalidStatus,
        ),
{
}

} // verus!
