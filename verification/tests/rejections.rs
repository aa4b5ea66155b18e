use optimistic_oracle::escrow::transfer;
use optimistic_oracle::request::challenge_window_open;
use optimistic_oracle::{
    cancel_request, create_request, dispute_answer, propose_answer, resolve_disputed_via_vote,
    resolve_undisputed, AnswerType, CancelRequest, CreateRequest, DisputeAnswer, OracleError,
    OracleState, Principal, ProposeAnswer, Request, RequestStatus, ResolveDisputed,
    ResolveUndisputed, Wallet,
};

const NOW: i64 = 1_000_000;

fn key(b: u8) -> Principal {
    Principal { bytes: [b; 32] }
}

fn wallet(b: u8, lamports: u64) -> Wallet {
    Wallet { key: key(b), lamports }
}

fn registry() -> OracleState {
    OracleState { admin: key(1), request_count: 10, total_volume: 500, bump: 250 }
}

fn fresh() -> CreateRequest {
    CreateRequest {
        request: Request::default(),
        oracle_state: registry(),
        request_escrow: 0,
        creator: wallet(2, 1_000),
        bump: 9,
    }
}

fn try_create(
    ctx: &mut CreateRequest,
    question: &str,
    reward: u64,
    bond: u64,
    expiry: i64,
    period: i64,
) -> Result<u64, OracleError> {
    create_request(
        ctx,
        NOW,
        String::from(question),
        AnswerType::YesNo,
        reward,
        bond,
        expiry,
        period,
        None,
        None,
    )
    .map(|event| event.request_id)
}

fn request(status: RequestStatus) -> Request {
    let told = status != RequestStatus::Created && status != RequestStatus::Cancelled;
    let contested = status == RequestStatus::Disputed;
    Request {
        request_id: 11,
        creator: key(2),
        question: String::from("q"),
        answer_type: AnswerType::YesNo,
        reward_amount: 100,
        bond_amount: 40,
        expiry_timestamp: NOW,
        challenge_period: 3600,
        status,
        created_at: NOW - 50,
        proposer: if told { Some(key(3)) } else { None },
        proposal_time: if told { Some(NOW + 10) } else { None },
        answer: if told { Some(String::from("YES")) } else { None },
        disputer: if contested { Some(key(4)) } else { None },
        dispute_time: if contested { Some(NOW + 20) } else { None },
        bump: 9,
        ..Request::default()
    }
}

fn settle(request: Request) -> ResolveUndisputed {
    ResolveUndisputed {
        request,
        request_escrow: 100,
        proposal_escrow: 40,
        proposer_account: wallet(3, 5),
    }
}

fn vote(request: Request) -> ResolveDisputed {
    ResolveDisputed {
        request,
        oracle_state: registry(),
        request_escrow: 100,
        proposal_escrow: 40,
        dispute_escrow: 40,
        winner_account: wallet(3, 5),
        resolver: key(1),
    }
}

#[test]
fn transfer_moves_the_amount_or_nothing() {
    assert_eq!(transfer(10, 5, 3), Ok((7, 8)));
    assert_eq!(transfer(10, 5, 10), Ok((0, 15)));
    assert_eq!(transfer(10, 5, 0), Ok((10, 5)));
    assert_eq!(transfer(10, 5, 11), Err(OracleError::InsufficientFunds));
    assert_eq!(transfer(0, 0, 1), Err(OracleError::InsufficientFunds));
    assert_eq!(transfer(10, u64::MAX - 2, 3), Err(OracleError::ArithmeticOverflow));
    assert_eq!(transfer(10, u64::MAX - 3, 3), Ok((7, u64::MAX)));
    assert_eq!(transfer(1, u64::MAX, 2), Err(OracleError::InsufficientFunds));
    assert_eq!(transfer(u64::MAX, 0, u64::MAX), Ok((0, u64::MAX)));
}

#[test]
fn window_is_computed_without_overflow() {
    assert!(challenge_window_open(100, 50, 50));
    assert!(!challenge_window_open(101, 50, 50));
    assert!(challenge_window_open(i64::MAX, i64::MAX, 3600));
    assert!(challenge_window_open(i64::MAX, i64::MAX - 3600, 3600));
    assert!(!challenge_window_open(i64::MAX, i64::MAX - 3601, 3600));
    assert!(!challenge_window_open(i64::MIN + 1, i64::MIN, 0));
    assert!(!challenge_window_open(0, i64::MIN, i64::MIN));
    assert!(challenge_window_open(i64::MIN, i64::MIN, 0));
    assert!(challenge_window_open(-5, -10, 5));
}

#[test]
fn creation_rejects_bad_terms_in_order() {
    let long = "q".repeat(501);
    let cases: Vec<(&str, u64, u64, i64, i64, OracleError)> = vec![
        (&long, 0, 0, NOW, 0, OracleError::QuestionTooLong),
        ("q", 0, 0, NOW, 0, OracleError::InvalidReward),
        ("q", 1, 0, NOW, 0, OracleError::InvalidBond),
        ("q", 1, 1, NOW, 0, OracleError::InvalidExpiry),
        ("q", 1, 1, NOW - 1, 3600, OracleError::InvalidExpiry),
        ("q", 1, 1, NOW + 1, 3599, OracleError::ChallengePeriodTooShort),
        ("q", 1, 1, NOW + 1, -1, OracleError::ChallengePeriodTooShort),
        ("q", 1, 1, NOW + 1, 604801, OracleError::ChallengePeriodTooLong),
        ("q", 1_001, 1, NOW + 1, 3600, OracleError::InsufficientFunds),
    ];
    for (question, reward, bond, expiry, period, error) in cases {
        let mut ctx = fresh();
        let before = ctx.clone();
        assert_eq!(try_create(&mut ctx, question, reward, bond, expiry, period), Err(error));
        assert_eq!(ctx, before);
    }
}

#[test]
fn creation_accepts_the_limits() {
    let mut ctx = fresh();
    assert_eq!(try_create(&mut ctx, &"q".repeat(500), 1, 1, NOW + 1, 3600), Ok(11));
    assert_eq!(try_create(&mut ctx, "", 999, u64::MAX, i64::MAX, 604800), Ok(12));
    assert_eq!(ctx.creator.lamports, 0);
    assert_eq!(ctx.request_escrow, 1_000);
    assert_eq!(ctx.oracle_state.total_volume, 1_500);
    assert_eq!(ctx.request.bond_amount, u64::MAX);
    assert_eq!(ctx.request.challenge_period, 604800);
    let mut ctx = fresh();
    assert_eq!(try_create(&mut ctx, &"é".repeat(250), 1, 1, NOW + 1, 3600), Ok(11));
    assert_eq!(
        try_create(&mut ctx, &"é".repeat(251), 1, 1, NOW + 1, 3600),
        Err(OracleError::QuestionTooLong)
    );
}

#[test]
fn creation_rejects_what_would_overflow() {
    let mut ctx = fresh();
    ctx.request_escrow = u64::MAX;
    let before = ctx.clone();
    assert_eq!(try_create(&mut ctx, "q", 1, 1, NOW + 1, 3600), Err(OracleError::ArithmeticOverflow));
    assert_eq!(ctx, before);

    let mut ctx = fresh();
    ctx.oracle_state.request_count = u64::MAX;
    let before = ctx.clone();
    assert_eq!(try_create(&mut ctx, "q", 1, 1, NOW + 1, 3600), Err(OracleError::ArithmeticOverflow));
    assert_eq!(ctx, before);

    let mut ctx = fresh();
    ctx.oracle_state.total_volume = u64::MAX - 4;
    let before = ctx.clone();
    assert_eq!(try_create(&mut ctx, "q", 5, 1, NOW + 1, 3600), Err(OracleError::ArithmeticOverflow));
    assert_eq!(ctx, before);
    assert_eq!(try_create(&mut ctx, "q", 4, 1, NOW + 1, 3600), Ok(11));
    assert_eq!(ctx.oracle_state.total_volume, u64::MAX);
}

#[test]
fn proposal_rejections_come_in_order() {
    let base = ProposeAnswer {
        request: request(RequestStatus::Created),
        proposal_escrow: 0,
        proposer: wallet(3, 40),
    };
    let long = "Y".repeat(201);
    let mut wrong_status = base.clone();
    wrong_status.request.status = RequestStatus::Proposed;
    let mut poor = base.clone();
    poor.proposer.lamports = 39;
    let mut full = base.clone();
    full.proposal_escrow = u64::MAX - 39;
    let cases: Vec<(ProposeAnswer, i64, &str, OracleError)> = vec![
        (wrong_status, NOW - 1, &long, OracleError::InvalidStatus),
        (base.clone(), NOW - 1, &long, OracleError::RequestNotExpired),
        (base.clone(), NOW, &long, OracleError::AnswerTooLong),
        (base.clone(), NOW, "yes", OracleError::InvalidAnswer),
        (poor, NOW, "YES", OracleError::InsufficientFunds),
        (full, NOW, "YES", OracleError::ArithmeticOverflow),
    ];
    for (mut ctx, now, answer, error) in cases {
        let before = ctx.clone();
        assert_eq!(propose_answer(&mut ctx, now, String::from(answer)), Err(error));
        assert_eq!(ctx, before);
    }
    let mut ctx = base;
    assert!(propose_answer(&mut ctx, NOW, String::from("YES")).is_ok());
    assert_eq!(ctx.proposer.lamports, 0);
    assert_eq!(ctx.proposal_escrow, 40);
}

#[test]
fn dispute_rejections_come_in_order() {
    let base = DisputeAnswer {
        request: request(RequestStatus::Proposed),
        dispute_escrow: 0,
        disputer: wallet(4, 40),
    };
    let end = NOW + 10 + 3600;
    let mut wrong_status = base.clone();
    wrong_status.request.status = RequestStatus::Disputed;
    let mut untimed = base.clone();
    untimed.request.proposal_time = None;
    let mut poor = base.clone();
    poor.disputer.lamports = 0;
    let mut full = base.clone();
    full.dispute_escrow = u64::MAX;
    let cases: Vec<(DisputeAnswer, i64, OracleError)> = vec![
        (wrong_status, end + 1, OracleError::InvalidStatus),
        (untimed, end + 1, OracleError::NoProposal),
        (base.clone(), end + 1, OracleError::ChallengePeriodExpired),
        (poor, end, OracleError::InsufficientFunds),
        (full, end, OracleError::ArithmeticOverflow),
    ];
    for (mut ctx, now, error) in cases {
        let before = ctx.clone();
        assert_eq!(dispute_answer(&mut ctx, now, Some(String::from("NO"))), Err(error));
        assert_eq!(ctx, before);
    }
    let mut ctx = base;
    assert!(dispute_answer(&mut ctx, end, Some(String::from("not checked"))).is_ok());
    assert_eq!(ctx.request.answer, Some(String::from("YES")));
}

#[test]
fn undisputed_settlement_rejections_come_in_order() {
    let base = settle(request(RequestStatus::Proposed));
    let after = NOW + 10 + 3600 + 1;
    let mut wrong_status = base.clone();
    wrong_status.request.status = RequestStatus::Created;
    let mut untimed = base.clone();
    untimed.request.proposal_time = None;
    let mut nobody = base.clone();
    nobody.request.proposer = None;
    let mut unanswered = base.clone();
    unanswered.request.answer = None;
    let mut stranger = base.clone();
    stranger.proposer_account.key = key(8);
    let mut no_reward = base.clone();
    no_reward.request_escrow = 99;
    let mut no_bond = base.clone();
    no_bond.proposal_escrow = 39;
    let mut rich = base.clone();
    rich.proposer_account.lamports = u64::MAX - 139;
    let cases: Vec<(ResolveUndisputed, i64, OracleError)> = vec![
        (wrong_status, after - 1, OracleError::InvalidStatus),
        (untimed, after - 1, OracleError::NoProposal),
        (base.clone(), after - 1, OracleError::ChallengePeriodNotExpired),
        (nobody, after, OracleError::NoProposer),
        (unanswered, after, OracleError::NoProposal),
        (stranger, after, OracleError::Unauthorized),
        (no_reward, after, OracleError::InsufficientFunds),
        (no_bond, after, OracleError::InsufficientFunds),
        (rich, after, OracleError::ArithmeticOverflow),
    ];
    for (mut ctx, now, error) in cases {
        let before = ctx.clone();
        assert_eq!(resolve_undisputed(&mut ctx, now), Err(error));
        assert_eq!(ctx, before);
    }
    let mut ctx = base;
    ctx.proposer_account.lamports = u64::MAX - 140;
    let event = resolve_undisputed(&mut ctx, after).unwrap();
    assert_eq!(event.payout, 140);
    assert_eq!(ctx.proposer_account.lamports, u64::MAX);
}

#[test]
fn undisputed_settlement_rejects_a_payout_that_cannot_be_counted() {
    let mut ctx = settle(request(RequestStatus::Proposed));
    ctx.request.reward_amount = u64::MAX;
    ctx.request.bond_amount = 1;
    ctx.request_escrow = u64::MAX;
    ctx.proposal_escrow = 1;
    ctx.proposer_account.lamports = 0;
    let before = ctx.clone();
    assert_eq!(resolve_undisputed(&mut ctx, NOW + 99_999), Err(OracleError::ArithmeticOverflow));
    assert_eq!(ctx, before);
}

#[test]
fn vote_rejections_come_in_order() {
    let base = vote(request(RequestStatus::Disputed));
    let mut not_admin = base.clone();
    not_admin.resolver = key(3);
    not_admin.request.status = RequestStatus::Proposed;
    let mut wrong_status = base.clone();
    wrong_status.request.status = RequestStatus::Proposed;
    wrong_status.request.proposer = None;
    let mut nobody = base.clone();
    nobody.request.proposer = None;
    nobody.request.disputer = None;
    let mut unopposed = base.clone();
    unopposed.request.disputer = None;
    let mut stranger = base.clone();
    stranger.winner_account.key = key(4);
    let mut no_reward = base.clone();
    no_reward.request_escrow = 0;
    let mut no_bond = base.clone();
    no_bond.proposal_escrow = 39;
    let mut no_second_bond = base.clone();
    no_second_bond.dispute_escrow = 39;
    let mut rich = base.clone();
    rich.winner_account.lamports = u64::MAX - 179;
    let cases: Vec<(ResolveDisputed, OracleError)> = vec![
        (not_admin, OracleError::Unauthorized),
        (wrong_status, OracleError::InvalidStatus),
        (nobody, OracleError::NoProposer),
        (unopposed, OracleError::NoDisputer),
        (stranger, OracleError::Unauthorized),
        (no_reward, OracleError::InsufficientFunds),
        (no_bond, OracleError::InsufficientFunds),
        (no_second_bond, OracleError::InsufficientFunds),
        (rich, OracleError::ArithmeticOverflow),
    ];
    for (mut ctx, error) in cases {
        let before = ctx.clone();
        assert_eq!(resolve_disputed_via_vote(&mut ctx, NOW + 30, true), Err(error));
        assert_eq!(ctx, before);
    }
    let mut ctx = base.clone();
    assert_eq!(
        resolve_disputed_via_vote(&mut ctx, NOW + 30, false),
        Err(OracleError::Unauthorized)
    );
    assert_eq!(ctx, base);
    ctx.winner_account = wallet(4, u64::MAX - 180);
    assert!(resolve_disputed_via_vote(&mut ctx, NOW + 30, false).is_ok());
    assert_eq!(ctx.winner_account.lamports, u64::MAX);
    assert_eq!(ctx.oracle_state, registry());
}

#[test]
fn vote_rejects_bonds_that_cannot_be_doubled() {
    let mut ctx = vote(request(RequestStatus::Disputed));
    ctx.request.bond_amount = u64::MAX / 2 + 1;
    ctx.proposal_escrow = u64::MAX;
    ctx.dispute_escrow = u64::MAX;
    ctx.winner_account.lamports = 0;
    let before = ctx.clone();
    assert_eq!(
        resolve_disputed_via_vote(&mut ctx, NOW + 30, true),
        Err(OracleError::ArithmeticOverflow)
    );
    assert_eq!(ctx, before);
}

#[test]
fn cancellation_rejections_come_in_order() {
    let base = CancelRequest {
        request: request(RequestStatus::Created),
        request_escrow: 100,
        creator: wallet(2, 7),
    };
    let mut answered = base.clone();
    answered.request = request(RequestStatus::Proposed);
    answered.creator.key = key(5);
    let mut stranger = base.clone();
    stranger.creator.key = key(5);
    let mut empty = base.clone();
    empty.request_escrow = 99;
    let mut rich = base.clone();
    rich.creator.lamports = u64::MAX - 99;
    let cases: Vec<(CancelRequest, OracleError)> = vec![
        (answered, OracleError::InvalidStatus),
        (stranger, OracleError::Unauthorized),
        (empty, OracleError::InsufficientFunds),
        (rich, OracleError::ArithmeticOverflow),
    ];
    for (mut ctx, error) in cases {
        let before = ctx.clone();
        assert_eq!(cancel_request(&mut ctx), Err(error));
        assert_eq!(ctx, before);
    }
    let mut ctx = base;
    assert_eq!(cancel_request(&mut ctx), Ok(()));
    assert_eq!(ctx.creator.lamports, 107);
}

#[test]
fn every_error_has_its_message() {
    let all = [
        (OracleError::QuestionTooLong, "Question too long (max 500 characters)"),
        (OracleError::AnswerTooLong, "Answer too long (max 200 characters)"),
        (OracleError::InvalidReward, "Invalid reward amount"),
        (OracleError::InvalidBond, "Invalid bond amount"),
        (OracleError::InvalidExpiry, "Invalid expiry timestamp"),
        (OracleError::ChallengePeriodTooShort, "Challenge period too short (min 1 hour)"),
        (OracleError::ChallengePeriodTooLong, "Challenge period too long (max 7 days)"),
        (OracleError::InvalidStatus, "Invalid request status"),
        (OracleError::RequestNotExpired, "Request has not expired yet"),
        (OracleError::InvalidAnswer, "Invalid answer format"),
        (OracleError::NoProposal, "No proposal exists"),
        (OracleError::NoProposer, "No proposer exists"),
        (OracleError::NoDisputer, "No disputer exists"),
        (OracleError::ChallengePeriodExpired, "Challenge period has expired"),
        (OracleError::ChallengePeriodNotExpired, "Challenge period has not expired"),
        (OracleError::Unauthorized, "Unauthorized"),
        (OracleError::CannotCancel, "Cannot cancel request"),
        (OracleError::InsufficientFunds, "Insufficient funds"),
        (OracleError::ArithmeticOverflow, "Arithmetic overflow"),
    ];
    for (error, message) in all {
        assert_eq!(error.message(), message);
    }
}

#[test]
fn identities_compare_by_all_their_bytes() {
    assert_eq!(key(1), key(1));
    assert_ne!(key(1), key(2));
    for i in 0..32 {
        let mut other = key(1);
        other.bytes[i] = 2;
        assert_ne!(key(1), other);
        assert!(key(1) != other);
    }
    assert_eq!(Principal::default(), key(0));
}

#[test]
fn cancellation_in_any_later_status_is_rejected_for_the_status() {
    for status in [
        RequestStatus::Proposed,
        RequestStatus::Disputed,
        RequestStatus::Resolved,
        RequestStatus::Cancelled,
    ] {
        let mut ctx = CancelRequest {
            request: request(status),
            request_escrow: 100,
            creator: wallet(2, 7),
        };
        let before = ctx.clone();
        assert_eq!(cancel_request(&mut ctx), Err(OracleError::InvalidStatus));
        assert_eq!(ctx, before);
    }
}
