//! An optimistic, bond-secured oracle: the request lifecycle and its escrow accounting.
//!
//! A creator posts a question with a reward. Once the question's deadline has passed, a
//! proposer answers it under a bond. During the challenge period a disputer may contest the
//! answer under a bond of the same size. An undisputed answer is settled by the clock, a
//! disputed one by the administrator. Every operation either completes as a whole or leaves
//! all balances and records as they were.

pub mod accounts;
pub mod answer;
pub mod error;
pub mod escrow;
pub mod events;
pub mod instructions;
pub mod laws;
pub mod lifecycle;
pub mod principal;
pub mod registry;
pub mod request;

pub use accounts::{
    CancelRequest, CreateRequest, DisputeAnswer, Initialize, ProposeAnswer, ResolveDisputed,
    ResolveUndisputed,
};
pub use answer::AnswerType;
pub use error::OracleError;
pub use events::{AnswerDisputed, AnswerProposed, DisputeResolved, RequestCreated, RequestResolved};
pub use instructions::{
    cancel_request, create_request, dispute_answer, initialize, propose_answer,
    resolve_disputed_via_vote, resolve_undisputed,
};
pub use principal::{Principal, Wallet};
pub use registry::OracleState;
pub use request::{Request, RequestStatus};
