//! The registry: who administers the oracle, and how many requests it has seen.

use vstd::prelude::*;
use crate::error::OracleError;
use crate::principal::Principal;

verus! {

/// The one registry of the oracle.
#[derive(Clone, Copy, Debug, PartialEq, Eq)]
pub struct OracleState {
    /// The party that settles disputes.
    pub admin: Principal,
    /// The number of requests created so far, which is also the identifier of the latest one.
    pub request_count: u64,
    /// The sum of the rewards of all requests created so far.
    pub total_volume: u64,
    pub bump: u8,
}

impl Default for OracleState {
    /// A registry that nobody has set up yet: no request, no volume.
    fn default() -> (r: OracleState)
        ensures
            r.request_count == 0,
            r.total_volume == 0,
            r.bump == 0,
            r.admin.is_zero(),
    {
        OracleState { admin: Principal::default(), request_count: 0, total_volume: 0, bump: 0 }
    }
}

impl OracleState {
    /// The registry after one more request with the given reward.
    pub open spec fn registered(self, reward_amount: u64) -> OracleState {
        OracleState {
            request_count: (self.request_count + 1) as u64,
            total_volume: (self.total_volume + reward_amount) as u64,
            ..self
        }
    }

    /// The registry after requests with the given rewards, registered in this order; or
    /// nothing, if the registry cannot count one of them.
    pub open spec fn registered_all(self, rewards: Seq<u64>) -> Option<OracleState>
        decreases rewards.len(),
    {
        if rewards.len() == 0 {
            Some(self)
        } else {
            match self.registered_all(rewards.drop_last()) {
                Some(earlier) => if earlier.can_register(rewards.last()) {
                    Some(earlier.registered(rewards.last()))
                } else {
                    None
                },
                None => None,
            }
        }
    }

    /// Whether the registry can count one more request with the given reward.
    pub open spec fn can_register(self, reward_amount: u64) -> bool {
        self.request_count + 1 <= u64::MAX && self.total_volume + reward_amount <= u64::MAX
    }

    /// Counts a new request and adds its reward to the volume. Returns the identifier of
    /// the new request, which is the new count.
    pub fn register_request(&mut self, reward_amount: u64) -> (res: Result<u64, OracleError>)
        ensures
            match res {
                Ok(id) => {
                    &&& old(self).can_register(reward_amount)
                    &&& *final(self) == old(self).registered(reward_amount)
                    &&& id == old(self).request_count + 1
                },
                Err(e) => {
                    &&& !old(self).can_register(reward_amount)
                    &&& e == OracleError::ArithmeticOverflow
                    &&& *final(self) == *old(self)
                },
            },
    {
        let count = match self.request_count.checked_add(1) {
            Some(c) => c,
            None => {
                return Err(OracleError::ArithmeticOverflow);
            },
        };
        let volume = match self.total_volume.checked_add(reward_amount) {
            Some(v) => v,
            None => {
                return Err(OracleError::ArithmeticOverflow);
            },
        };
        self.request_count = count;
        self.total_volume = volume;
        Ok(count)
    }
}

} // verus!
