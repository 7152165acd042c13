//! One validator's record, the outcome it is eligible for in an epoch, and
//! the amounts it is credited or charged.

use vstd::prelude::*;
use crate::types::config::{Config, SimError};

verus! {

/// A validator's holdings and status.
#[derive(Clone, Copy, Debug, PartialEq, Eq, Structural)]
pub struct Validator {
    /// What the validator actually holds.
    pub balance: u64,
    /// The capped valuation that rewards are weighted by.
    pub effective_balance: u64,
    pub is_active: bool,
    pub is_slashed: bool,
}

/// What an epoch has in store for a validator.
#[derive(Clone, Copy, Debug, PartialEq, Eq, Structural)]
pub enum Eligibility {
    /// Its stake counted towards the matching balance.
    Rewarded,
    /// It took part, but no stake of its own counted.
    Penalized,
    /// Inactive or slashed: the epoch passes it by.
    Void,
}

/// One validator's rewards and penalty for one epoch.
#[derive(Clone, Copy, Debug, PartialEq, Eq, Structural)]
pub struct Deltas {
    pub head_ffg_reward: u64,
    pub head_ffg_penalty: u64,
    pub proposer_reward: u64,
    pub attester_reward: u64,
}

impl Validator {
    /// The validator every run starts with.
    pub open spec fn genesis(config: Config) -> Validator {
        Validator {
            balance: config.max_effective_balance,
            effective_balance: config.max_effective_balance,
            is_active: true,
            is_slashed: false,
        }
    }

    /// The outcome the validator's flags and stake make it eligible for.
    pub open spec fn spec_eligibility(self) -> Eligibility {
        if !self.is_active || self.is_slashed {
            Eligibility::Void
        } else if self.effective_balance > 0 {
            Eligibility::Rewarded
        } else {
            Eligibility::Penalized
        }
    }

    /// Builds the genesis validator.
    pub fn new(config: &Config) -> (v: Validator)
        ensures
            v == Validator::genesis(*config),
    {
        Validator {
            balance: config.max_effective_balance,
            effective_balance: config.max_effective_balance,
            is_active: true,
            is_slashed: false,
        }
    }

    /// Applies an epoch's deltas to the balance: the rewards are added and
    /// the penalty is taken off, and a penalty beyond what is there leaves
    /// zero. The result tells whether the balance was clamped so. Where the
    /// new balance does not fit, the validator stays as it is and the call
    /// fails.
    pub fn apply(&mut self, deltas: &Deltas) -> (r: Result<bool, SimError>)
        ensures
            r is Ok <==> deltas.settle(old(self).balance as nat) <= u64::MAX,
            r is Ok ==> *final(self) == (Validator {
                balance: deltas.settle(old(self).balance as nat) as u64,
                ..*old(self)
            }) && r.unwrap() == deltas.clamps(old(self).balance as nat),
            r is Err ==> *final(self) == *old(self) && r == Err::<bool, SimError>(
                SimError::Arithmetic,
            ),
    {
        let gross: u128 = self.balance as u128 + deltas.head_ffg_reward as u128
            + deltas.proposer_reward as u128 + deltas.attester_reward as u128;
        let penalty: u128 = deltas.head_ffg_penalty as u128;
        if gross < penalty {
            self.balance = 0;
            return Ok(true);
        }
        let net: u128 = gross - penalty;
        if net > u64::MAX as u128 {
            return Err(SimError::Arithmetic);
        }
        self.balance = net as u64;
        Ok(false)
    }

    /// Classifies the validator for the epoch at hand.
    pub fn eligibility(&self) -> (e: Eligibility)
        ensures
            e == self.spec_eligibility(),
    {
        if !self.is_active || self.is_slashed {
            Eligibility::Void
        } else if self.effective_balance > 0 {
            Eligibility::Rewarded
        } else {
            Eligibility::Penalized
        }
    }
}

impl Deltas {
    /// Deltas that leave a balance as it is.
    pub open spec fn spec_zero() -> Deltas {
        Deltas { head_ffg_reward: 0, head_ffg_penalty: 0, proposer_reward: 0, attester_reward: 0 }
    }

    /// The balance that `balance` becomes under these deltas: rewards added,
    /// penalty taken off, never below zero.
    pub open spec fn settle(self, balance: nat) -> nat {
        let gross = balance + self.head_ffg_reward + self.proposer_reward + self.attester_reward;
        if gross >= self.head_ffg_penalty {
            (gross - self.head_ffg_penalty) as nat
        } else {
            0
        }
    }

    /// The penalty is more than `balance` and the rewards together.
    pub open spec fn clamps(self, balance: nat) -> bool {
        balance + self.head_ffg_reward + self.proposer_reward + self.attester_reward
            < self.head_ffg_penalty
    }

    /// Builds the deltas of a validator the epoch passes by.
    pub fn zero() -> (d: Deltas)
        ensures
            d == Deltas::spec_zero(),
    {
        Deltas { head_ffg_reward: 0, head_ffg_penalty: 0, proposer_reward: 0, attester_reward: 0 }
    }
}

/// Settling never leaves a negative balance: what is left is the balance
/// with the rewards added and the penalty taken off, or zero where that
/// would be less than zero.
pub proof fn lemma_settle_clamps_at_zero(deltas: Deltas, balance: nat)
    ensures
        deltas.settle(balance) >= 0,
        deltas.clamps(balance) ==> deltas.settle(balance) == 0,
        !deltas.clamps(balance) ==> deltas.settle(balance) == balance + deltas.head_ffg_reward
            + deltas.proposer_reward + deltas.attester_reward - deltas.head_ffg_penalty,
{
}

} // verus!
