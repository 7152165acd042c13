//! Run parameters and the errors a run can end with.

use vstd::prelude::*;

verus! {

/// Number of monthly buckets a run is divided into for monthly reporting.
pub const MONTHS_PER_YEAR: i32 = 12;

/// Why a run was refused or aborted.
#[derive(Clone, Copy, Debug, PartialEq, Eq, Structural)]
pub enum SimError {
    /// The run parameters are inconsistent.
    Configuration,
    /// A division by a zero square root of the active balance, or a value
    /// that does not fit its integer type.
    Arithmetic,
    /// A monthly bucket refers to an epoch for which no row was recorded.
    ReportingIndex,
}

/// Which report the run hands to the reporter.
#[derive(Clone, Copy, Debug, PartialEq, Eq, Structural)]
pub enum PrintingOutput {
    Epoch,
    Monthly,
}

/// A share of the base reward, as a fraction.
#[derive(Clone, Copy, Debug, PartialEq, Eq, Structural)]
pub struct Proportion {
    pub numerator: u64,
    pub denominator: u64,
}

impl Proportion {
    /// The share of `base` this proportion stands for, rounded down.
    pub open spec fn of(self, base: nat) -> nat {
        (base * self.numerator) as nat / self.denominator as nat
    }
}

/// The parameters of one run. They do not change while it lasts.
#[derive(Clone, Copy, Debug, PartialEq, Eq, Structural)]
pub struct Config {
    pub epochs: i32,
    pub total_at_stake_initial: u64,
    pub max_effective_balance: u64,
    pub base_reward_factor: u64,
    pub base_rewards_per_epoch: u64,
    pub head_ffg_proportion: Proportion,
    pub proposer_proportion: Proportion,
    pub attester_proportion: Proportion,
    pub printing_output: PrintingOutput,
}

impl Config {
    /// The parameters are consistent: counts and divisors are positive, the
    /// initial stake is a whole number of validators, and a monthly report
    /// has whole months.
    pub open spec fn wf(self) -> bool {
        &&& self.epochs > 0
        &&& self.max_effective_balance > 0
        &&& self.total_at_stake_initial > 0
        &&& self.total_at_stake_initial % self.max_effective_balance == 0
        &&& self.divisors_positive()
        &&& (self.printing_output == PrintingOutput::Monthly ==> self.epochs % MONTHS_PER_YEAR
            == 0)
    }

    /// Every divisor of the reward formulas is positive.
    pub open spec fn divisors_positive(self) -> bool {
        &&& self.base_rewards_per_epoch > 0
        &&& self.head_ffg_proportion.denominator > 0
        &&& self.proposer_proportion.denominator > 0
        &&& self.attester_proportion.denominator > 0
    }

    /// The number of validators at genesis.
    pub open spec fn genesis_validators(self) -> nat {
        (self.total_at_stake_initial / self.max_effective_balance) as nat
    }

    /// Checks the parameters before any epoch runs.
    pub fn validate(&self) -> (r: Result<(), SimError>)
        ensures
            r is Ok <==> self.wf(),
            r is Err ==> r == Err::<(), SimError>(SimError::Configuration),
    {
        if self.epochs <= 0 || self.max_effective_balance == 0 || self.total_at_stake_initial
            == 0 || self.base_rewards_per_epoch == 0 || self.head_ffg_proportion.denominator
            == 0 || self.proposer_proportion.denominator == 0
            || self.attester_proportion.denominator == 0 {
            return Err(SimError::Configuration);
        }
        if self.total_at_stake_initial % self.max_effective_balance != 0 {
            return Err(SimError::Configuration);
        }
        match self.printing_output {
            PrintingOutput::Monthly => {
                if self.epochs % MONTHS_PER_YEAR != 0 {
                    return Err(SimError::Configuration);
                }
            },
            PrintingOutput::Epoch => {},
        }
        Ok(())
    }
}

} // verus!
