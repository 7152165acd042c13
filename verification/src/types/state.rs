//! The state of the simulation: the validators and the run parameters, with
//! the whole-network aggregates derived from them.

use vstd::prelude::*;
use integer_sqrt::IntegerSquareRoot;
use crate::summation::{lemma_sum_full, lemma_sum_prefix_le, lemma_sum_step, sum_over};
use crate::types::config::{Config, SimError};
use crate::types::validator::Validator;

verus! {

/// A validator's balance.
pub open spec fn balance_of() -> spec_fn(Validator) -> nat {
    |v: Validator| v.balance as nat
}

/// A validator's effective balance if it is active, else nothing.
pub open spec fn active_balance_of() -> spec_fn(Validator) -> nat {
    |v: Validator|
        if v.is_active {
            v.effective_balance as nat
        } else {
            0nat
        }
}

/// A validator's effective balance if it is active and not slashed, else
/// nothing.
pub open spec fn matching_balance_of() -> spec_fn(Validator) -> nat {
    |v: Validator|
        if v.is_active && !v.is_slashed {
            v.effective_balance as nat
        } else {
            0nat
        }
}

/// One for an active validator, else nothing.
pub open spec fn active_count_of() -> spec_fn(Validator) -> nat {
    |v: Validator|
        if v.is_active {
            1nat
        } else {
            0nat
        }
}

/// `m` is the largest balance among `vs`, or 0 where there is no validator.
pub open spec fn is_max_balance(vs: Seq<Validator>, m: u64) -> bool {
    &&& vs.len() == 0 ==> m == 0
    &&& forall|i: int| 0 <= i < vs.len() ==> (#[trigger] vs[i]).balance <= m
    &&& vs.len() > 0 ==> exists|i: int| 0 <= i < vs.len() && (#[trigger] vs[i]).balance == m
}

/// `m` is the smallest balance among `vs`, or the largest `u64` where there
/// is no validator.
pub open spec fn is_min_balance(vs: Seq<Validator>, m: u64) -> bool {
    &&& vs.len() == 0 ==> m == u64::MAX
    &&& forall|i: int| 0 <= i < vs.len() ==> (#[trigger] vs[i]).balance >= m
    &&& vs.len() > 0 ==> exists|i: int| 0 <= i < vs.len() && (#[trigger] vs[i]).balance == m
}

/// `r` is the square root of `n`, rounded down.
pub open spec fn is_floor_sqrt(n: nat, r: nat) -> bool {
    r * r <= n < (r + 1) * (r + 1)
}

/// Every sum that a snapshot of `vs` holds fits in a `u64`.
pub open spec fn totals_fit(vs: Seq<Validator>) -> bool {
    &&& sum_over(vs, balance_of()) <= u64::MAX
    &&& sum_over(vs, active_balance_of()) <= u64::MAX
    &&& sum_over(vs, matching_balance_of()) <= u64::MAX
    &&& sum_over(vs, active_count_of()) <= u64::MAX
}

/// A number has one rounded-down square root only.
pub proof fn lemma_floor_sqrt_unique(n: nat, a: nat, b: nat)
    requires
        is_floor_sqrt(n, a),
        is_floor_sqrt(n, b),
    ensures
        a == b,
{
    if a < b {
        assert((a + 1) * (a + 1) <= b * b) by (nonlinear_arith)
            requires
                a + 1 <= b,
        ;
    } else if b < a {
        assert((b + 1) * (b + 1) <= a * a) by (nonlinear_arith)
            requires
                b + 1 <= a,
        ;
    }
}

/// The rounded-down square root is zero for zero and for nothing else.
pub proof fn lemma_floor_sqrt_zero(n: nat, r: nat)
    requires
        is_floor_sqrt(n, r),
    ensures
        r == 0 <==> n == 0,
{
    if r > 0 {
        assert(r * r >= 1) by (nonlinear_arith)
            requires
                r >= 1,
        ;
    } else {
        assert((r + 1) * (r + 1) == 1) by (nonlinear_arith)
            requires
                r == 0,
        ;
    }
}

/// Calls `integer_sqrt` of the crate `integer-sqrt` on a `u64`. Trusted: the
/// result is the square root rounded down, as the crate documents. For an
/// unsigned number the call cannot fail.
#[verifier::external_body]
fn floor_sqrt(n: u64) -> (r: u64)
    ensures
        is_floor_sqrt(n as nat, r as nat),
{
    n.integer_sqrt()
}

/// The quantities that are summed over the validators.
#[derive(Clone, Copy, Debug, PartialEq, Eq, Structural)]
pub enum Measure {
    StakedBalance,
    ActiveBalance,
    MatchingBalance,
    ActiveValidators,
}

impl Measure {
    /// What one validator adds to the sum.
    pub open spec fn quantity(self) -> spec_fn(Validator) -> nat {
        match self {
            Measure::StakedBalance => balance_of(),
            Measure::ActiveBalance => active_balance_of(),
            Measure::MatchingBalance => matching_balance_of(),
            Measure::ActiveValidators => active_count_of(),
        }
    }

    /// Computes what `v` adds to the sum.
    pub fn measure(self, v: &Validator) -> (q: u64)
        ensures
            q == (self.quantity())(*v),
    {
        match self {
            Measure::StakedBalance => v.balance,
            Measure::ActiveBalance => if v.is_active {
                v.effective_balance
            } else {
                0
            },
            Measure::MatchingBalance => if v.is_active && !v.is_slashed {
                v.effective_balance
            } else {
                0
            },
            Measure::ActiveValidators => if v.is_active {
                1
            } else {
                0
            },
        }
    }
}

/// The validators of the run and its parameters.
pub struct State {
    pub config: Config,
    pub validators: Vec<Validator>,
}

/// The whole-network aggregates of a state at one point in time.
#[derive(Clone, Copy, Debug, PartialEq, Eq, Structural)]
pub struct StateTotals {
    pub staked_balance: u64,
    pub active_balance: u64,
    pub sqrt_active_balance: u64,
    pub matching_balance: u64,
    pub max_balance: u64,
    pub min_balance: u64,
    pub active_validators: u64,
}

impl State {
    /// No validator is valued above the maximum effective balance.
    pub open spec fn wf(self) -> bool {
        forall|i: int|
            0 <= i < self.validators@.len() ==> (#[trigger] self.validators@[i]).effective_balance
                <= self.config.max_effective_balance
    }

    /// Builds the genesis state: as many validators as the initial stake
    /// holds maximum effective balances, each holding exactly that.
    pub fn new(config: Config) -> (s: State)
        requires
            config.max_effective_balance > 0,
        ensures
            s.config == config,
            s.validators@.len() == config.genesis_validators(),
            forall|i: int|
                0 <= i < s.validators@.len() ==> s.validators@[i] == Validator::genesis(config),
            totals_fit(s.validators@),
            s.wf(),
    {
        let number_of_validators: u64 = config.total_at_stake_initial
            / config.max_effective_balance;
        let mut validators: Vec<Validator> = Vec::new();
        let mut n: u64 = 0;
        proof {
            assert(number_of_validators * config.max_effective_balance
                <= config.total_at_stake_initial) by (nonlinear_arith)
                requires
                    number_of_validators == config.total_at_stake_initial
                        / config.max_effective_balance,
                    config.max_effective_balance > 0,
            ;
        }
        while n < number_of_validators
            invariant
                n <= number_of_validators,
                validators@.len() == n,
                forall|i: int|
                    0 <= i < validators@.len() ==> validators@[i] == Validator::genesis(config),
                sum_over(validators@, balance_of()) == n * config.max_effective_balance,
                sum_over(validators@, active_balance_of()) == n * config.max_effective_balance,
                sum_over(validators@, matching_balance_of()) == n * config.max_effective_balance,
                sum_over(validators@, active_count_of()) == n,
            decreases number_of_validators - n,
        {
            let ghost before = validators@;
            validators.push(Validator::new(&config));
            proof {
                assert(validators@.drop_last() =~= before);
                assert((n + 1) * config.max_effective_balance == n * config.max_effective_balance
                    + config.max_effective_balance) by (nonlinear_arith);
            }
            n += 1;
        }
        proof {
            assert(n * config.max_effective_balance <= u64::MAX);
        }
        State { config, validators }
    }

    /// Sums one quantity over the validators, or reports that the sum does
    /// not fit.
    pub fn checked_total(&self, measure: Measure) -> (r: Option<u64>)
        ensures
            r is Some <==> sum_over(self.validators@, measure.quantity()) <= u64::MAX,
            r is Some ==> r.unwrap() == sum_over(self.validators@, measure.quantity()),
    {
        let mut total: u64 = 0;
        let mut i: usize = 0;
        while i < self.validators.len()
            invariant
                i <= self.validators@.len(),
                total == sum_over(self.validators@.take(i as int), measure.quantity()),
            decreases self.validators@.len() - i,
        {
            let q: u64 = measure.measure(&self.validators[i]);
            proof {
                lemma_sum_step(self.validators@, measure.quantity(), i as int);
                lemma_sum_prefix_le(self.validators@, measure.quantity(), i + 1);
            }
            match total.checked_add(q) {
                Some(next) => {
                    total = next;
                },
                None => {
                    return None;
                },
            }
            i += 1;
        }
        proof {
            lemma_sum_full(self.validators@, measure.quantity());
        }
        Some(total)
    }

    /// The sum of all balances.
    pub fn get_total_staked_balance(&self) -> (r: u64)
        requires
            sum_over(self.validators@, balance_of()) <= u64::MAX,
        ensures
            r == sum_over(self.validators@, balance_of()),
    {
        self.checked_total(Measure::StakedBalance).unwrap()
    }

    /// The sum of the effective balances of the active validators.
    pub fn get_total_active_balance(&self) -> (r: u64)
        requires
            sum_over(self.validators@, active_balance_of()) <= u64::MAX,
        ensures
            r == sum_over(self.validators@, active_balance_of()),
    {
        self.checked_total(Measure::ActiveBalance).unwrap()
    }

    /// The number of active validators.
    pub fn get_total_active_validators(&self) -> (r: u64)
        requires
            sum_over(self.validators@, active_count_of()) <= u64::MAX,
        ensures
            r == sum_over(self.validators@, active_count_of()),
    {
        self.checked_total(Measure::ActiveValidators).unwrap()
    }

    /// The sum of the effective balances of the validators that are active
    /// and not slashed.
    pub fn get_matching_balance(&self) -> (r: u64)
        requires
            sum_over(self.validators@, matching_balance_of()) <= u64::MAX,
        ensures
            r == sum_over(self.validators@, matching_balance_of()),
    {
        self.checked_total(Measure::MatchingBalance).unwrap()
    }

    /// The largest balance, or 0 where there is no validator.
    pub fn get_max_balance(&self) -> (r: u64)
        ensures
            is_max_balance(self.validators@, r),
    {
        let mut best: u64 = 0;
        let mut i: usize = 0;
        let ghost mut at: int = 0;
        while i < self.validators.len()
            invariant
                i <= self.validators@.len(),
                i == 0 ==> best == 0,
                forall|j: int| 0 <= j < i ==> (#[trigger] self.validators@[j]).balance <= best,
                i > 0 ==> 0 <= at < i && self.validators@[at].balance == best,
            decreases self.validators@.len() - i,
        {
            if self.validators[i].balance >= best {
                best = self.validators[i].balance;
                proof {
                    at = i as int;
                }
            }
            i += 1;
        }
        best
    }

    /// The smallest balance, or the largest `u64` where there is no
    /// validator.
    pub fn get_min_balance(&self) -> (r: u64)
        ensures
            is_min_balance(self.validators@, r),
    {
        let mut best: u64 = u64::MAX;
        let mut i: usize = 0;
        let ghost mut at: int = 0;
        while i < self.validators.len()
            invariant
                i <= self.validators@.len(),
                i == 0 ==> best == u64::MAX,
                forall|j: int| 0 <= j < i ==> (#[trigger] self.validators@[j]).balance >= best,
                i > 0 ==> 0 <= at < i && self.validators@[at].balance == best,
            decreases self.validators@.len() - i,
        {
            if self.validators[i].balance <= best {
                best = self.validators[i].balance;
                proof {
                    at = i as int;
                }
            }
            i += 1;
        }
        best
    }
}

impl StateTotals {
    /// The totals are exactly the aggregates of `vs`.
    pub open spec fn is_snapshot_of(self, vs: Seq<Validator>) -> bool {
        &&& self.staked_balance == sum_over(vs, balance_of())
        &&& self.active_balance == sum_over(vs, active_balance_of())
        &&& is_floor_sqrt(self.active_balance as nat, self.sqrt_active_balance as nat)
        &&& self.matching_balance == sum_over(vs, matching_balance_of())
        &&& is_max_balance(vs, self.max_balance)
        &&& is_min_balance(vs, self.min_balance)
        &&& self.active_validators == sum_over(vs, active_count_of())
    }

    /// Takes the snapshot of a state whose sums fit.
    pub fn new(state: &State) -> (t: StateTotals)
        requires
            totals_fit(state.validators@),
        ensures
            t.is_snapshot_of(state.validators@),
    {
        let total_active_balance: u64 = state.get_total_active_balance();
        StateTotals {
            staked_balance: state.get_total_staked_balance(),
            active_balance: total_active_balance,
            sqrt_active_balance: floor_sqrt(total_active_balance),
            active_validators: state.get_total_active_validators(),
            matching_balance: state.get_matching_balance(),
            max_balance: state.get_max_balance(),
            min_balance: state.get_min_balance(),
        }
    }

    /// Takes the snapshot of any state, and fails where a sum does not fit
    /// in a `u64`.
    pub fn checked_new(state: &State) -> (r: Result<StateTotals, SimError>)
        ensures
            r is Ok <==> totals_fit(state.validators@),
            r is Ok ==> r.unwrap().is_snapshot_of(state.validators@),
            r is Err ==> r == Err::<StateTotals, SimError>(SimError::Arithmetic),
    {
        let staked = state.checked_total(Measure::StakedBalance);
        let active = state.checked_total(Measure::ActiveBalance);
        let matching = state.checked_total(Measure::MatchingBalance);
        let count = state.checked_total(Measure::ActiveValidators);
        if staked.is_none() || active.is_none() || matching.is_none() || count.is_none() {
            return Err(SimError::Arithmetic);
        }
        Ok(StateTotals::new(state))
    }
}

/// Reading the aggregates of an unchanged state twice gives the same
/// snapshot.
pub proof fn lemma_snapshot_deterministic(vs: Seq<Validator>, a: StateTotals, b: StateTotals)
    requires
        a.is_snapshot_of(vs),
        b.is_snapshot_of(vs),
    ensures
        a == b,
{
    lemma_floor_sqrt_unique(
        a.active_balance as nat,
        a.sqrt_active_balance as nat,
        b.sqrt_active_balance as nat,
    );
}

} // verus!
