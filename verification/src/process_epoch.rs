//! The transition of one epoch: from the snapshot taken at its start, the
//! deltas of every validator; from the deltas, the new balances and the
//! epoch's row of the report.

use vstd::prelude::*;
use crate::summation::{lemma_sum_full, lemma_sum_prefix_le, lemma_sum_step, sum_over};
use crate::types::config::{Config, Proportion, SimError};
use crate::types::output::{EpochReportRow, Output};
use crate::types::state::{State, StateTotals, active_balance_of, lemma_floor_sqrt_zero, totals_fit};
use crate::types::validator::{Deltas, Eligibility, Validator};

verus! {

/// The unit that a validator's rewards and penalty are shares of: its
/// effective balance scaled by the reward factor, divided by the square root
/// of the active balance and by the number of base rewards in an epoch.
pub open spec fn base_reward(v: Validator, totals: StateTotals, config: Config) -> nat {
    (v.effective_balance * config.base_reward_factor) as nat / totals.sqrt_active_balance as nat
        / config.base_rewards_per_epoch as nat
}

/// Every product on the way to the validator's deltas fits in a `u64`. Of a
/// validator that the epoch passes by nothing is computed.
pub open spec fn representable(v: Validator, totals: StateTotals, config: Config) -> bool {
    v.spec_eligibility() != Eligibility::Void ==> {
        let base = base_reward(v, totals, config);
        &&& v.effective_balance * config.base_reward_factor <= u64::MAX
        &&& base * config.head_ffg_proportion.numerator <= u64::MAX
        &&& base * config.proposer_proportion.numerator <= u64::MAX
        &&& base * config.attester_proportion.numerator <= u64::MAX
    }
}

/// The head-FFG reward: a share of the base reward for a rewarded validator.
pub open spec fn head_ffg_reward_of(totals: StateTotals, config: Config) -> spec_fn(
    Validator,
) -> nat {
    |v: Validator|
        if v.spec_eligibility() == Eligibility::Rewarded {
            config.head_ffg_proportion.of(base_reward(v, totals, config))
        } else {
            0nat
        }
}

/// The head-FFG penalty: the same share, for a penalized validator.
pub open spec fn head_ffg_penalty_of(totals: StateTotals, config: Config) -> spec_fn(
    Validator,
) -> nat {
    |v: Validator|
        if v.spec_eligibility() == Eligibility::Penalized {
            config.head_ffg_proportion.of(base_reward(v, totals, config))
        } else {
            0nat
        }
}

/// The proposer reward: a share of the base reward for every validator that
/// is active and not slashed.
pub open spec fn proposer_reward_of(totals: StateTotals, config: Config) -> spec_fn(
    Validator,
) -> nat {
    |v: Validator|
        if v.spec_eligibility() != Eligibility::Void {
            config.proposer_proportion.of(base_reward(v, totals, config))
        } else {
            0nat
        }
}

/// The attester reward: a share of the base reward for a rewarded validator.
pub open spec fn attester_reward_of(totals: StateTotals, config: Config) -> spec_fn(
    Validator,
) -> nat {
    |v: Validator|
        if v.spec_eligibility() == Eligibility::Rewarded {
            config.attester_proportion.of(base_reward(v, totals, config))
        } else {
            0nat
        }
}

/// `d` holds exactly the deltas of `v` for an epoch that starts with
/// `totals`.
pub open spec fn deltas_match(d: Deltas, v: Validator, totals: StateTotals, config: Config) -> bool {
    &&& d.head_ffg_reward == (head_ffg_reward_of(totals, config))(v)
    &&& d.head_ffg_penalty == (head_ffg_penalty_of(totals, config))(v)
    &&& d.proposer_reward == (proposer_reward_of(totals, config))(v)
    &&& d.attester_reward == (attester_reward_of(totals, config))(v)
}

/// The balance of `v` after the epoch.
pub open spec fn settled_balance(v: Validator, totals: StateTotals, config: Config) -> nat {
    let gross = v.balance + (head_ffg_reward_of(totals, config))(v) + (proposer_reward_of(
        totals,
        config,
    ))(v) + (attester_reward_of(totals, config))(v);
    let penalty = (head_ffg_penalty_of(totals, config))(v);
    if gross >= penalty {
        (gross - penalty) as nat
    } else {
        0
    }
}

/// The validator after the epoch: its balance settled, the rest as it was.
pub open spec fn advance(v: Validator, totals: StateTotals, config: Config) -> Validator {
    Validator { balance: settled_balance(v, totals, config) as u64, ..v }
}

/// The validators after the epoch, each in its place.
pub open spec fn next_validators(vs: Seq<Validator>, totals: StateTotals, config: Config) -> Seq<
    Validator,
> {
    Seq::new(vs.len(), |i: int| advance(vs[i], totals, config))
}

/// The epoch can be processed: the square root to divide by is not zero, and
/// every delta, every new balance, every sum of the row and every aggregate
/// of the new state fits in a `u64`.
pub open spec fn epoch_succeeds(vs: Seq<Validator>, totals: StateTotals, config: Config) -> bool {
    &&& totals.sqrt_active_balance > 0
    &&& forall|i: int| 0 <= i < vs.len() ==> representable(#[trigger] vs[i], totals, config)
    &&& forall|i: int|
        0 <= i < vs.len() ==> settled_balance(#[trigger] vs[i], totals, config) <= u64::MAX
    &&& sum_over(vs, head_ffg_reward_of(totals, config)) <= u64::MAX
    &&& sum_over(vs, head_ffg_penalty_of(totals, config)) <= u64::MAX
    &&& sum_over(vs, proposer_reward_of(totals, config)) <= u64::MAX
    &&& sum_over(vs, attester_reward_of(totals, config)) <= u64::MAX
    &&& totals_fit(next_validators(vs, totals, config))
}

/// The sums of the row are those of the deltas of `vs`, field by field.
pub open spec fn sums_deltas_of(
    row: EpochReportRow,
    vs: Seq<Validator>,
    totals: StateTotals,
    config: Config,
) -> bool {
    row.delta_sums() == (
        sum_over(vs, head_ffg_reward_of(totals, config)),
        sum_over(vs, head_ffg_penalty_of(totals, config)),
        sum_over(vs, proposer_reward_of(totals, config)),
        sum_over(vs, attester_reward_of(totals, config)),
    )
}

/// Computes a share of the base reward, unless the product does not fit.
pub fn share_of(proportion: &Proportion, base: u64) -> (r: Option<u64>)
    requires
        proportion.denominator > 0,
    ensures
        r is Some <==> base * proportion.numerator <= u64::MAX,
        r is Some ==> r.unwrap() == proportion.of(base as nat),
{
    match base.checked_mul(proportion.numerator) {
        Some(product) => Some(product / proportion.denominator),
        None => None,
    }
}

/// Computes one validator's deltas from the snapshot taken at the start of
/// the epoch. Fails where the square root of the active balance is zero, or
/// where a product does not fit.
pub fn compute_deltas(v: &Validator, totals: &StateTotals, config: &Config) -> (r: Result<
    Deltas,
    SimError,
>)
    requires
        config.divisors_positive(),
    ensures
        r is Ok <==> totals.sqrt_active_balance > 0 && representable(*v, *totals, *config),
        r is Ok ==> deltas_match(r.unwrap(), *v, *totals, *config),
        r is Err ==> r == Err::<Deltas, SimError>(SimError::Arithmetic),
{
    if totals.sqrt_active_balance == 0 {
        return Err(SimError::Arithmetic);
    }
    let eligibility = v.eligibility();
    match eligibility {
        Eligibility::Void => Ok(Deltas::zero()),
        _ => {
            let scaled: u64 = match v.effective_balance.checked_mul(config.base_reward_factor) {
                Some(scaled) => scaled,
                None => {
                    return Err(SimError::Arithmetic);
                },
            };
            let base: u64 = scaled / totals.sqrt_active_balance / config.base_rewards_per_epoch;
            let head = share_of(&config.head_ffg_proportion, base);
            let proposer = share_of(&config.proposer_proportion, base);
            let attester = share_of(&config.attester_proportion, base);
            match (head, proposer, attester) {
                (Some(head), Some(proposer), Some(attester)) => match eligibility {
                    Eligibility::Rewarded => Ok(
                        Deltas {
                            head_ffg_reward: head,
                            head_ffg_penalty: 0,
                            proposer_reward: proposer,
                            attester_reward: attester,
                        },
                    ),
                    _ => Ok(
                        Deltas {
                            head_ffg_reward: 0,
                            head_ffg_penalty: head,
                            proposer_reward: proposer,
                            attester_reward: 0,
                        },
                    ),
                },
                _ => Err(SimError::Arithmetic),
            }
        },
    }
}

/// Computes the deltas of every validator, in the validators' order, before
/// any balance is touched.
pub fn compute_all_deltas(validators: &Vec<Validator>, totals: &StateTotals, config: &Config) -> (r:
    Result<Vec<Deltas>, SimError>)
    requires
        config.divisors_positive(),
    ensures
        r is Ok <==> totals.sqrt_active_balance > 0 && forall|i: int|
            0 <= i < validators@.len() ==> representable(
                #[trigger] validators@[i],
                *totals,
                *config,
            ),
        r is Ok ==> {
            let all = r.unwrap()@;
            &&& all.len() == validators@.len()
            &&& forall|i: int|
                0 <= i < all.len() ==> deltas_match(
                    #[trigger] all[i],
                    validators@[i],
                    *totals,
                    *config,
                )
        },
        r is Err ==> r == Err::<Vec<Deltas>, SimError>(SimError::Arithmetic),
{
    if totals.sqrt_active_balance == 0 {
        return Err(SimError::Arithmetic);
    }
    let mut all: Vec<Deltas> = Vec::new();
    let mut i: usize = 0;
    while i < validators.len()
        invariant
            config.divisors_positive(),
            totals.sqrt_active_balance > 0,
            i <= validators@.len(),
            all@.len() == i,
            forall|j: int|
                0 <= j < i ==> representable(#[trigger] validators@[j], *totals, *config),
            forall|j: int|
                0 <= j < i ==> deltas_match(#[trigger] all@[j], validators@[j], *totals, *config),
        decreases validators@.len() - i,
    {
        match compute_deltas(&validators[i], totals, config) {
            Ok(deltas) => {
                all.push(deltas);
            },
            Err(_) => {
                assert(!representable(validators@[i as int], *totals, *config));
                return Err(SimError::Arithmetic);
            },
        }
        i += 1;
    }
    Ok(all)
}

/// Processes one epoch. The deltas of every validator are computed from the
/// snapshot `state_totals`, taken when the epoch started; then every balance
/// is settled and the deltas are summed into the epoch's row; then the
/// snapshot is taken anew, the row is closed over the new state and appended
/// to `output`. Where the epoch cannot be processed nothing is appended and
/// the snapshot stays as it was.
#[verifier::loop_isolation(false)]
pub fn process_epoch(
    state: State,
    state_totals: &mut StateTotals,
    epoch_id: i32,
    output: &mut Output,
) -> (r: Result<State, SimError>)
    requires
        state.config.divisors_positive(),
    ensures
        r is Ok <==> epoch_succeeds(state.validators@, *old(state_totals), state.config),
        r is Ok ==> {
            let next = r.unwrap();
            let row = final(output).rows@.last();
            &&& next.config == state.config
            &&& next.validators@ == next_validators(
                state.validators@,
                *old(state_totals),
                state.config,
            )
            &&& state.wf() ==> next.wf()
            &&& final(state_totals).is_snapshot_of(next.validators@)
            &&& final(output).rows@.len() == old(output).rows@.len() + 1
            &&& final(output).rows@.drop_last() == old(output).rows@
            &&& row.epoch_id == epoch_id
            &&& sums_deltas_of(row, state.validators@, *old(state_totals), state.config)
            &&& row.closed_over(next.validators@)
        },
        r is Err ==> {
            &&& r == Err::<State, SimError>(SimError::Arithmetic)
            &&& *final(output) == *old(output)
            &&& *final(state_totals) == *old(state_totals)
        },
{
    let ghost before = state.validators@;
    let ghost totals = *state_totals;
    let ghost config = state.config;
    let mut state = state;
    let all = match compute_all_deltas(&state.validators, state_totals, &state.config) {
        Ok(all) => all,
        Err(_) => {
            return Err(SimError::Arithmetic);
        },
    };
    let mut row = EpochReportRow::open(epoch_id);
    let n: usize = state.validators.len();
    let mut i: usize = 0;
    while i < n
        invariant
            i <= n,
            n == before.len(),
            all@.len() == n,
            state.validators@.len() == n,
            state.config == config,
            row.epoch_id == epoch_id,
            forall|j: int|
                0 <= j < n ==> deltas_match(#[trigger] all@[j], before[j], totals, config),
            forall|j: int|
                0 <= j < i ==> settled_balance(#[trigger] before[j], totals, config)
                    <= u64::MAX,
            forall|j: int|
                0 <= j < i ==> #[trigger] state.validators@[j] == advance(
                    before[j],
                    totals,
                    config,
                ),
            forall|j: int| i <= j < n ==> #[trigger] state.validators@[j] == before[j],
            sums_deltas_of(row, before.take(i as int), totals, config),
        decreases n - i,
    {
        let deltas = all[i];
        let mut validator = state.validators[i];
        proof {
            assert(deltas_match(all@[i as int], before[i as int], totals, config));
            assert(validator == before[i as int]);
            lemma_sum_step(before, head_ffg_reward_of(totals, config), i as int);
            lemma_sum_step(before, head_ffg_penalty_of(totals, config), i as int);
            lemma_sum_step(before, proposer_reward_of(totals, config), i as int);
            lemma_sum_step(before, attester_reward_of(totals, config), i as int);
            lemma_sum_prefix_le(before, head_ffg_reward_of(totals, config), i + 1);
            lemma_sum_prefix_le(before, head_ffg_penalty_of(totals, config), i + 1);
            lemma_sum_prefix_le(before, proposer_reward_of(totals, config), i + 1);
            lemma_sum_prefix_le(before, attester_reward_of(totals, config), i + 1);
            assert(deltas.settle(validator.balance as nat) == settled_balance(
                before[i as int],
                totals,
                config,
            ));
        }
        match validator.apply(&deltas) {
            Ok(_) => {},
            Err(_) => {
                return Err(SimError::Arithmetic);
            },
        }
        match row.aggregate(&deltas) {
            Ok(_) => {},
            Err(_) => {
                return Err(SimError::Arithmetic);
            },
        }
        state.validators.set(i, validator);
        i += 1;
    }
    proof {
        lemma_sum_full(before, head_ffg_reward_of(totals, config));
        lemma_sum_full(before, head_ffg_penalty_of(totals, config));
        lemma_sum_full(before, proposer_reward_of(totals, config));
        lemma_sum_full(before, attester_reward_of(totals, config));
        assert(before.take(n as int) =~= before);
        assert(state.validators@ =~= next_validators(before, totals, config));
    }
    match StateTotals::checked_new(&state) {
        Ok(_) => {},
        Err(_) => {
            return Err(SimError::Arithmetic);
        },
    }
    row.close(&state, state_totals);
    let ghost recorded = output.rows@;
    output.push(row);
    proof {
        assert(output.rows@.drop_last() =~= recorded);
    }
    Ok(state)
}

/// Where no validator is active, the active balance is zero.
pub proof fn lemma_inactive_sum_zero(vs: Seq<Validator>)
    requires
        forall|i: int| 0 <= i < vs.len() ==> !(#[trigger] vs[i]).is_active,
    ensures
        sum_over(vs, active_balance_of()) == 0,
    decreases vs.len(),
{
    if vs.len() > 0 {
        assert(!vs[vs.len() - 1].is_active);
        lemma_inactive_sum_zero(vs.drop_last());
    }
}

/// A state in which no validator is active cannot be processed: the square
/// root of its active balance is zero, and nothing is divided by it.
pub proof fn lemma_all_inactive_fails(vs: Seq<Validator>, totals: StateTotals, config: Config)
    requires
        totals.is_snapshot_of(vs),
        forall|i: int| 0 <= i < vs.len() ==> !(#[trigger] vs[i]).is_active,
    ensures
        totals.sqrt_active_balance == 0,
        !epoch_succeeds(vs, totals, config),
{
    lemma_inactive_sum_zero(vs);
    lemma_floor_sqrt_zero(totals.active_balance as nat, totals.sqrt_active_balance as nat);
}

} // verus!
