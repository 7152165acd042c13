//! A whole run: from the parameters to the final state and the report, one
//! epoch after the other.

use vstd::prelude::*;
use crate::process_epoch::{epoch_succeeds, next_validators, process_epoch, sums_deltas_of};
use crate::types::config::{Config, SimError};
use crate::types::output::{EpochReportRow, Output};
use crate::types::state::{State, StateTotals, lemma_snapshot_deterministic};
use crate::types::validator::Validator;

verus! {

/// The validators a run starts with.
pub open spec fn genesis_validators(config: Config) -> Seq<Validator> {
    Seq::new(config.genesis_validators(), |i: int| Validator::genesis(config))
}

/// The snapshot of `vs`. It is meaningful where the sums over `vs` fit.
pub open spec fn snapshot_of(vs: Seq<Validator>) -> StateTotals {
    choose|t: StateTotals| t.is_snapshot_of(vs)
}

/// The validators after `epochs` epochs from `vs`, or `None` where one of
/// these epochs cannot be processed.
pub open spec fn validators_after(vs: Seq<Validator>, config: Config, epochs: nat) -> Option<
    Seq<Validator>,
>
    decreases epochs,
{
    if epochs == 0 {
        Some(vs)
    } else {
        match validators_after(vs, config, (epochs - 1) as nat) {
            None => None,
            Some(prev) => if epoch_succeeds(prev, snapshot_of(prev), config) {
                Some(next_validators(prev, snapshot_of(prev), config))
            } else {
                None
            },
        }
    }
}

/// `row` is the row of epoch `epoch` of the run that starts from `vs`: it
/// bears the epoch's number, sums the deltas of the validators as the epoch
/// found them, and is closed over the validators as the epoch left them.
pub open spec fn is_row_of_epoch(row: EpochReportRow, vs: Seq<Validator>, config: Config, epoch: int) -> bool {
    let found = validators_after(vs, config, epoch as nat).unwrap();
    let left = validators_after(vs, config, (epoch + 1) as nat).unwrap();
    &&& row.epoch_id == epoch
    &&& sums_deltas_of(row, found, snapshot_of(found), config)
    &&& row.closed_over(left)
}

/// Any snapshot of `vs` is the snapshot of `vs`.
pub proof fn lemma_snapshot_is_chosen(vs: Seq<Validator>, totals: StateTotals)
    requires
        totals.is_snapshot_of(vs),
    ensures
        snapshot_of(vs) == totals,
{
    lemma_snapshot_deterministic(vs, totals, snapshot_of(vs));
}

/// A run that has failed stays failed however many epochs are asked for.
pub proof fn lemma_failure_lasts(vs: Seq<Validator>, config: Config, failed: nat, epochs: nat)
    requires
        validators_after(vs, config, failed) is None,
        failed <= epochs,
    ensures
        validators_after(vs, config, epochs) is None,
    decreases epochs,
{
    if failed < epochs {
        lemma_failure_lasts(vs, config, failed, (epochs - 1) as nat);
    }
}

/// Runs the simulation that `config` describes: checks the parameters,
/// builds the genesis state, and processes the epochs in order, the first
/// being epoch 0. The report then holds one row for each epoch, in order.
/// The run stops at the first epoch that cannot be processed.
#[verifier::loop_isolation(false)]
pub fn simulate(config: Config) -> (r: Result<(State, Output), SimError>)
    ensures
        r is Ok <==> config.wf() && validators_after(
            genesis_validators(config),
            config,
            config.epochs as nat,
        ) is Some,
        !config.wf() <==> r == Err::<(State, Output), SimError>(SimError::Configuration),
        config.wf() && validators_after(
            genesis_validators(config),
            config,
            config.epochs as nat,
        ) is None <==> r == Err::<(State, Output), SimError>(SimError::Arithmetic),
        r is Ok ==> {
            let (state, output) = r.unwrap();
            &&& state.config == config
            &&& Some(state.validators@) == validators_after(
                genesis_validators(config),
                config,
                config.epochs as nat,
            )
            &&& output.rows@.len() == config.epochs
            &&& output.in_epoch_order()
            &&& forall|i: int|
                0 <= i < output.rows@.len() ==> is_row_of_epoch(
                    #[trigger] output.rows@[i],
                    genesis_validators(config),
                    config,
                    i,
                )
        },
{
    if config.validate().is_err() {
        return Err(SimError::Configuration);
    }
    let mut state = State::new(config);
    let mut state_totals = StateTotals::new(&state);
    let mut output = Output::new();
    let ghost genesis = genesis_validators(config);
    proof {
        assert(state.validators@ =~= genesis);
    }
    let mut epoch: i32 = 0;
    while epoch < config.epochs
        invariant
            0 <= epoch <= config.epochs,
            state.config == config,
            state_totals.is_snapshot_of(state.validators@),
            validators_after(genesis, config, epoch as nat) == Some(state.validators@),
            output.rows@.len() == epoch,
            forall|i: int|
                0 <= i < output.rows@.len() ==> is_row_of_epoch(
                    #[trigger] output.rows@[i],
                    genesis,
                    config,
                    i,
                ),
        decreases config.epochs - epoch,
    {
        let ghost found = state.validators@;
        let ghost recorded = output.rows@;
        proof {
            lemma_snapshot_is_chosen(found, state_totals);
        }
        state = match process_epoch(state, &mut state_totals, epoch, &mut output) {
            Ok(next) => next,
            Err(_) => {
                proof {
                    assert(validators_after(genesis, config, (epoch + 1) as nat) is None);
                    lemma_failure_lasts(
                        genesis,
                        config,
                        (epoch + 1) as nat,
                        config.epochs as nat,
                    );
                }
                return Err(SimError::Arithmetic);
            },
        };
        proof {
            assert(validators_after(genesis, config, (epoch + 1) as nat) == Some(
                state.validators@,
            ));
            assert forall|i: int| 0 <= i < output.rows@.len() implies is_row_of_epoch(
                #[trigger] output.rows@[i],
                genesis,
                config,
                i,
            ) by {
                if i < epoch {
                    assert(output.rows@[i] == output.rows@.drop_last()[i]);
                    assert(output.rows@[i] == recorded[i]);
                } else {
                    assert(output.rows@[i] == output.rows@.last());
                }
            }
        }
        epoch += 1;
    }
    Ok((state, output))
}

} // verus!
