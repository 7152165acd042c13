//! The report: one row per processed epoch, in epoch order, and the
//! month-boundary samples taken from it.

use std::time::{Duration, Instant};
use vstd::prelude::*;
use crate::summation::sum_over;
use crate::types::config::{Config, SimError, MONTHS_PER_YEAR};
use crate::types::state::{State, StateTotals, active_balance_of, active_count_of, balance_of,
    is_max_balance, is_min_balance, totals_fit};
use crate::types::validator::{Deltas, Validator};

verus! {

/// `std::time::Instant`, a point on the monotonic clock. Nothing is known of
/// what a value holds.
#[verifier::external_type_specification]
#[verifier::external_body]
pub struct ExInstant(Instant);

/// Calls `Instant::now`. Trusted: nothing is claimed of the instant returned.
#[verifier::external_body]
fn clock_now() -> (t: Instant) {
    Instant::now()
}

/// Calls `Instant::elapsed`. Trusted: nothing is claimed of the duration
/// returned.
#[verifier::external_body]
fn clock_elapsed(since: &Instant) -> (d: Duration) {
    since.elapsed()
}

/// Calls `Duration::as_micros`. Trusted: nothing is claimed of the number
/// returned.
#[verifier::external_body]
fn duration_micros(d: &Duration) -> (micros: u128) {
    d.as_micros()
}

/// The summary of one epoch.
pub struct EpochReportRow {
    pub epoch_id: i32,
    pub deltas_head_ffg_rewards: u64,
    pub deltas_head_ffg_penalties: u64,
    pub deltas_proposer_rewards: u64,
    pub deltas_attester_rewards: u64,
    pub total_staked_balance: u64,
    pub total_effective_balance: u64,
    pub max_balance: u64,
    pub min_balance: u64,
    pub total_validators: u64,
    pub total_active_validators: u64,
    pub time_started: Instant,
    pub time_elapsed: u128,
}

/// What the monthly report reads from the row at a month boundary.
#[derive(Clone, Copy, Debug, PartialEq, Eq, Structural)]
pub struct MonthlySample {
    /// The month, counted from 1.
    pub month_number: u32,
    pub total_staked_balance: u64,
    pub head_ffg_penalties: u64,
}

/// The rows of the epochs processed so far, oldest first.
pub struct Output {
    pub rows: Vec<EpochReportRow>,
}

impl EpochReportRow {
    /// The four sums of deltas, each as a natural number.
    pub open spec fn delta_sums(self) -> (nat, nat, nat, nat) {
        (
            self.deltas_head_ffg_rewards as nat,
            self.deltas_head_ffg_penalties as nat,
            self.deltas_proposer_rewards as nat,
            self.deltas_attester_rewards as nat,
        )
    }

    /// The row holds the aggregates of `vs` as they stand at the close of
    /// the epoch.
    pub open spec fn closed_over(self, vs: Seq<Validator>) -> bool {
        &&& self.total_staked_balance == sum_over(vs, balance_of())
        &&& self.total_effective_balance == sum_over(vs, active_balance_of())
        &&& is_max_balance(vs, self.max_balance)
        &&& is_min_balance(vs, self.min_balance)
        &&& self.total_validators == vs.len()
        &&& self.total_active_validators == sum_over(vs, active_count_of())
    }

    /// What the monthly report reads from this row for month `month`.
    pub open spec fn sample(self, month: u32) -> MonthlySample {
        MonthlySample {
            month_number: month,
            total_staked_balance: self.total_staked_balance,
            head_ffg_penalties: self.deltas_head_ffg_penalties,
        }
    }

    /// Starts the row of epoch `id`: every sum and aggregate is zero, and
    /// the clock starts.
    pub fn open(id: i32) -> (row: EpochReportRow)
        ensures
            row.epoch_id == id,
            row.delta_sums() == (0nat, 0nat, 0nat, 0nat),
            row.total_staked_balance == 0,
            row.total_effective_balance == 0,
            row.max_balance == 0,
            row.min_balance == 0,
            row.total_validators == 0,
            row.total_active_validators == 0,
            row.time_elapsed == 0,
    {
        EpochReportRow {
            epoch_id: id,
            deltas_head_ffg_rewards: 0,
            deltas_head_ffg_penalties: 0,
            deltas_proposer_rewards: 0,
            deltas_attester_rewards: 0,
            total_staked_balance: 0,
            total_effective_balance: 0,
            max_balance: 0,
            min_balance: 0,
            total_validators: 0,
            total_active_validators: 0,
            time_started: clock_now(),
            time_elapsed: 0,
        }
    }

    /// Adds one validator's deltas to the row's sums. Where a sum would not
    /// fit, the row stays as it is and the call fails.
    pub fn aggregate(&mut self, deltas: &Deltas) -> (r: Result<(), SimError>)
        ensures
            r is Ok <==> {
                &&& old(self).deltas_head_ffg_rewards + deltas.head_ffg_reward <= u64::MAX
                &&& old(self).deltas_head_ffg_penalties + deltas.head_ffg_penalty <= u64::MAX
                &&& old(self).deltas_proposer_rewards + deltas.proposer_reward <= u64::MAX
                &&& old(self).deltas_attester_rewards + deltas.attester_reward <= u64::MAX
            },
            r is Ok ==> *final(self) == (EpochReportRow {
                deltas_head_ffg_rewards: (old(self).deltas_head_ffg_rewards
                    + deltas.head_ffg_reward) as u64,
                deltas_head_ffg_penalties: (old(self).deltas_head_ffg_penalties
                    + deltas.head_ffg_penalty) as u64,
                deltas_proposer_rewards: (old(self).deltas_proposer_rewards
                    + deltas.proposer_reward) as u64,
                deltas_attester_rewards: (old(self).deltas_attester_rewards
                    + deltas.attester_reward) as u64,
                ..*old(self)
            }),
            r is Err ==> *final(self) == *old(self) && r == Err::<(), SimError>(
                SimError::Arithmetic,
            ),
    {
        let rewards = self.deltas_head_ffg_rewards.checked_add(deltas.head_ffg_reward);
        let penalties = self.deltas_head_ffg_penalties.checked_add(deltas.head_ffg_penalty);
        let proposer = self.deltas_proposer_rewards.checked_add(deltas.proposer_reward);
        let attester = self.deltas_attester_rewards.checked_add(deltas.attester_reward);
        match (rewards, penalties, proposer, attester) {
            (Some(a), Some(b), Some(c), Some(d)) => {
                self.deltas_head_ffg_rewards = a;
                self.deltas_head_ffg_penalties = b;
                self.deltas_proposer_rewards = c;
                self.deltas_attester_rewards = d;
                Ok(())
            },
            _ => Err(SimError::Arithmetic),
        }
    }

    /// Closes the row over the state as the epoch left it: the snapshot is
    /// taken anew, its aggregates are copied into the row, and the clock is
    /// read. The sums of deltas and the epoch's number stay.
    pub fn close(&mut self, state: &State, state_totals: &mut StateTotals)
        requires
            totals_fit(state.validators@),
        ensures
            final(state_totals).is_snapshot_of(state.validators@),
            final(self).closed_over(state.validators@),
            final(self).epoch_id == old(self).epoch_id,
            final(self).delta_sums() == old(self).delta_sums(),
    {
        *state_totals = StateTotals::new(state);
        self.total_staked_balance = state_totals.staked_balance;
        self.total_effective_balance = state_totals.active_balance;
        self.max_balance = state_totals.max_balance;
        self.min_balance = state_totals.min_balance;
        self.total_validators = state.validators.len() as u64;
        self.total_active_validators = state_totals.active_validators;
        let elapsed = clock_elapsed(&self.time_started);
        self.time_elapsed = duration_micros(&elapsed);
    }
}

impl Output {
    /// The rows are numbered one after the other, upwards from the first.
    pub open spec fn in_epoch_order(self) -> bool {
        forall|i: int|
            0 <= i < self.rows@.len() ==> (#[trigger] self.rows@[i]).epoch_id
                == self.rows@[0].epoch_id + i
    }

    /// The number of epochs in a month of a run of `epochs` epochs.
    pub open spec fn epochs_per_month(epochs: i32) -> int {
        epochs as int / MONTHS_PER_YEAR as int
    }

    /// An empty report.
    pub fn new() -> (out: Output)
        ensures
            out.rows@.len() == 0,
            out.in_epoch_order(),
    {
        let rows: Vec<EpochReportRow> = Vec::new();
        Output { rows }
    }

    /// Appends a row after those recorded so far.
    pub fn push(&mut self, row: EpochReportRow)
        ensures
            final(self).rows@ == old(self).rows@.push(row),
    {
        self.rows.push(row);
    }

    /// Takes the samples of the monthly report: one at each month boundary
    /// that lies before the end of the run, which makes eleven of them. A
    /// run without whole months is refused, and so is a report that has no
    /// row at a boundary.
    pub fn monthly_samples(&self, config: &Config) -> (r: Result<Vec<MonthlySample>, SimError>)
        ensures
            r is Ok <==> config.epochs > 0 && config.epochs % MONTHS_PER_YEAR == 0
                && self.rows@.len() > (MONTHS_PER_YEAR - 1) * Self::epochs_per_month(
                config.epochs,
            ),
            config.epochs <= 0 || config.epochs % MONTHS_PER_YEAR != 0 <==> r == Err::<
                Vec<MonthlySample>,
                SimError,
            >(SimError::Configuration),
            config.epochs > 0 && config.epochs % MONTHS_PER_YEAR == 0 && self.rows@.len() <= (
            MONTHS_PER_YEAR - 1) * Self::epochs_per_month(config.epochs) <==> r == Err::<
                Vec<MonthlySample>,
                SimError,
            >(SimError::ReportingIndex),
            r is Ok ==> {
                let samples = r.unwrap()@;
                &&& samples.len() == MONTHS_PER_YEAR - 1
                &&& forall|k: int|
                    0 <= k < samples.len() ==> #[trigger] samples[k] == self.rows@[(k + 1)
                        * Self::epochs_per_month(config.epochs)].sample((k + 1) as u32)
            },
    {
        if config.epochs <= 0 || config.epochs % MONTHS_PER_YEAR != 0 {
            return Err(SimError::Configuration);
        }
        let epochs_per_month: i32 = config.epochs / MONTHS_PER_YEAR;
        let mut samples: Vec<MonthlySample> = Vec::new();
        let mut month: i32 = 1;
        while month < MONTHS_PER_YEAR
            invariant
                1 <= month <= MONTHS_PER_YEAR,
                MONTHS_PER_YEAR == 12,
                epochs_per_month == Self::epochs_per_month(config.epochs),
                1 <= epochs_per_month,
                12 * epochs_per_month == config.epochs,
                samples@.len() == month - 1,
                (month - 1) * epochs_per_month < self.rows@.len() || month == 1,
                forall|k: int|
                    0 <= k < samples@.len() ==> #[trigger] samples@[k] == self.rows@[(k + 1)
                        * epochs_per_month].sample((k + 1) as u32),
            decreases MONTHS_PER_YEAR - month,
        {
            assert(0 < month * epochs_per_month <= 11 * epochs_per_month) by (nonlinear_arith)
                requires
                    1 <= month <= 11,
                    1 <= epochs_per_month,
            ;
            let epoch: i32 = month * epochs_per_month;
            if epoch as usize >= self.rows.len() {
                return Err(SimError::ReportingIndex);
            }
            let row = &self.rows[epoch as usize];
            samples.push(
                MonthlySample {
                    month_number: month as u32,
                    total_staked_balance: row.total_staked_balance,
                    head_ffg_penalties: row.deltas_head_ffg_penalties,
                },
            );
            month += 1;
        }
        Ok(samples)
    }
}

/// A report in epoch order stays in epoch order when the row of the epoch
/// after its last is appended.
pub proof fn lemma_push_keeps_epoch_order(before: Output, after: Output)
    requires
        before.in_epoch_order(),
        after.rows@.len() == before.rows@.len() + 1,
        after.rows@.drop_last() == before.rows@,
        before.rows@.len() > 0 ==> after.rows@.last().epoch_id == before.rows@.last().epoch_id
            + 1,
    ensures
        after.in_epoch_order(),
{
    assert forall|i: int| 0 <= i < after.rows@.len() implies (#[trigger] after.rows@[i]).epoch_id
        == after.rows@[0].epoch_id + i by {
        if i < before.rows@.len() {
            assert(after.rows@[i] == after.rows@.drop_last()[i]);
            assert(after.rows@[0] == after.rows@.drop_last()[0]);
        } else if before.rows@.len() > 0 {
            assert(after.rows@[0] == after.rows@.drop_last()[0]);
            assert(before.rows@.last() == before.rows@[before.rows@.len() - 1]);
        }
    }
}

} // verus!
