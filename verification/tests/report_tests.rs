use rewards_sim::simulation::simulate;
use rewards_sim::types::{
    Config, EpochReportRow, MonthlySample, Output, PrintingOutput, Proportion, SimError,
};

fn monthly_config(epochs: i32) -> Config {
    Config {
        epochs,
        total_at_stake_initial: 3200,
        max_effective_balance: 32,
        base_reward_factor: 64,
        base_rewards_per_epoch: 4,
        head_ffg_proportion: Proportion { numerator: 1, denominator: 1 },
        proposer_proportion: Proportion { numerator: 1, denominator: 8 },
        attester_proportion: Proportion { numerator: 7, denominator: 8 },
        printing_output: PrintingOutput::Monthly,
    }
}

#[test]
fn new_output_is_empty() {
    assert_eq!(Output::new().rows.len(), 0);
}

#[test]
fn push_appends_in_order() {
    let mut output = Output::new();
    output.push(EpochReportRow::open(0));
    output.push(EpochReportRow::open(1));
    output.push(EpochReportRow::open(2));
    assert_eq!(output.rows.len(), 3);
    assert_eq!(output.rows[0].epoch_id, 0);
    assert_eq!(output.rows[1].epoch_id, 1);
    assert_eq!(output.rows[2].epoch_id, 2);
}

#[test]
fn a_run_of_120_epochs_has_eleven_months() {
    let config = monthly_config(120);
    let (_, output) = simulate(config).unwrap();
    let samples = output.monthly_samples(&config).unwrap();
    assert_eq!(samples.len(), 11);
    for (k, sample) in samples.iter().enumerate() {
        let month = k as u64 + 1;
        let row = &output.rows[10 * (k + 1)];
        assert_eq!(
            *sample,
            MonthlySample {
                month_number: month as u32,
                total_staked_balance: row.total_staked_balance,
                head_ffg_penalties: row.deltas_head_ffg_penalties,
            }
        );
        assert_eq!(sample.total_staked_balance, 100 * (32 + 17 * (10 * month + 1)));
        let reward_pct =
            (sample.total_staked_balance as f64 - 3200.0) / 3200.0 * 100.0;
        let penalty_pct = sample.head_ffg_penalties as f64 / 3200.0 * 100.0;
        assert_eq!(penalty_pct, 0.0);
        assert_eq!(reward_pct - penalty_pct, (17 * (10 * month + 1)) as f64 / 32.0 * 100.0);
    }
    assert_eq!(samples[0].total_staked_balance, 21900);
    assert_eq!(samples[10].month_number, 11);
}

#[test]
fn a_run_of_twelve_epochs_samples_every_epoch_but_the_first() {
    let mut output = Output::new();
    for i in 0..12 {
        let mut row = EpochReportRow::open(i);
        row.total_staked_balance = 1000 + i as u64;
        row.deltas_head_ffg_penalties = i as u64;
        output.push(row);
    }
    let samples = output.monthly_samples(&monthly_config(12)).unwrap();
    assert_eq!(samples.len(), 11);
    assert_eq!(
        samples[0],
        MonthlySample { month_number: 1, total_staked_balance: 1001, head_ffg_penalties: 1 }
    );
    assert_eq!(
        samples[10],
        MonthlySample { month_number: 11, total_staked_balance: 1011, head_ffg_penalties: 11 }
    );
}

#[test]
fn months_need_whole_twelfths() {
    let output = Output::new();
    assert_eq!(output.monthly_samples(&monthly_config(100)), Err(SimError::Configuration));
    assert_eq!(output.monthly_samples(&monthly_config(0)), Err(SimError::Configuration));
    assert_eq!(output.monthly_samples(&monthly_config(-12)), Err(SimError::Configuration));
}

#[test]
fn a_missing_row_is_a_reporting_index_error() {
    let mut output = Output::new();
    for i in 0..110 {
        output.push(EpochReportRow::open(i));
    }
    assert_eq!(output.monthly_samples(&monthly_config(120)), Err(SimError::ReportingIndex));
    output.push(EpochReportRow::open(110));
    assert_eq!(output.monthly_samples(&monthly_config(120)).unwrap().len(), 11);
}
