use hunter_sim::stats::{AggregatedStats, SimResult};
use hunter_sim::SCALE;

fn run_with_stage(stage: u32) -> SimResult {
    SimResult { final_stage: stage, ..Default::default() }
}

#[test]
fn empty_batch_aggregates_to_zero() {
    let stats = AggregatedStats::from_results(&vec![]);
    assert_eq!(stats.runs, 0);
    assert_eq!(stats.avg_stage, 0);
    assert_eq!(stats.min_stage, 0);
    assert_eq!(stats.max_stage, 0);
    assert_eq!(stats.boss1_survival, 0);
}

#[test]
fn stage_mean_lies_between_extremes() {
    let results = vec![run_with_stage(1), run_with_stage(2), run_with_stage(6)];
    let stats = AggregatedStats::from_results(&results);
    assert_eq!(stats.runs, 3);
    assert_eq!(stats.min_stage, 1);
    assert_eq!(stats.max_stage, 6);
    assert_eq!(stats.avg_stage, 3 * SCALE);
    assert!(stats.min_stage as u64 * SCALE <= stats.avg_stage);
    assert!(stats.avg_stage <= stats.max_stage as u64 * SCALE);
}

#[test]
fn milestone_rates_equal_the_passing_fraction() {
    let results = vec![run_with_stage(50), run_with_stage(150), run_with_stage(250)];
    let stats = AggregatedStats::from_results(&results);
    assert_eq!(stats.boss1_survival, 2 * SCALE / 3);
    assert_eq!(stats.boss2_survival, SCALE / 3);
    assert_eq!(stats.boss3_survival, 0);
    assert_eq!(stats.boss4_survival, 0);
    assert_eq!(stats.boss5_survival, 0);
    // None of the runs ended exactly on a boss stage.
    assert_eq!(stats.survival_rate, SCALE);
}

#[test]
fn boss_stage_deaths_lower_the_survival_rate() {
    let results = vec![
        run_with_stage(100),
        run_with_stage(200),
        run_with_stage(123),
        run_with_stage(0),
    ];
    let stats = AggregatedStats::from_results(&results);
    // Two of four runs died exactly on a boss stage; stage zero is exempt.
    assert_eq!(stats.survival_rate, SCALE / 2);
}

#[test]
fn stage_deviation_matches_hand_computation() {
    let same = vec![run_with_stage(4), run_with_stage(4), run_with_stage(4)];
    assert_eq!(AggregatedStats::from_results(&same).std_stage, 0);
    let split = vec![run_with_stage(0), run_with_stage(4)];
    let stats = AggregatedStats::from_results(&split);
    assert_eq!(stats.avg_stage, 2 * SCALE);
    // Each run deviates by two stages, so the deviation is exactly two.
    assert_eq!(stats.std_stage, 2 * SCALE);
}

#[test]
fn field_means_divide_batch_totals() {
    let a = SimResult {
        final_stage: 10,
        elapsed_time: 9 * SCALE,
        damage: 30 * SCALE,
        damage_taken: 4 * SCALE,
        kills: 12,
        attacks: 7,
        total_loot: 10 * SCALE,
        ..Default::default()
    };
    let b = SimResult {
        final_stage: 20,
        elapsed_time: 3 * SCALE,
        damage: 10 * SCALE,
        damage_taken: 2 * SCALE,
        kills: 4,
        attacks: 8,
        total_loot: 2 * SCALE,
        ..Default::default()
    };
    let stats = AggregatedStats::from_results(&vec![a, b]);
    assert_eq!(stats.avg_time, 6 * SCALE);
    assert_eq!(stats.avg_damage, 20 * SCALE);
    assert_eq!(stats.avg_damage_taken, 3 * SCALE);
    assert_eq!(stats.avg_kills, 8 * SCALE);
    assert_eq!(stats.avg_loot, 6 * SCALE);
    // Attack means keep sub-integer precision: fifteen attacks over two runs.
    assert_eq!(stats.avg_attacks, 7_500_000);
    // Loot per hour: 10 loot in 9 s and 2 loot in 3 s, averaged.
    let lph_a = 10 * SCALE as u128 * 3_600_000_000u128 / (9 * SCALE as u128);
    let lph_b = 2 * SCALE as u128 * 3_600_000_000u128 / (3 * SCALE as u128);
    assert_eq!(stats.avg_loot_per_hour as u128, (lph_a + lph_b) / 2);
}
