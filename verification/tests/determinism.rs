use hunter_sim::config::HunterType;
use hunter_sim::enemy::EnemyStats;
use hunter_sim::hunter::HunterStats;
use hunter_sim::simulation::{
    run_simulation_with_rng, run_simulations_seeded, EnemyCatalog, STAGE_LIMIT,
};
use hunter_sim::SCALE;
use rand::rngs::SmallRng;
use rand::SeedableRng;

fn uniform_catalog(es: EnemyStats) -> EnemyCatalog {
    let entries = (STAGE_LIMIT as usize) + 1;
    EnemyCatalog { regular: vec![es; entries], boss: vec![es; entries] }
}

fn modest_enemy() -> EnemyStats {
    EnemyStats {
        hp: 20 * SCALE,
        power: 2 * SCALE,
        regen: SCALE / 10,
        special_chance: 100_000,
        special_damage: 1_500_000,
        damage_factor: SCALE,
        evade_chance: 0,
        effect_chance: 0,
        speed: 2 * SCALE,
    }
}

fn modest_hunter() -> HunterStats {
    let mut h = HunterStats::zeroed(HunterType::Borge);
    h.max_hp = 100 * SCALE;
    h.power = 8 * SCALE;
    h.regen = SCALE / 2;
    h.damage_reduction = 100_000;
    h.evade_chance = 50_000;
    h.effect_chance = 40_000;
    h.special_chance = 150_000;
    h.special_damage = 2 * SCALE;
    h.speed = 3 * SCALE;
    h.lifesteal = 20_000;
    h.loot_mult = SCALE;
    h
}

#[test]
fn seeded_run_is_reproducible() {
    let hunter = modest_hunter();
    let catalog = uniform_catalog(modest_enemy());
    let mut rng_a = SmallRng::seed_from_u64(0xC0FFEE);
    let mut rng_b = SmallRng::seed_from_u64(0xC0FFEE);
    let first = run_simulation_with_rng(&hunter, &catalog, &mut rng_a);
    let second = run_simulation_with_rng(&hunter, &catalog, &mut rng_b);
    assert_eq!(first, second);
}

#[test]
fn seeded_batch_is_reproducible() {
    let hunter = modest_hunter();
    let catalog = uniform_catalog(modest_enemy());
    let mut rng_a = SmallRng::seed_from_u64(7);
    let mut rng_b = SmallRng::seed_from_u64(7);
    let batch_a = run_simulations_seeded(&hunter, &catalog, 20, &mut rng_a);
    let batch_b = run_simulations_seeded(&hunter, &catalog, 20, &mut rng_b);
    assert_eq!(batch_a.len(), 20);
    assert_eq!(batch_a, batch_b);
}

#[test]
fn aggregation_of_a_live_batch_is_consistent() {
    let hunter = modest_hunter();
    let catalog = uniform_catalog(modest_enemy());
    let stats = hunter_sim::simulation::run_and_aggregate(&hunter, &catalog, 5);
    assert_eq!(stats.runs, 5);
    assert!(stats.min_stage <= stats.max_stage);
    assert!(stats.min_stage as u64 * SCALE <= stats.avg_stage);
    assert!(stats.avg_stage <= stats.max_stage as u64 * SCALE);
}

#[test]
fn playout_respects_stage_ceiling() {
    let hunter = modest_hunter();
    let catalog = uniform_catalog(modest_enemy());
    let mut rng = SmallRng::seed_from_u64(99);
    let result = run_simulation_with_rng(&hunter, &catalog, &mut rng);
    assert!(result.final_stage <= STAGE_LIMIT + 1);
}
