use hunter_sim::config::HunterType;
use hunter_sim::enemy::{Enemy, EnemyStats};
use hunter_sim::hunter::{Hunter, HunterStats};
use hunter_sim::simulation::{run_simulation_with_rng, EnemyCatalog, STAGE_LIMIT};
use hunter_sim::SCALE;
use rand::rngs::SmallRng;
use rand::SeedableRng;

fn uniform_catalog(es: EnemyStats) -> EnemyCatalog {
    let entries = (STAGE_LIMIT as usize) + 1;
    EnemyCatalog { regular: vec![es; entries], boss: vec![es; entries] }
}

fn inert_enemy() -> EnemyStats {
    EnemyStats {
        hp: 10 * SCALE,
        power: 0,
        regen: 0,
        special_chance: 0,
        special_damage: 0,
        damage_factor: SCALE,
        evade_chance: 0,
        effect_chance: 0,
        speed: 2 * SCALE,
    }
}

/// A hunter with no revives and no defensive layer dies to the first
/// resolved attack of an enemy whose deterministic damage exceeds max
/// health: the playout ends on stage zero with no kills.
#[test]
fn overwhelming_first_hit_ends_run_at_stage_zero() {
    let mut hunter = HunterStats::zeroed(HunterType::Borge);
    hunter.max_hp = 10 * SCALE;
    hunter.power = 1;
    hunter.speed = 5 * SCALE;
    hunter.loot_mult = SCALE;

    let mut enemy = inert_enemy();
    enemy.hp = 1_000_000 * SCALE;
    enemy.power = 100 * SCALE;
    enemy.speed = SCALE;

    let catalog = uniform_catalog(enemy);
    let mut rng = SmallRng::seed_from_u64(1);
    let result = run_simulation_with_rng(&hunter, &catalog, &mut rng);
    assert_eq!(result.final_stage, 0);
    assert_eq!(result.kills, 0);
    assert_eq!(result.total_loot, 0);
    assert_eq!(result.damage_taken, 100 * SCALE);
    assert_eq!(result.attacks, 0);
}

/// A hunter with certain evasion takes no damage over an entire playout,
/// however hard the enemies hit, and records an evade for every enemy
/// attack that reaches the evade roll.
#[test]
fn certain_evasion_blanks_all_damage() {
    let mut hunter = HunterStats::zeroed(HunterType::Borge);
    hunter.max_hp = 10 * SCALE;
    hunter.power = 1_000 * SCALE;
    hunter.speed = SCALE;
    hunter.evade_chance = SCALE;
    hunter.loot_mult = SCALE;

    let mut enemy = inert_enemy();
    enemy.power = 1_000 * SCALE;
    enemy.speed = SCALE / 2;

    let catalog = uniform_catalog(enemy);
    let mut rng = SmallRng::seed_from_u64(2);
    let result = run_simulation_with_rng(&hunter, &catalog, &mut rng);
    assert_eq!(result.damage_taken, 0);
    assert!(result.evades >= 1);
    assert_eq!(result.final_stage, STAGE_LIMIT + 1);
    // Every stage was fully cleared, so at least one full roster of kills
    // and the per-stage loot sum are in the record.
    assert!(result.kills >= 10);
    assert!(result.total_loot > 0);
}

/// With certain crit chance every attack is a crit: the certain branch of
/// the chance roll is observable end to end.
#[test]
fn certain_crit_chance_makes_every_attack_crit() {
    let mut hunter = HunterStats::zeroed(HunterType::Borge);
    hunter.max_hp = 100 * SCALE;
    hunter.power = 1_000 * SCALE;
    hunter.speed = SCALE;
    hunter.special_chance = SCALE;
    hunter.special_damage = 2 * SCALE;
    hunter.loot_mult = SCALE;

    let catalog = uniform_catalog(inert_enemy());
    let mut rng = SmallRng::seed_from_u64(3);
    let result = run_simulation_with_rng(&hunter, &catalog, &mut rng);
    assert!(result.attacks > 0);
    assert_eq!(result.crits, result.attacks);
}

#[test]
fn take_damage_applies_damage_factor_and_clamps() {
    let mut stats = inert_enemy();
    stats.hp = 8 * SCALE;
    stats.damage_factor = SCALE / 2;
    let mut e = Enemy::new(&stats);
    let applied = e.take_damage(10 * SCALE);
    assert_eq!(applied, 5 * SCALE);
    assert_eq!(e.hp, 3 * SCALE);
    let overkill = e.take_damage(100 * SCALE);
    assert_eq!(overkill, 50 * SCALE);
    assert_eq!(e.hp, 0);
    assert!(e.is_dead());
}

#[test]
fn enemy_regen_heals_living_wounded_only() {
    let mut stats = inert_enemy();
    stats.hp = 10 * SCALE;
    stats.regen = 3 * SCALE;
    let mut e = Enemy::new(&stats);
    e.take_damage(4 * SCALE);
    e.regen_hp();
    assert_eq!(e.hp, 9 * SCALE);
    e.regen_hp();
    assert_eq!(e.hp, 10 * SCALE);
    e.take_damage(100 * SCALE);
    e.regen_hp();
    assert_eq!(e.hp, 0);
}

#[test]
fn boss_caps_and_secondary_channel() {
    let mut stats = inert_enemy();
    stats.special_chance = SCALE;
    stats.special_damage = 9 * SCALE;
    stats.speed = 2 * SCALE;
    let early = Enemy::new_boss(&stats, 100);
    assert!(early.is_boss);
    assert_eq!(early.special_chance, 300_000);
    assert_eq!(early.special_damage, 5_000_000);
    assert!(!early.has_secondary);
    assert_eq!(early.speed2, 0);
    let late = Enemy::new_boss(&stats, 200);
    assert!(late.has_secondary);
    assert_eq!(late.speed2, 2 * SCALE * 18 / 10);
}

#[test]
fn enrage_slows_cadence_toward_floor() {
    let mut stats = inert_enemy();
    stats.speed = 2 * SCALE;
    let mut boss = Enemy::new_boss(&stats, 300);
    boss.add_enrage();
    assert_eq!(boss.enrage_stacks, 1);
    assert_eq!(boss.speed, 2 * SCALE - 2 * SCALE / 200);
    for _ in 0..500 {
        boss.add_enrage();
    }
    assert_eq!(boss.speed, 500_000);
}

#[test]
fn regular_enemies_never_enrage() {
    let mut regular = Enemy::new(&inert_enemy());
    let before = regular;
    regular.add_enrage();
    assert_eq!(regular, before);
}

#[test]
fn revive_restores_scaled_health() {
    let mut stats = HunterStats::zeroed(HunterType::Borge);
    stats.max_hp = 100 * SCALE;
    stats.max_revives = 2;
    stats.death_is_my_companion = 3;
    let mut h = Hunter::from_config(&stats);
    h.hp = 0;
    assert!(h.try_revive());
    // One tenth of max health plus one twentieth per talent level.
    assert_eq!(h.hp, 25 * SCALE);
    h.hp = 0;
    assert!(h.try_revive());
    h.hp = 0;
    assert!(!h.try_revive());
    assert_eq!(h.hp, 0);
}

#[test]
fn regen_tick_consumes_empowered_charges() {
    let mut stats = HunterStats::zeroed(HunterType::Ozzy);
    stats.max_hp = 100 * SCALE;
    stats.regen = 2 * SCALE;
    stats.vectid_elixir = 2;
    let mut h = Hunter::from_config(&stats);
    h.hp = 50 * SCALE;
    h.empowered_regen = 1;
    h.regen_hp();
    // The empowered tick heals regen times 1.3 for two elixir levels.
    assert_eq!(h.hp, 50 * SCALE + 2_600_000);
    assert_eq!(h.empowered_regen, 0);
    let healed_so_far = h.result.regenerated_hp;
    h.regen_hp();
    assert_eq!(h.hp, 50 * SCALE + 2_600_000 + 2 * SCALE);
    assert_eq!(h.result.regenerated_hp, healed_so_far + 2 * SCALE);
}

#[test]
fn regen_never_exceeds_max_health() {
    let mut stats = HunterStats::zeroed(HunterType::Borge);
    stats.max_hp = 10 * SCALE;
    stats.regen = 100 * SCALE;
    let mut h = Hunter::from_config(&stats);
    h.hp = SCALE;
    h.regen_hp();
    assert_eq!(h.hp, 10 * SCALE);
    assert_eq!(h.result.regenerated_hp, 9 * SCALE);
}

#[test]
fn stage_loot_follows_formula() {
    let mut stats = HunterStats::zeroed(HunterType::Knox);
    stats.max_hp = SCALE;
    stats.loot_mult = 2 * SCALE;
    let mut h = Hunter::from_config(&stats);
    h.current_stage = 3;
    // (1 + 0.3) * 2 = 2.6 units of loot.
    assert_eq!(h.calculate_loot(), 2_600_000);
}

#[test]
fn reset_restores_fresh_state() {
    let mut stats = HunterStats::zeroed(HunterType::Borge);
    stats.max_hp = 50 * SCALE;
    let mut h = Hunter::from_config(&stats);
    h.hp = SCALE;
    h.current_stage = 7;
    h.revive_count = 1;
    h.result.kills = 4;
    h.reset();
    assert_eq!(h.hp, 50 * SCALE);
    assert_eq!(h.current_stage, 0);
    assert_eq!(h.revive_count, 0);
    assert_eq!(h.result.kills, 0);
}
