//! The combat core: ability resolution and the stage-progression loop.
//!
//! One playout interleaves timed actor actions through the event queue,
//! resolves each action's stochastic effects here, and repeats across the
//! enemy roster of every stage until the hunter's terminal death or the
//! stage ceiling.  All randomness flows through `crate::rng::roll`, whose
//! contract pins the impossible and the certain outcome, so the guarantees
//! below hold whatever the draws were.

use vstd::prelude::*;
use crate::SCALE;
use crate::enemy::{Enemy, EnemyStats, ENRAGE_CRIT_THRESHOLD};
use crate::events::{is_first_min, key_le, Action, Event, EventQueue};
use crate::fixed::{
    fp_mul, fp_mul_spec, lemma_fp_mul_ge_one, lemma_fp_mul_le_left, lemma_fp_mul_le_one, min64, min_spec, sat_add,
    sat_add_spec, sat_mul, sat_mul_spec, sat_sub, sat_sub_spec,
};
use crate::hunter::{Hunter, HunterStats};
use crate::rng::{rng_from_entropy, roll};
use crate::stats::SimResult;

verus! {

/// A playout forcibly ends once the stage counter exceeds this ceiling.
pub const STAGE_LIMIT: u32 = 1000;

/// Every `BOSS_INTERVAL`-th stage (except stage zero) hosts a boss.
pub const BOSS_INTERVAL: u32 = 100;

/// Number of regular enemies on an ordinary stage.
pub const ROSTER_SIZE: usize = 10;

/// Hard ceiling on drained events per playout: converts a stalemate that
/// could run forever into a deterministic, normal end.
pub const EVENT_LIMIT: u64 = 20_000_000;

/// Event priorities: the hunter acts before the enemy, regeneration last.
pub const PRIO_HUNTER: u8 = 1;

pub const PRIO_ENEMY: u8 = 2;

pub const PRIO_REGEN: u8 = 3;

// Per-level effect rates, micro.
/// Instant spawn damage per level: a tenth of hunter power.
pub const POG_RATE: u64 = 100_000;

/// Enemy stat reduction per omen level.
pub const OMEN_DEFEAT_RATE: u64 = 20_000;

/// Enemy regeneration reduction per snek level.
pub const SNEK_RATE: u64 = 88_000;

/// Enemy regeneration removed per medusa level, as a share of hunter max HP.
pub const MEDUSA_RATE: u64 = 50_000;

/// On-kill heal per advantage level, as a share of max HP.
pub const UA_HEAL_RATE: u64 = 20_000;

/// On-kill heal per hunt level, as a share of max HP.
pub const LOTH_HEAL_RATE: u64 = 10_000;

/// Empowered regeneration ticks granted by the elixirs.
pub const EMPOWERED_TICKS: u64 = 5;

/// Base cap on hundred-souls stacks.
pub const SOULS_CAP_BASE: u64 = 100;

/// Extra stack cap per amplification level.
pub const SOULS_CAP_RATE: u64 = 10;

/// Power bonus per revive spent, per deal-with-death level.
pub const DWD_POWER_RATE: u64 = 20_000;

/// Damage-reduction bonus per revive spent, per deal-with-death level.
pub const DWD_DR_RATE: u64 = 16_000;

/// Power bonus per missing-health percent, per born-for-battle level.
pub const BFB_RATE: u64 = 1_000;

/// Base power bonus per hundred-souls stack.
pub const SOULS_BASE_RATE: u64 = 5_000;

/// Amplification of the per-stack bonus per level.
pub const SOUL_AMP_RATE: u64 = 10_000;

/// Crit-chance bonus per revive spent, per cycle-of-death level.
pub const COD_CRIT_CHANCE_RATE: u64 = 23_000;

/// Crit-damage bonus per revive spent, per cycle-of-death level.
pub const COD_CRIT_DMG_RATE: u64 = 20_000;

/// Bonus damage per consumed decay stack.
pub const DECAY_STACK_RATE: u64 = 30_000;

/// Share of current enemy health dealt per omen-of-decay level.
pub const OMEN_DECAY_RATE: u64 = 8_000;

/// On bosses the decay share is cut to a tenth.
pub const BOSS_OMEN_FACTOR: u64 = 100_000;

/// Base multistrike chance.
pub const MULTISTRIKE_BASE: u64 = 100_000;

/// Additional multistrike chance per level.
pub const MULTISTRIKE_RATE: u64 = 50_000;

/// A multistrike deals half the base hit.
pub const MULTISTRIKE_DAMAGE: u64 = 500_000;

/// Echo shot damage per level, as a share of base power.
pub const ECHO_RATE: u64 = 50_000;

/// Cap on accumulated decay stacks.
pub const CRIPPLING_CAP: u64 = 100;

/// Crit damage taken is reduced by this much per analysis level.
pub const WEAKSPOT_RATE: u64 = 110_000;

/// The crit reduction never exceeds ninety-nine percent.
pub const WEAKSPOT_CAP: u64 = 990_000;

/// The hunter's damage reduction is hard-capped at ninety-five percent.
pub const DR_CAP: u64 = 950_000;

/// The reactive barrier triggers below this share of max health.
pub const HELLTOUCH_THRESHOLD: u64 = 300_000;

/// The barrier restores this share of max health per level.
pub const HELLTOUCH_RATE: u64 = 10_000;

/// Stun duration per thousand-needles level, micro-seconds.
pub const NEEDLES_RATE: u64 = 50_000;

/// Chance per armory level that a salvo gains three extra rounds.
pub const SPA_RATE: u64 = 20_000;

/// Extra rounds granted by an armory proc.
pub const SPA_BONUS: u64 = 3;

/// Chance per ghost-bullets level of one extra projectile.
pub const GHOST_RATE: u64 = 66_700;

/// Chance per dance level to gain a trickster charge on evade.
pub const DANCE_RATE: u64 = 150_000;

/// Damage is credited in these spec-level summaries of an enemy hit.
pub open spec fn effective_dr_spec(h: Hunter) -> u64 {
    if h.stats.deal_with_death > 0 && h.revive_count > 0 {
        sat_add_spec(
            h.stats.damage_reduction,
            sat_mul_spec(
                sat_mul_spec(h.stats.deal_with_death as u64, DWD_DR_RATE),
                h.revive_count as u64,
            ),
        )
    } else {
        h.stats.damage_reduction
    }
}

/// The mitigated share of an unblocked enemy hit of `dmg`.
pub open spec fn mitigated_spec(h: Hunter, dmg: u64) -> u64 {
    fp_mul_spec(dmg, min_spec(effective_dr_spec(h), DR_CAP))
}

/// The health the hunter loses from an unblocked enemy hit of `dmg`.
pub open spec fn hit_taken_spec(h: Hunter, dmg: u64) -> u64 {
    (dmg - mitigated_spec(h, dmg)) as u64
}

/// The chip damage a spawn deals, before the enemy's damage factor.
pub open spec fn spawn_chip_spec(h: Hunter) -> u64 {
    fp_mul_spec(h.stats.power, sat_mul_spec(h.stats.presence_of_god as u64, POG_RATE))
}

/// The enemy exactly as the instant on-spawn effects leave it: chip damage,
/// then the omen stat scaling, then the two regeneration debuffs.
pub open spec fn spawned_enemy_spec(h: Hunter, e: Enemy) -> Enemy {
    let e1 = if h.stats.presence_of_god > 0 {
        Enemy { hp: sat_sub_spec(e.hp, fp_mul_spec(spawn_chip_spec(h), e.damage_factor)), ..e }
    } else {
        e
    };
    let e2 = if h.stats.omen_of_defeat > 0 {
        let red = sat_sub_spec(
            SCALE,
            sat_mul_spec(h.stats.omen_of_defeat as u64, OMEN_DEFEAT_RATE),
        );
        Enemy {
            power: fp_mul_spec(e1.power, red),
            base_power: fp_mul_spec(e1.base_power, red),
            hp: fp_mul_spec(e1.hp, red),
            max_hp: fp_mul_spec(e1.max_hp, red),
            ..e1
        }
    } else {
        e1
    };
    let e3 = if h.stats.soul_of_snek > 0 {
        Enemy {
            regen: fp_mul_spec(
                e2.regen,
                sat_sub_spec(SCALE, sat_mul_spec(h.stats.soul_of_snek as u64, SNEK_RATE)),
            ),
            ..e2
        }
    } else {
        e2
    };
    if h.stats.gift_of_medusa > 0 {
        Enemy {
            regen: sat_sub_spec(
                e3.regen,
                fp_mul_spec(
                    h.stats.max_hp,
                    sat_mul_spec(h.stats.gift_of_medusa as u64, MEDUSA_RATE),
                ),
            ),
            ..e3
        }
    } else {
        e3
    }
}

/// Apply instant on-spawn effects: guaranteed chip damage scaled by
/// presence-of-god, and enemy stat or regeneration debuffs scaled by the
/// hunter's omen, snek and medusa levels.  Deterministic: no draws, so both
/// final states are pinned exactly.
fn apply_spawn_effects(hunter: &mut Hunter, enemy: &mut Enemy)
    requires
        old(hunter).wf(),
        old(enemy).wf(),
    ensures
        final(hunter).wf(),
        final(enemy).wf(),
        *final(enemy) == spawned_enemy_spec(*old(hunter), *old(enemy)),
        *final(hunter) == (Hunter {
            result: (SimResult {
                damage: if old(hunter).stats.presence_of_god > 0 {
                    sat_add_spec(old(hunter).result.damage, spawn_chip_spec(*old(hunter)))
                } else {
                    old(hunter).result.damage
                },
                ..old(hunter).result
            }),
            ..*old(hunter)
        }),
{
    if hunter.stats.presence_of_god > 0 {
        let pog_damage = fp_mul(
            hunter.stats.power,
            sat_mul(hunter.stats.presence_of_god as u64, POG_RATE),
        );
        let _ = enemy.take_damage(pog_damage);
        hunter.result.damage = sat_add(hunter.result.damage, pog_damage);
    }
    if hunter.stats.omen_of_defeat > 0 {
        let reduction = sat_sub(
            SCALE,
            sat_mul(hunter.stats.omen_of_defeat as u64, OMEN_DEFEAT_RATE),
        );
        proof {
            lemma_fp_mul_le_left(enemy.hp, enemy.max_hp, reduction);
        }
        enemy.power = fp_mul(enemy.power, reduction);
        enemy.base_power = fp_mul(enemy.base_power, reduction);
        enemy.hp = fp_mul(enemy.hp, reduction);
        enemy.max_hp = fp_mul(enemy.max_hp, reduction);
    }
    if hunter.stats.soul_of_snek > 0 {
        let regen_factor = sat_sub(
            SCALE,
            sat_mul(hunter.stats.soul_of_snek as u64, SNEK_RATE),
        );
        enemy.regen = fp_mul(enemy.regen, regen_factor);
    }
    if hunter.stats.gift_of_medusa > 0 {
        let anti_regen = fp_mul(
            hunter.stats.max_hp,
            sat_mul(hunter.stats.gift_of_medusa as u64, MEDUSA_RATE),
        );
        enemy.regen = sat_sub(enemy.regen, anti_regen);
    }
}

/// The hunter exactly as the on-kill procs leave it, given which of the
/// three independent rolls succeeded: a trickster charge, the advantage heal
/// (with its empowered-regeneration grant), and the hunt heal.
pub open spec fn on_kill_state_spec(h: Hunter, trick: bool, ua: bool, loth: bool) -> Hunter {
    let h1 = if trick {
        Hunter {
            trickster_charges: sat_add_spec(h.trickster_charges, 1),
            result: (SimResult {
                effect_procs: sat_add_spec(h.result.effect_procs, 1),
                ..h.result
            }),
            ..h
        }
    } else {
        h
    };
    let h2 = if ua {
        let heal = fp_mul_spec(
            h.stats.max_hp,
            sat_mul_spec(h.stats.unfair_advantage as u64, UA_HEAL_RATE),
        );
        let hb = Hunter {
            hp: min_spec(sat_add_spec(h1.hp, heal), h1.stats.max_hp),
            result: (SimResult {
                unfair_advantage_healing: sat_add_spec(h1.result.unfair_advantage_healing, heal),
                effect_procs: sat_add_spec(h1.result.effect_procs, 1),
                ..h1.result
            }),
            ..h1
        };
        if h.stats.vectid_elixir > 0 {
            Hunter { empowered_regen: sat_add_spec(hb.empowered_regen, EMPOWERED_TICKS), ..hb }
        } else {
            hb
        }
    } else {
        h1
    };
    if loth {
        let heal = fp_mul_spec(
            h.stats.max_hp,
            sat_mul_spec(h.stats.life_of_the_hunt as u64, LOTH_HEAL_RATE),
        );
        Hunter {
            hp: min_spec(sat_add_spec(h2.hp, heal), h2.stats.max_hp),
            result: (SimResult {
                life_of_the_hunt_healing: sat_add_spec(h2.result.life_of_the_hunt_healing, heal),
                effect_procs: sat_add_spec(h2.result.effect_procs, 1),
                ..h2.result
            }),
            ..h2
        }
    } else {
        h2
    }
}

/// Apply on-kill instant procs: independent chance rolls for a trickster
/// charge, an advantage heal (which can also empower regeneration), and a
/// hunt heal.  The final state is exactly `on_kill_state_spec` for some
/// outcome of the three rolls; each can succeed only if its mechanic is
/// owned and the effect chance is nonzero.
fn on_kill(hunter: &mut Hunter, rng: &mut rand::rngs::SmallRng)
    requires
        old(hunter).wf(),
    ensures
        final(hunter).wf(),
        *final(hunter) == (Hunter {
            hp: final(hunter).hp,
            trickster_charges: final(hunter).trickster_charges,
            empowered_regen: final(hunter).empowered_regen,
            result: final(hunter).result,
            ..*old(hunter)
        }),
        final(hunter).hp >= old(hunter).hp,
        final(hunter).result == (SimResult {
            effect_procs: final(hunter).result.effect_procs,
            unfair_advantage_healing: final(hunter).result.unfair_advantage_healing,
            life_of_the_hunt_healing: final(hunter).result.life_of_the_hunt_healing,
            ..old(hunter).result
        }),
        old(hunter).stats.effect_chance == 0 ==> *final(hunter) == *old(hunter),
        exists|trick: bool, ua: bool, loth: bool|
            {
                &&& trick ==> old(hunter).stats.tricksters_boon > 0 && old(
                    hunter,
                ).stats.effect_chance > 0
                &&& ua ==> old(hunter).stats.unfair_advantage > 0 && old(
                    hunter,
                ).stats.effect_chance > 0
                &&& loth ==> old(hunter).stats.life_of_the_hunt > 0 && old(
                    hunter,
                ).stats.effect_chance > 0
                &&& *final(hunter) == on_kill_state_spec(*old(hunter), trick, ua, loth)
            },
{
    let ghost pre = *hunter;
    let trick = hunter.stats.tricksters_boon > 0 && roll(rng, hunter.stats.effect_chance / 2);
    if trick {
        hunter.trickster_charges = sat_add(hunter.trickster_charges, 1);
        hunter.result.effect_procs = sat_add(hunter.result.effect_procs, 1);
    }
    let ua = hunter.stats.unfair_advantage > 0 && roll(rng, hunter.stats.effect_chance);
    if ua {
        let heal_amount = fp_mul(
            hunter.stats.max_hp,
            sat_mul(hunter.stats.unfair_advantage as u64, UA_HEAL_RATE),
        );
        hunter.hp = min64(sat_add(hunter.hp, heal_amount), hunter.stats.max_hp);
        hunter.result.unfair_advantage_healing = sat_add(
            hunter.result.unfair_advantage_healing,
            heal_amount,
        );
        hunter.result.effect_procs = sat_add(hunter.result.effect_procs, 1);
        if hunter.stats.vectid_elixir > 0 {
            hunter.empowered_regen = sat_add(hunter.empowered_regen, EMPOWERED_TICKS);
        }
    }
    let loth = hunter.stats.life_of_the_hunt > 0 && roll(rng, hunter.stats.effect_chance);
    if loth {
        let heal_amount = fp_mul(
            hunter.stats.max_hp,
            sat_mul(hunter.stats.life_of_the_hunt as u64, LOTH_HEAL_RATE),
        );
        hunter.hp = min64(sat_add(hunter.hp, heal_amount), hunter.stats.max_hp);
        hunter.result.life_of_the_hunt_healing = sat_add(
            hunter.result.life_of_the_hunt_healing,
            heal_amount,
        );
        hunter.result.effect_procs = sat_add(hunter.result.effect_procs, 1);
    }
    proof {
        assert(*hunter == on_kill_state_spec(pre, trick, ua, loth));
    }
}

/// The level-scaled cap on hundred-souls stacks.
pub open spec fn souls_cap_spec(h: Hunter) -> u64 {
    sat_add_spec(SOULS_CAP_BASE, sat_mul_spec(h.stats.soul_amplification as u64, SOULS_CAP_RATE))
}

/// The hunter exactly as the stage-clear proc leaves it: one stack and one
/// proc if the roll succeeded, untouched otherwise.
pub open spec fn on_stage_state_spec(h: Hunter, gained: bool) -> Hunter {
    if gained {
        Hunter {
            hundred_souls_stacks: (h.hundred_souls_stacks + 1) as u64,
            result: (SimResult {
                effect_procs: sat_add_spec(h.result.effect_procs, 1),
                ..h.result
            }),
            ..h
        }
    } else {
        h
    }
}

/// Apply on-stage-clear instant procs: a chance, at two and a half times the
/// effect chance, to gain one hundred-souls stack up to a level-scaled cap.
/// Either nothing changes, or exactly one stack and one proc are credited,
/// and a stack is gained only below the cap with the mechanic owned.
fn on_stage_complete(hunter: &mut Hunter, rng: &mut rand::rngs::SmallRng)
    requires
        old(hunter).wf(),
    ensures
        final(hunter).wf(),
        old(hunter).stats.effect_chance == 0 ==> *final(hunter) == *old(hunter),
        exists|gained: bool|
            {
                &&& gained ==> old(hunter).stats.calypsos_advantage > 0 && old(
                    hunter,
                ).stats.effect_chance > 0 && old(hunter).hundred_souls_stacks < souls_cap_spec(
                    *old(hunter),
                )
                &&& *final(hunter) == on_stage_state_spec(*old(hunter), gained)
            },
{
    let ghost pre = *hunter;
    let mut gained = false;
    if hunter.stats.calypsos_advantage > 0 {
        let boosted_chance = fp_mul(hunter.stats.effect_chance, 2_500_000);
        if roll(rng, boosted_chance) {
            let max_stacks = sat_add(
                SOULS_CAP_BASE,
                sat_mul(hunter.stats.soul_amplification as u64, SOULS_CAP_RATE),
            );
            if hunter.hundred_souls_stacks < max_stacks {
                gained = true;
            }
        }
    }
    if gained {
        hunter.hundred_souls_stacks = hunter.hundred_souls_stacks + 1;
        hunter.result.effect_procs = sat_add(hunter.result.effect_procs, 1);
    }
    proof {
        assert(*hunter == on_stage_state_spec(pre, gained));
    }
}

/// The hunter's health after an unblocked hit of `actual` has landed and
/// the reactive barrier, if owned and tripped, has answered.
pub open spec fn post_hit_hp_spec(h: Hunter, actual: u64) -> u64 {
    let hp1 = sat_sub_spec(h.hp, actual);
    if h.stats.helltouch_barrier_level > 0 && hp1 < fp_mul_spec(
        h.stats.max_hp,
        HELLTOUCH_THRESHOLD,
    ) {
        min_spec(
            sat_add_spec(
                hp1,
                fp_mul_spec(
                    h.stats.max_hp,
                    sat_mul_spec(h.stats.helltouch_barrier_level as u64, HELLTOUCH_RATE),
                ),
            ),
            h.stats.max_hp,
        )
    } else {
        hp1
    }
}

/// The hunter after a banked trickster charge absorbs an attack: one
/// charge spent, one trickster evade credited, nothing else touched.
pub open spec fn trickster_absorb_spec(h: Hunter) -> Hunter {
    Hunter {
        trickster_charges: (h.trickster_charges - 1) as u64,
        result: (SimResult {
            trickster_evades: sat_add_spec(h.result.trickster_evades, 1),
            ..h.result
        }),
        ..h
    }
}

/// The hunter after an evade absorbs an attack: one evade credited, and on
/// a dance proc one trickster charge banked with its proc credit.
pub open spec fn evade_absorb_spec(h: Hunter, dance: bool) -> Hunter {
    let h1 = Hunter {
        result: (SimResult { evades: sat_add_spec(h.result.evades, 1), ..h.result }),
        ..h
    };
    if dance {
        Hunter {
            trickster_charges: sat_add_spec(h1.trickster_charges, 1),
            result: (SimResult {
                effect_procs: sat_add_spec(h1.result.effect_procs, 1),
                ..h1.result
            }),
            ..h1
        }
    } else {
        h1
    }
}

/// The hunter after a block absorbs an attack: one evade credited (blocks
/// share the counter), and the elixir's empowered post-block ticks granted.
pub open spec fn block_absorb_spec(h: Hunter) -> Hunter {
    let h1 = Hunter {
        result: (SimResult { evades: sat_add_spec(h.result.evades, 1), ..h.result }),
        ..h
    };
    if h.stats.fortification_elixir > 0 {
        Hunter {
            empowered_block_regen: sat_add_spec(h1.empowered_block_regen, EMPOWERED_TICKS),
            ..h1
        }
    } else {
        h1
    }
}

/// The raw damage an enemy attack carries: base power on a normal hit, the
/// crit damage on a crit, reduced by the hunter's capped weakspot analysis.
pub open spec fn enemy_raw_damage_spec(h: Hunter, e: Enemy, crit: bool) -> u64 {
    let raw = if crit {
        e.crit_damage()
    } else {
        e.attack_power()
    };
    if crit && h.stats.weakspot_analysis > 0 {
        fp_mul_spec(
            raw,
            (SCALE - min_spec(
                sat_mul_spec(h.stats.weakspot_analysis as u64, WEAKSPOT_RATE),
                WEAKSPOT_CAP,
            )) as u64,
        )
    } else {
        raw
    }
}

/// The hunter after an unblocked hit of raw damage `dmg` lands: the capped
/// mitigation and the taken remainder credited, health clamped at zero, and
/// the reactive barrier's answer credited if it trips.
pub open spec fn landed_state_spec(h: Hunter, dmg: u64) -> Hunter {
    let m = mitigated_spec(h, dmg);
    let taken = hit_taken_spec(h, dmg);
    let r1 = SimResult {
        mitigated_damage: sat_add_spec(h.result.mitigated_damage, m),
        damage_taken: sat_add_spec(h.result.damage_taken, taken),
        ..h.result
    };
    let hp1 = sat_sub_spec(h.hp, taken);
    if h.stats.helltouch_barrier_level > 0 && hp1 < fp_mul_spec(
        h.stats.max_hp,
        HELLTOUCH_THRESHOLD,
    ) {
        let barrier = fp_mul_spec(
            h.stats.max_hp,
            sat_mul_spec(h.stats.helltouch_barrier_level as u64, HELLTOUCH_RATE),
        );
        Hunter {
            hp: min_spec(sat_add_spec(hp1, barrier), h.stats.max_hp),
            result: (SimResult {
                helltouch_barrier: sat_add_spec(r1.helltouch_barrier, barrier),
                ..r1
            }),
            ..h
        }
    } else {
        Hunter { hp: hp1, result: r1, ..h }
    }
}

/// One enemy attack resolves to exactly one of four outcomes: absorbed by a
/// banked trickster charge, by an evade (possibly banking a charge), by a
/// block, or landing with the exact hit arithmetic for a crit or a normal
/// hit.
pub open spec fn enemy_attack_outcome_spec(h0: Hunter, h1: Hunter, e: Enemy) -> bool {
    ||| h0.trickster_charges > 0 && h1 == trickster_absorb_spec(h0)
    ||| exists|dance: bool|
        {
            &&& h0.stats.evade_chance > 0
            &&& dance ==> h0.stats.dance_of_dashes > 0
            &&& h1 == evade_absorb_spec(h0, dance)
        }
    ||| h0.stats.block_chance > 0 && h1 == block_absorb_spec(h0)
    ||| exists|crit: bool|
        {
            &&& crit ==> e.special_chance > 0 || e.enrage_stacks > ENRAGE_CRIT_THRESHOLD
            &&& !crit ==> e.enrage_stacks <= ENRAGE_CRIT_THRESHOLD
            &&& h1 == landed_state_spec(h0, enemy_raw_damage_spec(h0, e, crit))
        }
}

/// Resolve one enemy attack against the hunter, in strict order: a banked
/// trickster charge absorbs it outright, else an evade roll, else a block
/// roll; only then is damage drawn, crit-reduced, mitigated up to the hard
/// cap, and subtracted, possibly answered by the reactive barrier.  The
/// final state is exactly one of the four outcome forms.
fn enemy_attack(hunter: &mut Hunter, enemy: &Enemy, rng: &mut rand::rngs::SmallRng)
    requires
        old(hunter).wf(),
    ensures
        final(hunter).wf(),
        *final(hunter) == (Hunter {
            hp: final(hunter).hp,
            trickster_charges: final(hunter).trickster_charges,
            empowered_block_regen: final(hunter).empowered_block_regen,
            result: final(hunter).result,
            ..*old(hunter)
        }),
        final(hunter).result == (SimResult {
            damage_taken: final(hunter).result.damage_taken,
            mitigated_damage: final(hunter).result.mitigated_damage,
            evades: final(hunter).result.evades,
            trickster_evades: final(hunter).result.trickster_evades,
            effect_procs: final(hunter).result.effect_procs,
            helltouch_barrier: final(hunter).result.helltouch_barrier,
            ..old(hunter).result
        }),
        final(hunter).result.damage_taken >= old(hunter).result.damage_taken,
        enemy_attack_outcome_spec(*old(hunter), *final(hunter), *enemy),
        old(hunter).trickster_charges > 0 ==> *final(hunter) == trickster_absorb_spec(
            *old(hunter),
        ),
        old(hunter).trickster_charges > 0 || old(hunter).stats.evade_chance >= SCALE
            ==> final(hunter).hp == old(hunter).hp && final(hunter).result.damage_taken == old(
            hunter,
        ).result.damage_taken,
        old(hunter).trickster_charges == 0 && old(hunter).stats.evade_chance >= SCALE
            ==> final(hunter).result.evades == sat_add_spec(old(hunter).result.evades, 1),
        (old(hunter).trickster_charges == 0 && old(hunter).stats.evade_chance == 0
            && old(hunter).stats.block_chance == 0 && enemy.special_chance == 0
            && enemy.enrage_stacks <= ENRAGE_CRIT_THRESHOLD) ==> {
            let taken = hit_taken_spec(*old(hunter), enemy.attack_power());
            &&& final(hunter).hp == post_hit_hp_spec(*old(hunter), taken)
            &&& final(hunter).result.damage_taken == sat_add_spec(
                old(hunter).result.damage_taken,
                taken,
            )
            &&& final(hunter).result.mitigated_damage == sat_add_spec(
                old(hunter).result.mitigated_damage,
                mitigated_spec(*old(hunter), enemy.attack_power()),
            )
        },
{
    let ghost pre = *hunter;
    if hunter.trickster_charges > 0 {
        hunter.trickster_charges = hunter.trickster_charges - 1;
        hunter.result.trickster_evades = sat_add(hunter.result.trickster_evades, 1);
        proof {
            assert(*hunter == trickster_absorb_spec(pre));
        }
        return ;
    }
    if roll(rng, hunter.stats.evade_chance) {
        hunter.result.evades = sat_add(hunter.result.evades, 1);
        let dance = hunter.stats.dance_of_dashes > 0 && roll(
            rng,
            sat_mul(hunter.stats.dance_of_dashes as u64, DANCE_RATE),
        );
        if dance {
            hunter.trickster_charges = sat_add(hunter.trickster_charges, 1);
            hunter.result.effect_procs = sat_add(hunter.result.effect_procs, 1);
        }
        proof {
            assert(*hunter == evade_absorb_spec(pre, dance));
        }
        return ;
    }
    if hunter.stats.block_chance > 0 && roll(rng, hunter.stats.block_chance) {
        hunter.result.evades = sat_add(hunter.result.evades, 1);
        if hunter.stats.fortification_elixir > 0 {
            hunter.empowered_block_regen = sat_add(hunter.empowered_block_regen, EMPOWERED_TICKS);
        }
        proof {
            assert(*hunter == block_absorb_spec(pre));
        }
        return ;
    }
    let (raw_damage, is_crit) = enemy.get_attack_damage(rng);
    let damage = if is_crit && hunter.stats.weakspot_analysis > 0 {
        let crit_reduction = min64(
            sat_mul(hunter.stats.weakspot_analysis as u64, WEAKSPOT_RATE),
            WEAKSPOT_CAP,
        );
        fp_mul(raw_damage, SCALE - crit_reduction)
    } else {
        raw_damage
    };
    let effective_dr = if hunter.stats.deal_with_death > 0 && hunter.revive_count > 0 {
        sat_add(
            hunter.stats.damage_reduction,
            sat_mul(
                sat_mul(hunter.stats.deal_with_death as u64, DWD_DR_RATE),
                hunter.revive_count as u64,
            ),
        )
    } else {
        hunter.stats.damage_reduction
    };
    let capped_dr = min64(effective_dr, DR_CAP);
    proof {
        lemma_fp_mul_le_one(damage, capped_dr);
    }
    let mitigated = fp_mul(damage, capped_dr);
    let actual = damage - mitigated;
    hunter.result.mitigated_damage = sat_add(hunter.result.mitigated_damage, mitigated);
    hunter.result.damage_taken = sat_add(hunter.result.damage_taken, actual);
    hunter.hp = sat_sub(hunter.hp, actual);
    if hunter.stats.helltouch_barrier_level > 0 && hunter.hp < fp_mul(
        hunter.stats.max_hp,
        HELLTOUCH_THRESHOLD,
    ) {
        let barrier = fp_mul(
            hunter.stats.max_hp,
            sat_mul(hunter.stats.helltouch_barrier_level as u64, HELLTOUCH_RATE),
        );
        hunter.hp = min64(sat_add(hunter.hp, barrier), hunter.stats.max_hp);
        hunter.result.helltouch_barrier = sat_add(hunter.result.helltouch_barrier, barrier);
    }
    proof {
        assert(damage == enemy_raw_damage_spec(pre, *enemy, is_crit));
        assert(*hunter == landed_state_spec(pre, damage));
    }
}

/// The hunter's missing-health share, micro, capped at one.
pub open spec fn missing_frac_spec(h: Hunter) -> u64 {
    let q = sat_sub_spec(h.stats.max_hp, h.hp) * SCALE / (h.stats.max_hp as int);
    if q > SCALE {
        SCALE
    } else {
        q as u64
    }
}

/// The power one attack starts from: base power compounded by the
/// revive-scaled bonus, the missing-health bonus, and the hundred-souls
/// stacks.  Deterministic: no draws are involved.
pub open spec fn effective_power_spec(h: Hunter) -> u64 {
    let p1 = if h.stats.deal_with_death > 0 && h.revive_count > 0 {
        fp_mul_spec(
            h.stats.power,
            sat_add_spec(
                SCALE,
                sat_mul_spec(
                    sat_mul_spec(h.stats.deal_with_death as u64, DWD_POWER_RATE),
                    h.revive_count as u64,
                ),
            ),
        )
    } else {
        h.stats.power
    };
    let p2 = if h.stats.born_for_battle > 0 && h.stats.max_hp > 0 {
        fp_mul_spec(
            p1,
            sat_add_spec(
                SCALE,
                fp_mul_spec(
                    missing_frac_spec(h),
                    sat_mul_spec(h.stats.born_for_battle as u64, BFB_RATE),
                ),
            ),
        )
    } else {
        p1
    };
    if h.hundred_souls_stacks > 0 {
        let souls_multiplier = fp_mul_spec(
            SOULS_BASE_RATE,
            sat_add_spec(SCALE, sat_mul_spec(h.stats.soul_amplification as u64, SOUL_AMP_RATE)),
        );
        fp_mul_spec(
            p2,
            sat_add_spec(SCALE, sat_mul_spec(h.hundred_souls_stacks, souls_multiplier)),
        )
    } else {
        p2
    }
}

/// The crit chance one attack rolls against, with the revive-scaled bonus.
pub open spec fn effective_crit_chance_spec(h: Hunter) -> u64 {
    if h.stats.cycle_of_death > 0 && h.revive_count > 0 {
        sat_add_spec(
            h.stats.special_chance,
            sat_mul_spec(
                sat_mul_spec(h.stats.cycle_of_death as u64, COD_CRIT_CHANCE_RATE),
                h.revive_count as u64,
            ),
        )
    } else {
        h.stats.special_chance
    }
}

/// The crit multiplier one attack lands with, with the revive-scaled bonus.
pub open spec fn effective_crit_dmg_spec(h: Hunter) -> u64 {
    if h.stats.cycle_of_death > 0 && h.revive_count > 0 {
        sat_add_spec(
            h.stats.special_damage,
            sat_mul_spec(
                sat_mul_spec(h.stats.cycle_of_death as u64, COD_CRIT_DMG_RATE),
                h.revive_count as u64,
            ),
        )
    } else {
        h.stats.special_damage
    }
}

/// A floor on the base strike whatever the crit roll gave: the lesser of
/// the crit and the non-crit branch.
pub open spec fn min_strike_spec(h: Hunter) -> u64 {
    min_spec(
        effective_power_spec(h),
        fp_mul_spec(effective_power_spec(h), effective_crit_dmg_spec(h)),
    )
}

/// The damage a decay share adds: a level-scaled slice of the enemy's
/// current health, cut to a tenth on bosses.
pub open spec fn omen_decay_spec(h: Hunter, e: Enemy) -> u64 {
    if h.stats.omen_of_decay > 0 {
        let b = fp_mul_spec(e.hp, sat_mul_spec(h.stats.omen_of_decay as u64, OMEN_DECAY_RATE));
        if e.is_boss {
            fp_mul_spec(b, BOSS_OMEN_FACTOR)
        } else {
            b
        }
    } else {
        0
    }
}

/// A floor on every salvo round whatever its rolls gave: the even power
/// share, possibly scaled by the finishing-move multiplier.
pub open spec fn bullet_floor_spec(h: Hunter, effective_power: u64) -> u64
    recommends
        h.stats.salvo_projectiles > 0,
{
    let per = (effective_power as int / (h.stats.salvo_projectiles as int)) as u64;
    if h.stats.finishing_move > 0 {
        min_spec(per, fp_mul_spec(per, h.stats.special_damage))
    } else {
        per
    }
}

/// A floor on a whole salvo: the base round count times the round floor.
pub open spec fn salvo_floor_spec(h: Hunter, effective_power: u64) -> u64 {
    sat_mul_spec(h.stats.salvo_projectiles as u64, bullet_floor_spec(h, effective_power))
}

/// The parts of a hit that follow deterministically once its summed damage
/// `total` is fixed: the enemy loses the factor-scaled amount, the same
/// amount is credited as damage dealt, and lifesteal heals and credits its
/// share of it.
pub open spec fn applied_hit_spec(h0: Hunter, e0: Enemy, h1: Hunter, e1: Enemy, total: u64) -> bool {
    let applied = fp_mul_spec(total, e0.damage_factor);
    &&& e1.hp == sat_sub_spec(e0.hp, applied)
    &&& h1.result.damage == sat_add_spec(h0.result.damage, applied)
    &&& h1.hp == if h0.stats.lifesteal > 0 {
        min_spec(sat_add_spec(h0.hp, fp_mul_spec(applied, h0.stats.lifesteal)), h0.stats.max_hp)
    } else {
        h0.hp
    }
    &&& h1.result.lifesteal == if h0.stats.lifesteal > 0 {
        sat_add_spec(h0.result.lifesteal, fp_mul_spec(applied, h0.stats.lifesteal))
    } else {
        h0.result.lifesteal
    }
}

/// How long a single-strike stun proc lasts: the needles duration if the
/// talent is owned, else one second plus a fifth of the effect chance,
/// halved on bosses.
pub open spec fn strike_stun_duration_spec(h: Hunter, boss: bool) -> u64 {
    let base = if h.stats.thousand_needles > 0 {
        sat_mul_spec(h.stats.thousand_needles as u64, NEEDLES_RATE)
    } else {
        sat_add_spec(SCALE, h.stats.effect_chance / 5)
    };
    if boss {
        base / 2
    } else {
        base
    }
}

/// How long a salvo stun proc lasts: one second plus a fifth of the effect
/// chance, halved on bosses.
pub open spec fn salvo_stun_duration_spec(h: Hunter, boss: bool) -> u64 {
    let base = sat_add_spec(SCALE, h.stats.effect_chance / 5);
    if boss {
        base / 2
    } else {
        base
    }
}

/// Either no stun landed and the enemy's stun state and the stun record
/// are untouched, or the enemy is stunned until the current event time
/// plus `duration`, with the duration credited.
pub open spec fn stun_outcome_spec(
    h0: Hunter,
    e0: Enemy,
    h1: Hunter,
    e1: Enemy,
    duration: u64,
) -> bool {
    ||| {
        &&& e1.is_stunned == e0.is_stunned
        &&& e1.stun_end_time == e0.stun_end_time
        &&& h1.result.stun_duration_inflicted == h0.result.stun_duration_inflicted
    }
    ||| {
        &&& e1.is_stunned
        &&& e1.stun_end_time == sat_add_spec(h0.result.elapsed_time, duration)
        &&& h1.result.stun_duration_inflicted == sat_add_spec(
            h0.result.stun_duration_inflicted,
            duration,
        )
    }
}

/// Fire one Knox salvo: a base projectile count possibly raised by armory
/// and ghost-bullet procs; each round independently rolls a charge boost,
/// and the final round can roll a finishing-move multiplier.  The summed
/// damage lands as one hit, feeds lifesteal, and rolls one stun proc.  The
/// sum is floored by the base rounds at their guaranteed value, and the
/// landing arithmetic is pinned by `applied_hit_spec` for that sum.
fn knox_salvo_attack(
    hunter: &mut Hunter,
    enemy: &mut Enemy,
    rng: &mut rand::rngs::SmallRng,
    effective_power: u64,
)
    requires
        old(hunter).wf(),
        old(enemy).wf(),
        old(hunter).stats.salvo_projectiles > 0,
    ensures
        final(hunter).wf(),
        final(enemy).wf(),
        *final(hunter) == (Hunter {
            hp: final(hunter).hp,
            result: final(hunter).result,
            ..*old(hunter)
        }),
        final(hunter).hp >= old(hunter).hp,
        final(hunter).result == (SimResult {
            crits: final(hunter).result.crits,
            multistrikes: final(hunter).result.multistrikes,
            effect_procs: final(hunter).result.effect_procs,
            damage: final(hunter).result.damage,
            lifesteal: final(hunter).result.lifesteal,
            stun_duration_inflicted: final(hunter).result.stun_duration_inflicted,
            ..old(hunter).result
        }),
        *final(enemy) == (Enemy {
            hp: final(enemy).hp,
            is_stunned: final(enemy).is_stunned,
            stun_end_time: final(enemy).stun_end_time,
            ..*old(enemy)
        }),
        final(enemy).hp <= old(enemy).hp,
        old(hunter).stats.effect_chance == 0 && !old(enemy).is_stunned
            ==> !final(enemy).is_stunned,
        final(hunter).result.crits >= old(hunter).result.crits,
        final(hunter).result.multistrikes >= old(hunter).result.multistrikes,
        final(hunter).result.effect_procs >= old(hunter).result.effect_procs,
        final(hunter).result.damage >= old(hunter).result.damage,
        final(hunter).result.lifesteal >= old(hunter).result.lifesteal,
        final(hunter).result.stun_duration_inflicted >= old(
            hunter,
        ).result.stun_duration_inflicted,
        old(hunter).stats.lifesteal == 0 ==> final(hunter).hp == old(hunter).hp,
        final(enemy).hp <= sat_sub_spec(
            old(enemy).hp,
            fp_mul_spec(
                salvo_floor_spec(*old(hunter), effective_power),
                old(enemy).damage_factor,
            ),
        ),
        final(hunter).result.damage >= sat_add_spec(
            old(hunter).result.damage,
            fp_mul_spec(
                salvo_floor_spec(*old(hunter), effective_power),
                old(enemy).damage_factor,
            ),
        ),
        exists|total: u64|
            #[trigger] applied_hit_spec(*old(hunter), *old(enemy), *final(hunter), *final(enemy), total)
                && total >= salvo_floor_spec(*old(hunter), effective_power),
        stun_outcome_spec(
            *old(hunter),
            *old(enemy),
            *final(hunter),
            *final(enemy),
            salvo_stun_duration_spec(*old(hunter), old(enemy).is_boss),
        ),
{
    let ghost h0 = *old(hunter);
    let ghost e0 = *old(enemy);
    let ghost floor = bullet_floor_spec(h0, effective_power);
    let base_projectiles = hunter.stats.salvo_projectiles as u64;
    let mut num_projectiles: u64 = base_projectiles;
    if hunter.stats.space_pirate_armory > 0 && roll(
        rng,
        sat_mul(hunter.stats.space_pirate_armory as u64, SPA_RATE),
    ) {
        num_projectiles = sat_add(num_projectiles, SPA_BONUS);
        hunter.result.effect_procs = sat_add(hunter.result.effect_procs, 1);
    }
    if hunter.stats.ghost_bullets > 0 && roll(
        rng,
        sat_mul(hunter.stats.ghost_bullets as u64, GHOST_RATE),
    ) {
        num_projectiles = sat_add(num_projectiles, 1);
        hunter.result.multistrikes = sat_add(hunter.result.multistrikes, 1);
    }
    let mut total_damage: u64 = 0;
    let mut i: u64 = 0;
    let ghost pre = *hunter;
    while i < num_projectiles
        invariant
            hunter.wf(),
            num_projectiles > 0,
            base_projectiles > 0,
            i <= num_projectiles,
            num_projectiles >= base_projectiles,
            hunter.stats == h0.stats,
            base_projectiles == h0.stats.salvo_projectiles as u64,
            floor == bullet_floor_spec(h0, effective_power),
            *hunter == (Hunter { result: hunter.result, ..pre }),
            hunter.result == (SimResult {
                crits: hunter.result.crits,
                effect_procs: hunter.result.effect_procs,
                ..pre.result
            }),
            hunter.result.crits >= pre.result.crits,
            hunter.result.effect_procs >= pre.result.effect_procs,
            total_damage as int >= (if (i as int) * (floor as int) > u64::MAX {
                u64::MAX as int
            } else {
                (i as int) * (floor as int)
            }),
        decreases num_projectiles - i,
    {
        let mut bullet_damage = effective_power / base_projectiles;
        let ghost per = bullet_damage;
        if roll(rng, hunter.stats.charge_chance) {
            proof {
                lemma_fp_mul_ge_one(
                    bullet_damage,
                    sat_add_spec(SCALE, hunter.stats.charge_gained),
                );
            }
            bullet_damage = fp_mul(bullet_damage, sat_add(SCALE, hunter.stats.charge_gained));
            hunter.result.crits = sat_add(hunter.result.crits, 1);
        }
        proof {
            assert(bullet_damage >= per);
        }
        if i == num_projectiles - 1 && hunter.stats.finishing_move > 0 {
            if roll(rng, sat_mul(hunter.stats.effect_chance, 2)) {
                proof {
                    lemma_fp_mul_le_left(per, bullet_damage, hunter.stats.special_damage);
                }
                bullet_damage = fp_mul(bullet_damage, hunter.stats.special_damage);
                hunter.result.effect_procs = sat_add(hunter.result.effect_procs, 1);
            }
        }
        proof {
            assert(bullet_damage >= floor);
            assert((i as int) * (floor as int) + (floor as int) == (i as int + 1) * (
            floor as int)) by (nonlinear_arith);
        }
        total_damage = sat_add(total_damage, bullet_damage);
        i = i + 1;
    }
    proof {
        vstd::arithmetic::mul::lemma_mul_inequality(
            base_projectiles as int,
            num_projectiles as int,
            floor as int,
        );
        assert(total_damage >= salvo_floor_spec(h0, effective_power));
        lemma_fp_mul_le_left(
            salvo_floor_spec(h0, effective_power),
            total_damage,
            e0.damage_factor,
        );
    }
    let actual_damage = enemy.take_damage(total_damage);
    hunter.result.damage = sat_add(hunter.result.damage, actual_damage);
    if hunter.stats.lifesteal > 0 {
        let healed = fp_mul(actual_damage, hunter.stats.lifesteal);
        hunter.hp = min64(sat_add(hunter.hp, healed), hunter.stats.max_hp);
        hunter.result.lifesteal = sat_add(hunter.result.lifesteal, healed);
    }
    if roll(rng, hunter.stats.effect_chance) {
        hunter.result.effect_procs = sat_add(hunter.result.effect_procs, 1);
        let stun_duration = sat_add(SCALE, hunter.stats.effect_chance / 5);
        let actual_stun = if enemy.is_boss {
            stun_duration / 2
        } else {
            stun_duration
        };
        enemy.is_stunned = true;
        enemy.stun_end_time = sat_add(hunter.result.elapsed_time, actual_stun);
        hunter.result.stun_duration_inflicted = sat_add(
            hunter.result.stun_duration_inflicted,
            actual_stun,
        );
    }
    proof {
        assert(applied_hit_spec(h0, e0, *hunter, *enemy, total_damage));
    }
}

/// The damage a decay share adds: a level-scaled slice of the enemy's
/// current health, cut to a tenth on bosses.
fn omen_decay_damage(hunter: &Hunter, enemy: &Enemy) -> (bonus: u64)
    ensures
        bonus == omen_decay_spec(*hunter, *enemy),
        hunter.stats.omen_of_decay == 0 ==> bonus == 0,
{
    if hunter.stats.omen_of_decay > 0 {
        let decay_pct = sat_mul(hunter.stats.omen_of_decay as u64, OMEN_DECAY_RATE);
        let bonus_dmg = fp_mul(enemy.hp, decay_pct);
        if enemy.is_boss {
            fp_mul(bonus_dmg, BOSS_OMEN_FACTOR)
        } else {
            bonus_dmg
        }
    } else {
        0
    }
}

/// Resolve the single-strike path once the compounded values are fixed:
/// the crit roll, the decay and omen add-ons, the multistrike roll, the
/// landing, the echo follow-ups, the crippling regain, lifesteal, and the
/// stun proc.
#[verifier::rlimit(100)]
fn single_strike(
    hunter: &mut Hunter,
    enemy: &mut Enemy,
    rng: &mut rand::rngs::SmallRng,
    effective_power: u64,
    effective_crit_chance: u64,
    effective_crit_dmg: u64,
)
    requires
        old(hunter).wf(),
        old(enemy).wf(),
        effective_power == effective_power_spec(*old(hunter)),
        effective_crit_chance == effective_crit_chance_spec(*old(hunter)),
        effective_crit_dmg == effective_crit_dmg_spec(*old(hunter)),
    ensures
        final(hunter).wf(),
        final(enemy).wf(),
        *final(hunter) == (Hunter {
            hp: final(hunter).hp,
            decay_stacks: final(hunter).decay_stacks,
            result: final(hunter).result,
            ..*old(hunter)
        }),
        final(hunter).hp >= old(hunter).hp,
        final(hunter).result == (SimResult {
            crits: final(hunter).result.crits,
            extra_damage_from_crits: final(hunter).result.extra_damage_from_crits,
            multistrikes: final(hunter).result.multistrikes,
            extra_damage_from_ms: final(hunter).result.extra_damage_from_ms,
            damage: final(hunter).result.damage,
            echo_bullets: final(hunter).result.echo_bullets,
            lifesteal: final(hunter).result.lifesteal,
            effect_procs: final(hunter).result.effect_procs,
            stun_duration_inflicted: final(hunter).result.stun_duration_inflicted,
            ..old(hunter).result
        }),
        *final(enemy) == (Enemy {
            hp: final(enemy).hp,
            is_stunned: final(enemy).is_stunned,
            stun_end_time: final(enemy).stun_end_time,
            ..*old(enemy)
        }),
        final(enemy).hp <= old(enemy).hp,
        old(hunter).stats.effect_chance == 0 && !old(enemy).is_stunned
            ==> !final(enemy).is_stunned,
        final(hunter).result.crits >= old(hunter).result.crits,
        final(hunter).result.extra_damage_from_crits >= old(
            hunter,
        ).result.extra_damage_from_crits,
        final(hunter).result.multistrikes >= old(hunter).result.multistrikes,
        final(hunter).result.extra_damage_from_ms >= old(hunter).result.extra_damage_from_ms,
        final(hunter).result.damage >= old(hunter).result.damage,
        final(hunter).result.echo_bullets >= old(hunter).result.echo_bullets,
        final(hunter).result.lifesteal >= old(hunter).result.lifesteal,
        final(hunter).result.effect_procs >= old(hunter).result.effect_procs,
        final(hunter).result.stun_duration_inflicted >= old(
            hunter,
        ).result.stun_duration_inflicted,
        old(hunter).stats.lifesteal == 0 ==> final(hunter).hp == old(hunter).hp,
        final(enemy).hp <= sat_sub_spec(
            old(enemy).hp,
            fp_mul_spec(min_strike_spec(*old(hunter)), old(enemy).damage_factor),
        ),
        final(hunter).result.damage >= sat_add_spec(
            old(hunter).result.damage,
            fp_mul_spec(min_strike_spec(*old(hunter)), old(enemy).damage_factor),
        ),
        final(hunter).result.crits <= sat_add_spec(old(hunter).result.crits, 1),
        stun_outcome_spec(
            *old(hunter),
            *old(enemy),
            *final(hunter),
            *final(enemy),
            strike_stun_duration_spec(*old(hunter), old(enemy).is_boss),
        ),
        old(hunter).stats.echo_bullets == 0 ==> exists|crit: bool, ms: bool, cripple: bool, stun: bool|
            strike_outcome_spec(
                *old(hunter),
                *old(enemy),
                *final(hunter),
                *final(enemy),
                crit,
                ms,
                cripple,
                stun,
            ),
        old(hunter).stats.echo_bullets == 0 ==> exists|total: u64|
            #[trigger] applied_hit_spec(
                *old(hunter),
                *old(enemy),
                *final(hunter),
                *final(enemy),
                total,
            ) && total >= min_strike_spec(*old(hunter)),
{
    let ghost h0 = *old(hunter);
    let ghost e0 = *old(enemy);
    let did_crit = roll(rng, effective_crit_chance);
    let base_damage = if did_crit {
        hunter.result.crits = sat_add(hunter.result.crits, 1);
        let crit_dmg = fp_mul(effective_power, effective_crit_dmg);
        hunter.result.extra_damage_from_crits = sat_add(
            hunter.result.extra_damage_from_crits,
            sat_sub(crit_dmg, effective_power),
        );
        crit_dmg
    } else {
        effective_power
    };
    let decay_bonus = if hunter.decay_stacks > 0 {
        let bonus = fp_mul(base_damage, sat_mul(hunter.decay_stacks, DECAY_STACK_RATE));
        hunter.decay_stacks = 0;
        bonus
    } else {
        0
    };
    let omen_bonus = omen_decay_damage(hunter, enemy);
    let did_ms = hunter.stats.multistriker > 0 && roll(
        rng,
        sat_add(MULTISTRIKE_BASE, sat_mul(hunter.stats.multistriker as u64, MULTISTRIKE_RATE)),
    );
    let multistrike_bonus = if did_ms {
        hunter.result.multistrikes = sat_add(hunter.result.multistrikes, 1);
        let ms_base = fp_mul(base_damage, MULTISTRIKE_DAMAGE);
        let ms_omen = omen_decay_damage(hunter, enemy);
        let ms_total = sat_add(ms_base, ms_omen);
        hunter.result.extra_damage_from_ms = sat_add(hunter.result.extra_damage_from_ms, ms_total);
        ms_total
    } else {
        0
    };
    let total_damage = sat_add(sat_add(sat_add(base_damage, decay_bonus), omen_bonus), multistrike_bonus);
    proof {
        assert(base_damage >= min_strike_spec(h0));
        assert(total_damage >= base_damage);
        lemma_fp_mul_le_left(min_strike_spec(h0), total_damage, e0.damage_factor);
    }
    let actual_damage = enemy.take_damage(total_damage);
    hunter.result.damage = sat_add(hunter.result.damage, actual_damage);
    if hunter.stats.echo_bullets > 0 && roll(rng, hunter.stats.effect_chance) {
        hunter.result.echo_bullets = sat_add(hunter.result.echo_bullets, 1);
        let echo_dmg = fp_mul(
            hunter.stats.power,
            sat_mul(hunter.stats.echo_bullets as u64, ECHO_RATE),
        );
        let echo_decay = omen_decay_damage(hunter, enemy);
        let echo_total = sat_add(echo_dmg, echo_decay);
        let echo_actual = enemy.take_damage(echo_total);
        hunter.result.damage = sat_add(hunter.result.damage, echo_actual);
        if hunter.stats.multistriker > 0 && roll(
            rng,
            sat_add(MULTISTRIKE_BASE, sat_mul(hunter.stats.multistriker as u64, MULTISTRIKE_RATE)),
        ) {
            hunter.result.multistrikes = sat_add(hunter.result.multistrikes, 1);
            let echo_ms = fp_mul(echo_dmg, MULTISTRIKE_DAMAGE);
            let echo_ms_omen = omen_decay_damage(hunter, enemy);
            let echo_ms_total = sat_add(echo_ms, echo_ms_omen);
            let echo_ms_actual = enemy.take_damage(echo_ms_total);
            hunter.result.damage = sat_add(hunter.result.damage, echo_ms_actual);
            hunter.result.extra_damage_from_ms = sat_add(
                hunter.result.extra_damage_from_ms,
                echo_ms_actual,
            );
        }
    }
    let did_cripple = hunter.stats.crippling_shots > 0 && roll(rng, hunter.stats.effect_chance);
    if did_cripple {
        hunter.decay_stacks = min64(
            sat_add(hunter.decay_stacks, hunter.stats.crippling_shots as u64),
            CRIPPLING_CAP,
        );
    }
    if hunter.stats.lifesteal > 0 {
        let healed = fp_mul(actual_damage, hunter.stats.lifesteal);
        hunter.hp = min64(sat_add(hunter.hp, healed), hunter.stats.max_hp);
        hunter.result.lifesteal = sat_add(hunter.result.lifesteal, healed);
    }
    let did_stun = roll(rng, hunter.stats.effect_chance);
    if did_stun {
        hunter.result.effect_procs = sat_add(hunter.result.effect_procs, 1);
        let base_stun = if hunter.stats.thousand_needles > 0 {
            sat_mul(hunter.stats.thousand_needles as u64, NEEDLES_RATE)
        } else {
            sat_add(SCALE, hunter.stats.effect_chance / 5)
        };
        let actual_stun = if enemy.is_boss {
            base_stun / 2
        } else {
            base_stun
        };
        enemy.is_stunned = true;
        enemy.stun_end_time = sat_add(hunter.result.elapsed_time, actual_stun);
        hunter.result.stun_duration_inflicted = sat_add(
            hunter.result.stun_duration_inflicted,
            actual_stun,
        );
    }
    proof {
        if h0.stats.echo_bullets == 0 {
            assert(applied_hit_spec(h0, e0, *hunter, *enemy, total_damage));
            assert(strike_outcome_spec(
                h0,
                e0,
                *hunter,
                *enemy,
                did_crit,
                did_ms,
                did_cripple,
                did_stun,
            ));
        }
    }
}

/// The exact effect of one echo-free single strike, given the outcomes of
/// its four rolls: the crit roll, the multistrike roll, the crippling-shots
/// roll and the stun proc.  Everything else is deterministic: the strike's
/// summed damage, the counters each roll credits, the consume-then-cap
/// behaviour of decay stacks, the landing arithmetic, and the stun state.
pub open spec fn strike_outcome_spec(
    h0: Hunter,
    e0: Enemy,
    h1: Hunter,
    e1: Enemy,
    crit: bool,
    ms: bool,
    cripple: bool,
    stun: bool,
) -> bool {
    let ep = effective_power_spec(h0);
    let crit_dmg = fp_mul_spec(ep, effective_crit_dmg_spec(h0));
    let base = if crit {
        crit_dmg
    } else {
        ep
    };
    let decay = if h0.decay_stacks > 0 {
        fp_mul_spec(base, sat_mul_spec(h0.decay_stacks, DECAY_STACK_RATE))
    } else {
        0
    };
    let omen = omen_decay_spec(h0, e0);
    let msb = if ms {
        sat_add_spec(fp_mul_spec(base, MULTISTRIKE_DAMAGE), omen)
    } else {
        0
    };
    let total = sat_add_spec(sat_add_spec(sat_add_spec(base, decay), omen), msb);
    let dur = strike_stun_duration_spec(h0, e0.is_boss);
    &&& crit ==> effective_crit_chance_spec(h0) > 0
    &&& ms ==> h0.stats.multistriker > 0
    &&& cripple ==> h0.stats.crippling_shots > 0 && h0.stats.effect_chance > 0
    &&& stun ==> h0.stats.effect_chance > 0
    &&& h1.result.crits == if crit {
        sat_add_spec(h0.result.crits, 1)
    } else {
        h0.result.crits
    }
    &&& h1.result.extra_damage_from_crits == if crit {
        sat_add_spec(h0.result.extra_damage_from_crits, sat_sub_spec(crit_dmg, ep))
    } else {
        h0.result.extra_damage_from_crits
    }
    &&& h1.result.multistrikes == if ms {
        sat_add_spec(h0.result.multistrikes, 1)
    } else {
        h0.result.multistrikes
    }
    &&& h1.result.extra_damage_from_ms == if ms {
        sat_add_spec(h0.result.extra_damage_from_ms, msb)
    } else {
        h0.result.extra_damage_from_ms
    }
    &&& h1.decay_stacks == if cripple {
        min_spec(h0.stats.crippling_shots as u64, CRIPPLING_CAP)
    } else {
        0
    }
    &&& h1.result.effect_procs == if stun {
        sat_add_spec(h0.result.effect_procs, 1)
    } else {
        h0.result.effect_procs
    }
    &&& if stun {
        &&& e1.is_stunned
        &&& e1.stun_end_time == sat_add_spec(h0.result.elapsed_time, dur)
        &&& h1.result.stun_duration_inflicted == sat_add_spec(
            h0.result.stun_duration_inflicted,
            dur,
        )
    } else {
        &&& e1.is_stunned == e0.is_stunned
        &&& e1.stun_end_time == e0.stun_end_time
        &&& h1.result.stun_duration_inflicted == h0.result.stun_duration_inflicted
    }
    &&& applied_hit_spec(h0, e0, h1, e1, total)
}

/// Resolve one hunter attack: count it, compound the active power and crit
/// modifiers, and dispatch to the Knox salvo or the single-strike path.
/// This wrapper guarantees the frame, the append-only counters, and a
/// damage floor whatever the rolls gave; the exact per-outcome arithmetic
/// is pinned on `single_strike` and `knox_salvo_attack`.
#[verifier::rlimit(100)]
fn hunter_attack(hunter: &mut Hunter, enemy: &mut Enemy, rng: &mut rand::rngs::SmallRng)
    requires
        old(hunter).wf(),
        old(enemy).wf(),
    ensures
        final(hunter).wf(),
        final(enemy).wf(),
        *final(hunter) == (Hunter {
            hp: final(hunter).hp,
            decay_stacks: final(hunter).decay_stacks,
            result: final(hunter).result,
            ..*old(hunter)
        }),
        final(hunter).hp >= old(hunter).hp,
        final(hunter).result == (SimResult {
            attacks: final(hunter).result.attacks,
            crits: final(hunter).result.crits,
            extra_damage_from_crits: final(hunter).result.extra_damage_from_crits,
            multistrikes: final(hunter).result.multistrikes,
            extra_damage_from_ms: final(hunter).result.extra_damage_from_ms,
            damage: final(hunter).result.damage,
            echo_bullets: final(hunter).result.echo_bullets,
            lifesteal: final(hunter).result.lifesteal,
            effect_procs: final(hunter).result.effect_procs,
            stun_duration_inflicted: final(hunter).result.stun_duration_inflicted,
            ..old(hunter).result
        }),
        final(hunter).result.attacks == sat_add_spec(old(hunter).result.attacks, 1),
        *final(enemy) == (Enemy {
            hp: final(enemy).hp,
            is_stunned: final(enemy).is_stunned,
            stun_end_time: final(enemy).stun_end_time,
            ..*old(enemy)
        }),
        final(enemy).hp <= old(enemy).hp,
        old(hunter).stats.effect_chance == 0 && !old(enemy).is_stunned
            ==> !final(enemy).is_stunned,
        final(hunter).result.crits >= old(hunter).result.crits,
        final(hunter).result.extra_damage_from_crits >= old(
            hunter,
        ).result.extra_damage_from_crits,
        final(hunter).result.multistrikes >= old(hunter).result.multistrikes,
        final(hunter).result.extra_damage_from_ms >= old(hunter).result.extra_damage_from_ms,
        final(hunter).result.damage >= old(hunter).result.damage,
        final(hunter).result.echo_bullets >= old(hunter).result.echo_bullets,
        final(hunter).result.lifesteal >= old(hunter).result.lifesteal,
        final(hunter).result.effect_procs >= old(hunter).result.effect_procs,
        final(hunter).result.stun_duration_inflicted >= old(
            hunter,
        ).result.stun_duration_inflicted,
        old(hunter).stats.lifesteal == 0 ==> final(hunter).hp == old(hunter).hp,
        old(hunter).stats.salvo_projectiles == 0 ==> final(enemy).hp <= sat_sub_spec(
            old(enemy).hp,
            fp_mul_spec(min_strike_spec(*old(hunter)), old(enemy).damage_factor),
        ),
        old(hunter).stats.salvo_projectiles == 0 ==> final(hunter).result.damage
            >= sat_add_spec(
            old(hunter).result.damage,
            fp_mul_spec(min_strike_spec(*old(hunter)), old(enemy).damage_factor),
        ),
        old(hunter).stats.salvo_projectiles == 0 ==> final(hunter).result.crits <= sat_add_spec(
            old(hunter).result.crits,
            1,
        ),
        old(hunter).stats.salvo_projectiles > 0 ==> final(enemy).hp <= sat_sub_spec(
            old(enemy).hp,
            fp_mul_spec(
                salvo_floor_spec(*old(hunter), effective_power_spec(*old(hunter))),
                old(enemy).damage_factor,
            ),
        ),
        old(hunter).stats.salvo_projectiles > 0 ==> final(hunter).result.damage
            >= sat_add_spec(
            old(hunter).result.damage,
            fp_mul_spec(
                salvo_floor_spec(*old(hunter), effective_power_spec(*old(hunter))),
                old(enemy).damage_factor,
            ),
        ),
        old(hunter).stats.salvo_projectiles == 0 ==> stun_outcome_spec(
            *old(hunter),
            *old(enemy),
            *final(hunter),
            *final(enemy),
            strike_stun_duration_spec(*old(hunter), old(enemy).is_boss),
        ),
        old(hunter).stats.salvo_projectiles > 0 ==> stun_outcome_spec(
            *old(hunter),
            *old(enemy),
            *final(hunter),
            *final(enemy),
            salvo_stun_duration_spec(*old(hunter), old(enemy).is_boss),
        ),
{
    let ghost h0 = *old(hunter);
    let ghost e0 = *old(enemy);
    hunter.result.attacks = sat_add(hunter.result.attacks, 1);
    let mut effective_power = hunter.stats.power;
    if hunter.stats.deal_with_death > 0 && hunter.revive_count > 0 {
        effective_power = fp_mul(
            effective_power,
            sat_add(
                SCALE,
                sat_mul(
                    sat_mul(hunter.stats.deal_with_death as u64, DWD_POWER_RATE),
                    hunter.revive_count as u64,
                ),
            ),
        );
    }
    if hunter.stats.born_for_battle > 0 && hunter.stats.max_hp > 0 {
        let missing = hunter.stats.max_hp - hunter.hp;
        proof {
            crate::fixed::lemma_u64_product_fits(missing, SCALE);
        }
        let mf128: u128 = (missing as u128) * (SCALE as u128) / (hunter.stats.max_hp as u128);
        let missing_frac: u64 = if mf128 > SCALE as u128 {
            SCALE
        } else {
            mf128 as u64
        };
        let bonus = fp_mul(missing_frac, sat_mul(hunter.stats.born_for_battle as u64, BFB_RATE));
        effective_power = fp_mul(effective_power, sat_add(SCALE, bonus));
    }
    if hunter.hundred_souls_stacks > 0 {
        let souls_multiplier = fp_mul(
            SOULS_BASE_RATE,
            sat_add(SCALE, sat_mul(hunter.stats.soul_amplification as u64, SOUL_AMP_RATE)),
        );
        let bonus = sat_mul(hunter.hundred_souls_stacks, souls_multiplier);
        effective_power = fp_mul(effective_power, sat_add(SCALE, bonus));
    }
    proof {
        assert(effective_power == effective_power_spec(h0));
    }
    let mut effective_crit_chance = hunter.stats.special_chance;
    let mut effective_crit_dmg = hunter.stats.special_damage;
    if hunter.stats.cycle_of_death > 0 && hunter.revive_count > 0 {
        effective_crit_chance = sat_add(
            effective_crit_chance,
            sat_mul(
                sat_mul(hunter.stats.cycle_of_death as u64, COD_CRIT_CHANCE_RATE),
                hunter.revive_count as u64,
            ),
        );
        effective_crit_dmg = sat_add(
            effective_crit_dmg,
            sat_mul(
                sat_mul(hunter.stats.cycle_of_death as u64, COD_CRIT_DMG_RATE),
                hunter.revive_count as u64,
            ),
        );
    }
    proof {
        assert(effective_crit_chance == effective_crit_chance_spec(h0));
        assert(effective_crit_dmg == effective_crit_dmg_spec(h0));
    }
    if hunter.stats.salvo_projectiles > 0 {
        let ghost hc = *hunter;
        knox_salvo_attack(hunter, enemy, rng, effective_power);
        proof {
            assert(salvo_floor_spec(hc, effective_power) == salvo_floor_spec(
                h0,
                effective_power_spec(h0),
            ));
        }
        return ;
    }
    let ghost hc = *hunter;
    single_strike(hunter, enemy, rng, effective_power, effective_crit_chance, effective_crit_dmg);
    proof {
        assert(min_strike_spec(hc) == min_strike_spec(h0));
    }
}

/// Stage-indexed enemy bundles: entry `s` of each table holds the raw
/// numbers for stage `s`.  Deriving them from the stage index is formula
/// evaluation that happens outside the library.
pub struct EnemyCatalog {
    pub regular: Vec<EnemyStats>,
    pub boss: Vec<EnemyStats>,
}

impl EnemyCatalog {
    /// Both tables cover every stage the progression loop can reach.
    pub open spec fn wf(self) -> bool {
        self.regular.len() > STAGE_LIMIT && self.boss.len() > STAGE_LIMIT
    }
}

/// How one drained encounter ended.
enum FightOutcome {
    EnemyDown,
    HunterDown,
    Stalled,
    OutOfFuel,
}

/// How one stage ended.
enum StageOutcome {
    Cleared,
    HunterDown,
    OutOfFuel,
}

/// The loot a playout that cleared stages `0 .. stages` has accumulated:
/// each cleared stage's loot, saturating-summed in stage order.
pub open spec fn loot_sum_spec(stages: int, loot_mult: u64) -> u64
    decreases stages,
{
    if stages <= 0 {
        0
    } else {
        sat_add_spec(
            loot_sum_spec(stages - 1, loot_mult),
            crate::hunter::stage_loot_at((stages - 1) as u64, loot_mult),
        )
    }
}

/// Drain events for one enemy until either actor dies, the queue empties,
/// or the event budget runs out.  Seeds the queue with the opening attacks,
/// the secondary channel if present, and the first regeneration tick.
fn fight_one_enemy(
    hunter: Hunter,
    enemy: Enemy,
    now: u64,
    fuel: u64,
    rng: &mut rand::rngs::SmallRng,
) -> (r: (Hunter, Enemy, FightOutcome, u64, u64))
    requires
        hunter.wf(),
        enemy.wf(),
    ensures
        r.0.wf(),
        r.1.wf(),
        r.0.stats == hunter.stats,
        r.0.current_stage == hunter.current_stage,
        r.0.revive_count == hunter.revive_count,
        r.0.result.kills == hunter.result.kills,
        r.0.result.total_loot == hunter.result.total_loot,
        r.0.result.final_stage == hunter.result.final_stage,
        hunter.stats.evade_chance >= SCALE && hunter.result.damage_taken == 0
            ==> r.0.result.damage_taken == 0,
        r.3 >= now,
        r.4 <= fuel,
        r.2 is EnemyDown ==> r.1.hp == 0 && r.0.hp > 0,
        r.2 is HunterDown ==> r.0.hp == 0,
        r.2 is Stalled ==> r.0.hp > 0 && r.1.hp > 0,
        r.2 is OutOfFuel ==> r.4 == 0 && r.0.hp > 0,
{
    let mut h = hunter;
    let mut e = enemy;
    let mut t = now;
    let mut f = fuel;
    let mut q = EventQueue::new();
    q.push(Event { time: sat_add(t, h.stats.speed), priority: PRIO_HUNTER, action: Action::HunterAttack });
    q.push(Event { time: sat_add(t, e.speed), priority: PRIO_ENEMY, action: Action::EnemyAttack });
    q.push(Event { time: sat_add(t, SCALE), priority: PRIO_REGEN, action: Action::Regen });
    if e.has_secondary {
        q.push(Event { time: sat_add(t, e.speed2), priority: PRIO_ENEMY, action: Action::EnemySpecial });
    }
    while !e.is_dead() && !h.is_dead()
        invariant
            h.wf(),
            e.wf(),
            h.stats == hunter.stats,
            h.current_stage == hunter.current_stage,
            h.revive_count == hunter.revive_count,
            h.result.kills == hunter.result.kills,
            h.result.total_loot == hunter.result.total_loot,
            h.result.final_stage == hunter.result.final_stage,
            hunter.stats.evade_chance >= SCALE && hunter.result.damage_taken == 0
                ==> h.result.damage_taken == 0,
            t >= now,
            f <= fuel,
            q@.len() < usize::MAX - 1,
            forall|j: int| 0 <= j < q@.len() ==> #[trigger] q@[j].time >= t,
        decreases f,
    {
        let ghost q0 = q@;
        let popped = q.pop();
        let ev = match popped {
            Some(ev) => ev,
            None => {
                return (h, e, FightOutcome::Stalled, t, f);
            },
        };
        proof {
            let i = choose|i: int|
                is_first_min(q0, i) && popped == Some(q0[i]) && q@ == q0.remove(i);
            assert(ev == q0[i]);
            assert(ev.time >= t);
            assert forall|j: int| 0 <= j < q@.len() implies #[trigger] q@[j].time >= ev.time by {
                assert(q@ == q0.remove(i));
                if j < i {
                    assert(q@[j] == q0[j]);
                    assert(key_le(q0[i], q0[j]));
                } else {
                    assert(q@[j] == q0[j + 1]);
                    assert(key_le(q0[i], q0[j + 1]));
                }
            }
        }
        if f == 0 {
            return (h, e, FightOutcome::OutOfFuel, t, f);
        }
        f = f - 1;
        t = ev.time;
        h.result.elapsed_time = t;
        match ev.action {
            Action::HunterAttack => {
                hunter_attack(&mut h, &mut e, rng);
                q.push(Event {
                    time: sat_add(t, h.stats.speed),
                    priority: PRIO_HUNTER,
                    action: Action::HunterAttack,
                });
            },
            Action::EnemyAttack => {
                if !e.is_stunned || t >= e.stun_end_time {
                    e.is_stunned = false;
                    enemy_attack(&mut h, &e, rng);
                    if !e.is_dead() {
                        q.push(Event {
                            time: sat_add(t, e.speed),
                            priority: PRIO_ENEMY,
                            action: Action::EnemyAttack,
                        });
                    }
                }
            },
            Action::EnemySpecial => {
                if e.is_boss && !e.is_stunned {
                    e.add_enrage();
                    q.push(Event {
                        time: sat_add(t, e.speed2),
                        priority: PRIO_ENEMY,
                        action: Action::EnemySpecial,
                    });
                }
            },
            Action::Regen => {
                h.regen_hp();
                e.regen_hp();
                q.push(Event {
                    time: sat_add(t, SCALE),
                    priority: PRIO_REGEN,
                    action: Action::Regen,
                });
            },
        }
    }
    if h.is_dead() {
        (h, e, FightOutcome::HunterDown, t, f)
    } else {
        (h, e, FightOutcome::EnemyDown, t, f)
    }
}

/// Fight one spawned enemy to a conclusion, applying on-spawn effects once
/// and resuming the same encounter after each successful revive.
fn fight_encounter(
    hunter: Hunter,
    enemy: Enemy,
    now: u64,
    fuel: u64,
    rng: &mut rand::rngs::SmallRng,
) -> (r: (Hunter, FightOutcome, u64, u64))
    requires
        hunter.wf(),
        enemy.wf(),
        hunter.revive_count <= hunter.stats.max_revives,
    ensures
        r.0.wf(),
        r.0.stats == hunter.stats,
        r.0.current_stage == hunter.current_stage,
        r.0.revive_count <= r.0.stats.max_revives,
        r.0.result.kills == hunter.result.kills,
        r.0.result.total_loot == hunter.result.total_loot,
        r.0.result.final_stage == hunter.result.final_stage,
        hunter.stats.evade_chance >= SCALE && hunter.result.damage_taken == 0
            ==> r.0.result.damage_taken == 0,
        r.2 >= now,
        r.3 <= fuel,
        r.1 is EnemyDown ==> r.0.hp > 0,
        r.1 is Stalled ==> r.0.hp > 0,
        r.1 is HunterDown ==> r.0.hp == 0,
        r.1 is OutOfFuel ==> r.3 == 0 && r.0.hp > 0,
{
    let mut h = hunter;
    let mut e = enemy;
    apply_spawn_effects(&mut h, &mut e);
    let mut t = now;
    let mut f = fuel;
    loop
        invariant
            h.wf(),
            e.wf(),
            h.stats == hunter.stats,
            h.current_stage == hunter.current_stage,
            h.revive_count <= h.stats.max_revives,
            h.result.kills == hunter.result.kills,
            h.result.total_loot == hunter.result.total_loot,
            h.result.final_stage == hunter.result.final_stage,
            hunter.stats.evade_chance >= SCALE && hunter.result.damage_taken == 0
                ==> h.result.damage_taken == 0,
            t >= now,
            f <= fuel,
        decreases h.stats.max_revives - h.revive_count,
    {
        let (h2, e2, out, t2, f2) = fight_one_enemy(h, e, t, f, rng);
        h = h2;
        e = e2;
        t = t2;
        f = f2;
        match out {
            FightOutcome::HunterDown => {
                if !h.try_revive() {
                    return (h, FightOutcome::HunterDown, t, f);
                }
            },
            FightOutcome::EnemyDown => {
                return (h, FightOutcome::EnemyDown, t, f);
            },
            FightOutcome::Stalled => {
                return (h, FightOutcome::Stalled, t, f);
            },
            FightOutcome::OutOfFuel => {
                return (h, FightOutcome::OutOfFuel, t, f);
            },
        }
    }
}

/// Spawn and fight this stage's roster: a single boss on boss stages, a
/// fixed-size roster of regular enemies otherwise.  Credits a kill and the
/// on-kill procs after each felled enemy.
fn run_stage(
    hunter: Hunter,
    catalog: &EnemyCatalog,
    now: u64,
    fuel: u64,
    rng: &mut rand::rngs::SmallRng,
) -> (r: (Hunter, StageOutcome, u64, u64))
    requires
        hunter.wf(),
        catalog.wf(),
        hunter.current_stage <= STAGE_LIMIT,
        hunter.revive_count <= hunter.stats.max_revives,
    ensures
        r.0.wf(),
        r.0.stats == hunter.stats,
        r.0.current_stage == hunter.current_stage,
        r.0.revive_count <= r.0.stats.max_revives,
        r.0.result.total_loot == hunter.result.total_loot,
        r.0.result.final_stage == hunter.result.final_stage,
        hunter.stats.evade_chance >= SCALE && hunter.result.damage_taken == 0
            ==> r.0.result.damage_taken == 0,
        r.2 >= now,
        r.3 <= fuel,
        r.1 is HunterDown ==> r.0.hp == 0,
        r.0.result.kills >= hunter.result.kills,
        hunter.current_stage == 0 && r.1 is Cleared ==> r.0.result.kills >= ROSTER_SIZE as u64,
{
    let stage = hunter.current_stage;
    if stage % BOSS_INTERVAL == 0 && stage > 0 {
        let boss = Enemy::new_boss(&catalog.boss[stage as usize], stage);
        let (mut h, out, t, f) = fight_encounter(hunter, boss, now, fuel, rng);
        match out {
            FightOutcome::HunterDown => (h, StageOutcome::HunterDown, t, f),
            FightOutcome::OutOfFuel => (h, StageOutcome::OutOfFuel, t, f),
            _ => {
                on_kill(&mut h, rng);
                h.result.kills = sat_add(h.result.kills, 1);
                (h, StageOutcome::Cleared, t, f)
            },
        }
    } else {
        let mut h = hunter;
        let mut t = now;
        let mut f = fuel;
        let mut i: usize = 0;
        while i < ROSTER_SIZE
            invariant
                h.wf(),
                catalog.wf(),
                stage == hunter.current_stage,
                stage <= STAGE_LIMIT,
                h.stats == hunter.stats,
                h.current_stage == hunter.current_stage,
                h.revive_count <= h.stats.max_revives,
                h.result.total_loot == hunter.result.total_loot,
                h.result.final_stage == hunter.result.final_stage,
                hunter.stats.evade_chance >= SCALE && hunter.result.damage_taken == 0
                    ==> h.result.damage_taken == 0,
                t >= now,
                f <= fuel,
                h.result.kills >= hunter.result.kills,
                h.result.kills as int >= i as int,
            decreases ROSTER_SIZE - i,
        {
            let enemy = Enemy::new(&catalog.regular[stage as usize]);
            let (h2, out, t2, f2) = fight_encounter(h, enemy, t, f, rng);
            h = h2;
            t = t2;
            f = f2;
            match out {
                FightOutcome::HunterDown => {
                    return (h, StageOutcome::HunterDown, t, f);
                },
                FightOutcome::OutOfFuel => {
                    return (h, StageOutcome::OutOfFuel, t, f);
                },
                _ => {
                    on_kill(&mut h, rng);
                    h.result.kills = sat_add(h.result.kills, 1);
                    i = i + 1;
                },
            }
        }
        (h, StageOutcome::Cleared, t, f)
    }
}

/// Run one playout with a caller-supplied random source, so a seeded source
/// reproduces the same run.  The playout walks stages from zero until the
/// hunter's terminal death, the stage ceiling, or the event budget, and
/// returns the accumulated record.
pub fn run_simulation_with_rng(
    config: &HunterStats,
    catalog: &EnemyCatalog,
    rng: &mut rand::rngs::SmallRng,
) -> (r: SimResult)
    requires
        catalog.wf(),
    ensures
        r.final_stage <= STAGE_LIMIT + 1,
        config.evade_chance >= SCALE ==> r.damage_taken == 0,
        r.total_loot == loot_sum_spec(r.final_stage as int, config.loot_mult),
        r.final_stage > 0 ==> r.kills >= ROSTER_SIZE as u64,
{
    let mut hunter = Hunter::from_config(config);
    let mut elapsed: u64 = 0;
    let mut fuel: u64 = EVENT_LIMIT;
    loop
        invariant_except_break
            hunter.wf(),
            hunter.stats == *config,
            hunter.current_stage <= STAGE_LIMIT,
            hunter.revive_count <= hunter.stats.max_revives,
            catalog.wf(),
            config.evade_chance >= SCALE ==> hunter.result.damage_taken == 0,
            hunter.result.total_loot == loot_sum_spec(
                hunter.current_stage as int,
                config.loot_mult,
            ),
            hunter.current_stage > 0 ==> hunter.result.kills >= ROSTER_SIZE as u64,
        ensures
            hunter.current_stage <= STAGE_LIMIT + 1,
            config.evade_chance >= SCALE ==> hunter.result.damage_taken == 0,
            hunter.result.total_loot == loot_sum_spec(
                hunter.current_stage as int,
                config.loot_mult,
            ),
            hunter.current_stage > 0 ==> hunter.result.kills >= ROSTER_SIZE as u64,
        decreases STAGE_LIMIT + 1 - hunter.current_stage,
    {
        let (h2, out, t2, f2) = run_stage(hunter, catalog, elapsed, fuel, rng);
        hunter = h2;
        elapsed = t2;
        fuel = f2;
        match out {
            StageOutcome::HunterDown => {
                break ;
            },
            StageOutcome::OutOfFuel => {
                break ;
            },
            StageOutcome::Cleared => {
                on_stage_complete(&mut hunter, rng);
                let loot = hunter.calculate_loot();
                hunter.result.total_loot = sat_add(hunter.result.total_loot, loot);
                hunter.current_stage = hunter.current_stage + 1;
                if hunter.current_stage > STAGE_LIMIT {
                    break ;
                }
            },
        }
    }
    hunter.result.final_stage = hunter.current_stage;
    hunter.result.elapsed_time = elapsed;
    hunter.result
}

/// Run one playout from operating-system entropy: statistically, not
/// bit-wise, reproducible.
pub fn run_simulation(config: &HunterStats, catalog: &EnemyCatalog) -> (r: SimResult)
    requires
        catalog.wf(),
    ensures
        r.final_stage <= STAGE_LIMIT + 1,
        config.evade_chance >= SCALE ==> r.damage_taken == 0,
        r.total_loot == loot_sum_spec(r.final_stage as int, config.loot_mult),
        r.final_stage > 0 ==> r.kills >= ROSTER_SIZE as u64,
{
    let mut rng = rng_from_entropy();
    run_simulation_with_rng(config, catalog, &mut rng)
}

/// Run a batch of independent playouts one after the other, sharing one
/// entropy-seeded random source.
pub fn run_simulations_sequential(
    config: &HunterStats,
    catalog: &EnemyCatalog,
    count: usize,
) -> (rs: Vec<SimResult>)
    requires
        catalog.wf(),
    ensures
        rs.len() == count,
        forall|i: int| 0 <= i < count ==> #[trigger] rs[i].final_stage <= STAGE_LIMIT + 1,
        config.evade_chance >= SCALE ==> forall|i: int| 0 <= i < count
            ==> #[trigger] rs[i].damage_taken == 0,
        forall|i: int| 0 <= i < count ==> (#[trigger] rs[i]).total_loot == loot_sum_spec(
            rs[i].final_stage as int,
            config.loot_mult,
        ),
        forall|i: int| 0 <= i < count && (#[trigger] rs[i]).final_stage > 0 ==> rs[i].kills
            >= ROSTER_SIZE as u64,
{
    let mut rng = rng_from_entropy();
    run_simulations_seeded(config, catalog, count, &mut rng)
}

/// Run a batch of independent playouts from one caller-supplied random
/// source, so a seeded batch reproduces the same results in the same order.
pub fn run_simulations_seeded(
    config: &HunterStats,
    catalog: &EnemyCatalog,
    count: usize,
    rng: &mut rand::rngs::SmallRng,
) -> (rs: Vec<SimResult>)
    requires
        catalog.wf(),
    ensures
        rs.len() == count,
        forall|i: int| 0 <= i < count ==> #[trigger] rs[i].final_stage <= STAGE_LIMIT + 1,
        config.evade_chance >= SCALE ==> forall|i: int| 0 <= i < count
            ==> #[trigger] rs[i].damage_taken == 0,
        forall|i: int| 0 <= i < count ==> (#[trigger] rs[i]).total_loot == loot_sum_spec(
            rs[i].final_stage as int,
            config.loot_mult,
        ),
        forall|i: int| 0 <= i < count && (#[trigger] rs[i]).final_stage > 0 ==> rs[i].kills
            >= ROSTER_SIZE as u64,
{
    let mut rs: Vec<SimResult> = Vec::new();
    let mut k: usize = 0;
    while k < count
        invariant
            catalog.wf(),
            k == rs.len(),
            k <= count,
            forall|i: int| 0 <= i < k ==> #[trigger] rs[i].final_stage <= STAGE_LIMIT + 1,
            config.evade_chance >= SCALE ==> forall|i: int| 0 <= i < k
                ==> #[trigger] rs[i].damage_taken == 0,
            forall|i: int| 0 <= i < k ==> (#[trigger] rs[i]).total_loot == loot_sum_spec(
                rs[i].final_stage as int,
                config.loot_mult,
            ),
            forall|i: int| 0 <= i < k && (#[trigger] rs[i]).final_stage > 0 ==> rs[i].kills
                >= ROSTER_SIZE as u64,
        decreases count - k,
    {
        let r = run_simulation_with_rng(config, catalog, rng);
        rs.push(r);
        k = k + 1;
    }
    rs
}

/// Run a sequential batch and fold it into summary statistics.
pub fn run_and_aggregate(
    config: &HunterStats,
    catalog: &EnemyCatalog,
    count: usize,
) -> (stats: crate::stats::AggregatedStats)
    requires
        catalog.wf(),
    ensures
        count == 0 ==> stats == crate::stats::AggregatedStats::zeroed(),
        count > 0 ==> stats.runs == count,
        count > 0 ==> (stats.min_stage as int) * SCALE <= stats.avg_stage as int <= (
        stats.max_stage as int) * SCALE,
{
    let results = run_simulations_sequential(config, catalog, count);
    crate::stats::AggregatedStats::from_results(&results)
}

} // verus!
