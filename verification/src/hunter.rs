//! The player actor: resolved attributes plus mutable run state.
//!
//! Deriving the numbers in `HunterStats` from a raw build file is formula
//! evaluation that happens outside the library; the simulator consumes the
//! resolved bundle as plain fixed-point values.

use vstd::prelude::*;
use crate::SCALE;
use crate::config::HunterType;
use crate::fixed::{
    fp_mul, fp_mul_spec, min64, min_spec, sat_add, sat_add_spec, sat_mul, sat_mul_spec,
};
use crate::stats::SimResult;

verus! {

/// Extra regeneration per empowered tick, per level of the elixir, micro.
pub const VECTID_REGEN_BONUS: u64 = 150_000;

/// Extra regeneration per post-block tick, per level of the elixir, micro.
pub const FORTIFICATION_REGEN_BONUS: u64 = 100_000;

/// Missing-health fraction regenerated per inhaler level, micro.
pub const LIFEDRAIN_RATE: u64 = 800;

/// Base fraction of max health restored on revive, micro.
pub const REVIVE_BASE_FRACTION: u64 = 100_000;

/// Additional revive fraction per talent level, micro.
pub const REVIVE_PER_LEVEL: u64 = 50_000;

/// Additional loot fraction per cleared stage, micro.
pub const LOOT_PER_STAGE: u64 = 100_000;

/// One actor's resolved combat attributes: an opaque bundle of fixed-point
/// micro-values and integer talent/attribute levels, immutable for the whole
/// playout.
#[derive(Clone, Copy, PartialEq, Eq, Structural, Debug)]
pub struct HunterStats {
    pub hunter_type: HunterType,
    pub level: u32,
    // Core stats, micro.
    pub max_hp: u64,
    pub power: u64,
    pub regen: u64,
    pub damage_reduction: u64,
    pub evade_chance: u64,
    pub effect_chance: u64,
    pub special_chance: u64,
    pub special_damage: u64,
    /// Seconds between attacks, micro-seconds.
    pub speed: u64,
    pub lifesteal: u64,
    // Knox-specific, micro.
    pub block_chance: u64,
    pub charge_chance: u64,
    pub charge_gained: u64,
    pub salvo_projectiles: u32,
    // Talent levels.
    pub death_is_my_companion: u32,
    pub life_of_the_hunt: u32,
    pub unfair_advantage: u32,
    pub omen_of_defeat: u32,
    pub presence_of_god: u32,
    pub fires_of_war: u32,
    pub multistriker: u32,
    pub echo_location: u32,
    pub tricksters_boon: u32,
    pub crippling_shots: u32,
    pub omen_of_decay: u32,
    pub echo_bullets: u32,
    pub thousand_needles: u32,
    pub calypsos_advantage: u32,
    pub ghost_bullets: u32,
    pub finishing_move: u32,
    // Attribute levels.
    pub dance_of_dashes: u32,
    pub vectid_elixir: u32,
    pub helltouch_barrier_level: u32,
    pub atlas_protocol: u32,
    pub born_for_battle: u32,
    pub lifedrain_inhalers: u32,
    pub weakspot_analysis: u32,
    pub soul_of_athena: u32,
    pub soul_of_hermes: u32,
    pub soul_of_the_minotaur: u32,
    pub soul_of_snek: u32,
    pub cycle_of_death: u32,
    pub gift_of_medusa: u32,
    pub deal_with_death: u32,
    pub space_pirate_armory: u32,
    pub soul_amplification: u32,
    pub fortification_elixir: u32,
    // Mod flags.
    pub has_trample: bool,
    pub has_decay: bool,
    /// Multiplier on stage loot, micro.
    pub loot_mult: u64,
    pub max_revives: u32,
}

impl HunterStats {
    /// The all-zero bundle for a given archetype: a convenience starting
    /// point for callers that fill in only the attributes they care about.
    pub open spec fn zeroed_spec(t: HunterType) -> HunterStats {
        HunterStats {
            hunter_type: t,
            level: 0,
            max_hp: 0,
            power: 0,
            regen: 0,
            damage_reduction: 0,
            evade_chance: 0,
            effect_chance: 0,
            special_chance: 0,
            special_damage: 0,
            speed: 0,
            lifesteal: 0,
            block_chance: 0,
            charge_chance: 0,
            charge_gained: 0,
            salvo_projectiles: 0,
            death_is_my_companion: 0,
            life_of_the_hunt: 0,
            unfair_advantage: 0,
            omen_of_defeat: 0,
            presence_of_god: 0,
            fires_of_war: 0,
            multistriker: 0,
            echo_location: 0,
            tricksters_boon: 0,
            crippling_shots: 0,
            omen_of_decay: 0,
            echo_bullets: 0,
            thousand_needles: 0,
            calypsos_advantage: 0,
            ghost_bullets: 0,
            finishing_move: 0,
            dance_of_dashes: 0,
            vectid_elixir: 0,
            helltouch_barrier_level: 0,
            atlas_protocol: 0,
            born_for_battle: 0,
            lifedrain_inhalers: 0,
            weakspot_analysis: 0,
            soul_of_athena: 0,
            soul_of_hermes: 0,
            soul_of_the_minotaur: 0,
            soul_of_snek: 0,
            cycle_of_death: 0,
            gift_of_medusa: 0,
            deal_with_death: 0,
            space_pirate_armory: 0,
            soul_amplification: 0,
            fortification_elixir: 0,
            has_trample: false,
            has_decay: false,
            loot_mult: 0,
            max_revives: 0,
        }
    }

    pub fn zeroed(t: HunterType) -> (s: HunterStats)
        ensures
            s == HunterStats::zeroed_spec(t),
    {
        HunterStats {
            hunter_type: t,
            level: 0,
            max_hp: 0,
            power: 0,
            regen: 0,
            damage_reduction: 0,
            evade_chance: 0,
            effect_chance: 0,
            special_chance: 0,
            special_damage: 0,
            speed: 0,
            lifesteal: 0,
            block_chance: 0,
            charge_chance: 0,
            charge_gained: 0,
            salvo_projectiles: 0,
            death_is_my_companion: 0,
            life_of_the_hunt: 0,
            unfair_advantage: 0,
            omen_of_defeat: 0,
            presence_of_god: 0,
            fires_of_war: 0,
            multistriker: 0,
            echo_location: 0,
            tricksters_boon: 0,
            crippling_shots: 0,
            omen_of_decay: 0,
            echo_bullets: 0,
            thousand_needles: 0,
            calypsos_advantage: 0,
            ghost_bullets: 0,
            finishing_move: 0,
            dance_of_dashes: 0,
            vectid_elixir: 0,
            helltouch_barrier_level: 0,
            atlas_protocol: 0,
            born_for_battle: 0,
            lifedrain_inhalers: 0,
            weakspot_analysis: 0,
            soul_of_athena: 0,
            soul_of_hermes: 0,
            soul_of_the_minotaur: 0,
            soul_of_snek: 0,
            cycle_of_death: 0,
            gift_of_medusa: 0,
            deal_with_death: 0,
            space_pirate_armory: 0,
            soul_amplification: 0,
            fortification_elixir: 0,
            has_trample: false,
            has_decay: false,
            loot_mult: 0,
            max_revives: 0,
        }
    }
}

/// Loot awarded for clearing `stage`: one unit plus a tenth per stage
/// index, times the build's loot multiplier, micro.
pub open spec fn stage_loot_at(stage: u64, loot_mult: u64) -> u64 {
    fp_mul_spec(sat_add_spec(SCALE, sat_mul_spec(stage, LOOT_PER_STAGE)), loot_mult)
}

/// The live player actor: the immutable bundle plus everything one playout
/// mutates.
#[derive(Clone, Copy, PartialEq, Eq, Structural, Debug)]
pub struct Hunter {
    pub stats: HunterStats,
    /// Current health, micro; never exceeds `stats.max_hp`.
    pub hp: u64,
    pub current_stage: u32,
    pub revive_count: u32,
    pub trickster_charges: u64,
    pub empowered_regen: u64,
    pub empowered_block_regen: u64,
    pub hundred_souls_stacks: u64,
    pub decay_stacks: u64,
    pub result: SimResult,
}

impl Hunter {
    /// Health stays within its declared bounds.
    pub open spec fn wf(self) -> bool {
        self.hp <= self.stats.max_hp
    }

    /// Build a live hunter from a resolved bundle: full health, stage zero,
    /// no accumulated state.
    pub fn from_config(c: &HunterStats) -> (h: Hunter)
        ensures
            h.stats == *c,
            h.hp == c.max_hp,
            h.current_stage == 0,
            h.revive_count == 0,
            h.trickster_charges == 0,
            h.empowered_regen == 0,
            h.empowered_block_regen == 0,
            h.hundred_souls_stacks == 0,
            h.decay_stacks == 0,
            h.result == SimResult::zeroed(),
            h.wf(),
    {
        Hunter {
            stats: *c,
            hp: c.max_hp,
            current_stage: 0,
            revive_count: 0,
            trickster_charges: 0,
            empowered_regen: 0,
            empowered_block_regen: 0,
            hundred_souls_stacks: 0,
            decay_stacks: 0,
            result: SimResult::default(),
        }
    }

    /// Restore the hunter to its pre-playout state.
    pub fn reset(&mut self)
        ensures
            final(self).stats == old(self).stats,
            final(self).hp == old(self).stats.max_hp,
            final(self).current_stage == 0,
            final(self).revive_count == 0,
            final(self).trickster_charges == 0,
            final(self).empowered_regen == 0,
            final(self).empowered_block_regen == 0,
            final(self).hundred_souls_stacks == 0,
            final(self).decay_stacks == 0,
            final(self).result == SimResult::zeroed(),
            final(self).wf(),
    {
        self.hp = self.stats.max_hp;
        self.current_stage = 0;
        self.revive_count = 0;
        self.trickster_charges = 0;
        self.empowered_regen = 0;
        self.empowered_block_regen = 0;
        self.hundred_souls_stacks = 0;
        self.decay_stacks = 0;
        self.result = SimResult::default();
    }

    /// Dead exactly when health has been driven to zero.
    pub fn is_dead(&self) -> (d: bool)
        ensures
            d == (self.hp == 0),
    {
        self.hp == 0
    }

    /// The regeneration a tick applies, before clamping to missing health:
    /// the base rate, compounded by one empowered charge and one post-block
    /// charge if held, plus a missing-health-proportional inhaler bonus.
    pub open spec fn regen_tick_amount(self) -> u64 {
        let base = if self.empowered_regen > 0 {
            fp_mul_spec(
                self.stats.regen,
                sat_add_spec(SCALE, sat_mul_spec(self.stats.vectid_elixir as u64, VECTID_REGEN_BONUS)),
            )
        } else {
            self.stats.regen
        };
        let boosted = if self.empowered_block_regen > 0 {
            fp_mul_spec(
                base,
                sat_add_spec(
                    SCALE,
                    sat_mul_spec(self.stats.fortification_elixir as u64, FORTIFICATION_REGEN_BONUS),
                ),
            )
        } else {
            base
        };
        let missing = (self.stats.max_hp - self.hp) as u64;
        let drain = if self.stats.lifedrain_inhalers > 0 {
            fp_mul_spec(missing, sat_mul_spec(self.stats.lifedrain_inhalers as u64, LIFEDRAIN_RATE))
        } else {
            0
        };
        sat_add_spec(boosted, drain)
    }

    /// Apply one regeneration tick.  Does nothing at full health; otherwise
    /// heals by `regen_tick_amount` clamped to missing health, consumes one
    /// empowered charge of each kind, and credits the healing to the record.
    pub fn regen_hp(&mut self)
        requires
            old(self).wf(),
        ensures
            final(self).wf(),
            final(self).stats == old(self).stats,
            old(self).hp == old(self).stats.max_hp ==> *final(self) == *old(self),
            old(self).hp < old(self).stats.max_hp ==> {
                let healed = min_spec(
                    old(self).regen_tick_amount(),
                    (old(self).stats.max_hp - old(self).hp) as u64,
                );
                &&& final(self).hp == old(self).hp + healed
                &&& final(self).result == (SimResult {
                    regenerated_hp: sat_add_spec(old(self).result.regenerated_hp, healed),
                    ..old(self).result
                })
                &&& final(self).empowered_regen == if old(self).empowered_regen > 0 {
                    (old(self).empowered_regen - 1) as u64
                } else {
                    0u64
                }
                &&& final(self).empowered_block_regen == if old(self).empowered_block_regen > 0 {
                    (old(self).empowered_block_regen - 1) as u64
                } else {
                    0u64
                }
                &&& final(self).current_stage == old(self).current_stage
                &&& final(self).revive_count == old(self).revive_count
                &&& final(self).trickster_charges == old(self).trickster_charges
                &&& final(self).hundred_souls_stacks == old(self).hundred_souls_stacks
                &&& final(self).decay_stacks == old(self).decay_stacks
            },
    {
        if self.hp < self.stats.max_hp {
            let ghost pre = *self;
            let base = if self.empowered_regen > 0 {
                self.empowered_regen = self.empowered_regen - 1;
                fp_mul(
                    self.stats.regen,
                    sat_add(SCALE, sat_mul(self.stats.vectid_elixir as u64, VECTID_REGEN_BONUS)),
                )
            } else {
                self.stats.regen
            };
            let boosted = if self.empowered_block_regen > 0 {
                self.empowered_block_regen = self.empowered_block_regen - 1;
                fp_mul(
                    base,
                    sat_add(
                        SCALE,
                        sat_mul(self.stats.fortification_elixir as u64, FORTIFICATION_REGEN_BONUS),
                    ),
                )
            } else {
                base
            };
            let missing = self.stats.max_hp - self.hp;
            let drain = if self.stats.lifedrain_inhalers > 0 {
                fp_mul(missing, sat_mul(self.stats.lifedrain_inhalers as u64, LIFEDRAIN_RATE))
            } else {
                0
            };
            let total = sat_add(boosted, drain);
            assert(total == pre.regen_tick_amount());
            let healed = min64(total, missing);
            self.hp = self.hp + healed;
            self.result.regenerated_hp = sat_add(self.result.regenerated_hp, healed);
        }
    }

    /// The health a revive restores: max health times the revive fraction,
    /// clamped to max health.
    pub open spec fn revive_hp(self) -> u64 {
        min_spec(
            fp_mul_spec(
                self.stats.max_hp,
                sat_add_spec(
                    REVIVE_BASE_FRACTION,
                    sat_mul_spec(self.stats.death_is_my_companion as u64, REVIVE_PER_LEVEL),
                ),
            ),
            self.stats.max_hp,
        )
    }

    /// Consume one revive if any remain: health returns to the revive
    /// fraction of max health.  Returns whether a revive was spent.
    pub fn try_revive(&mut self) -> (revived: bool)
        requires
            old(self).wf(),
        ensures
            final(self).wf(),
            final(self).stats == old(self).stats,
            revived == (old(self).revive_count < old(self).stats.max_revives),
            revived ==> *final(self) == (Hunter {
                revive_count: (old(self).revive_count + 1) as u32,
                hp: old(self).revive_hp(),
                ..*old(self)
            }),
            !revived ==> *final(self) == *old(self),
    {
        if self.revive_count < self.stats.max_revives {
            self.revive_count = self.revive_count + 1;
            let frac = sat_add(
                REVIVE_BASE_FRACTION,
                sat_mul(self.stats.death_is_my_companion as u64, REVIVE_PER_LEVEL),
            );
            self.hp = min64(fp_mul(self.stats.max_hp, frac), self.stats.max_hp);
            true
        } else {
            false
        }
    }

    /// Loot awarded for clearing the current stage: one unit plus a tenth
    /// per stage index, times the build's loot multiplier, micro.
    pub open spec fn stage_loot(self) -> u64 {
        stage_loot_at(self.current_stage as u64, self.stats.loot_mult)
    }

    /// Compute the loot for the stage the hunter currently stands on.
    pub fn calculate_loot(&self) -> (loot: u64)
        ensures
            loot == self.stage_loot(),
    {
        fp_mul(
            sat_add(SCALE, sat_mul(self.current_stage as u64, LOOT_PER_STAGE)),
            self.stats.loot_mult,
        )
    }
}

} // verus!
