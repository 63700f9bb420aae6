//! Enemy actors, including the boss variant with its enrage mechanic.
//!
//! Stage-scaled raw numbers come from outside the library as an
//! `EnemyStats` bundle; the constructors here apply the caps and derive the
//! boss's secondary action channel.

use vstd::prelude::*;
use crate::fixed::{fp_mul, fp_mul_spec, lemma_u64_product_fits, min64, min_spec, sat_add, sat_add_spec, sat_sub, sat_sub_spec, sat_mul_spec};
use crate::SCALE;

verus! {

/// Cap on a regular enemy's critical chance, micro.
pub const REGULAR_CRIT_CHANCE_CAP: u64 = 250_000;

/// Cap on a regular enemy's critical damage multiplier, micro.
pub const REGULAR_CRIT_DAMAGE_CAP: u64 = 2_500_000;

/// Cap on a boss's critical chance, micro.
pub const BOSS_CRIT_CHANCE_CAP: u64 = 300_000;

/// Cap on a boss's critical damage multiplier, micro.
pub const BOSS_CRIT_DAMAGE_CAP: u64 = 5_000_000;

/// Stage from which a boss gains its secondary action channel.
pub const BOSS_SECONDARY_STAGE: u32 = 200;

/// The secondary channel fires at 1.8 times the attack cadence, micro.
pub const SECONDARY_SPEED_FACTOR: u64 = 1_800_000;

/// Enrage stacks beyond which attacks are amplified, guaranteed crits.
pub const ENRAGE_CRIT_THRESHOLD: u64 = 200;

/// Power multiplier past the enrage threshold.
pub const ENRAGE_POWER_FACTOR: u64 = 3;

/// Each enrage stack removes `base_speed / 200` from the cadence.
pub const ENRAGE_SPEED_DIVISOR: u64 = 200;

/// Cadence never drops below half a second, micro-seconds.
pub const MIN_ENEMY_SPEED: u64 = 500_000;

/// Raw stage-scaled numbers for one enemy, before caps.  `damage_factor` is
/// the multiplier applied to damage the enemy receives (`SCALE` means no
/// mitigation; above `SCALE` the enemy takes amplified damage).
#[derive(Clone, Copy, PartialEq, Eq, Structural, Debug)]
pub struct EnemyStats {
    pub hp: u64,
    pub power: u64,
    pub regen: u64,
    pub special_chance: u64,
    pub special_damage: u64,
    pub damage_factor: u64,
    pub evade_chance: u64,
    pub effect_chance: u64,
    pub speed: u64,
}

/// A live enemy actor.
#[derive(Clone, Copy, PartialEq, Eq, Structural, Debug)]
pub struct Enemy {
    /// Current health, micro; never exceeds `max_hp`.
    pub hp: u64,
    pub max_hp: u64,
    pub power: u64,
    /// Power before enrage amplification; attacks always draw from this.
    pub base_power: u64,
    pub regen: u64,
    pub damage_factor: u64,
    pub evade_chance: u64,
    pub effect_chance: u64,
    pub special_chance: u64,
    pub special_damage: u64,
    /// Current seconds between attacks, micro-seconds.
    pub speed: u64,
    pub base_speed: u64,
    pub is_boss: bool,
    pub is_stunned: bool,
    /// Simulation time at which a stun wears off, micro-seconds.
    pub stun_end_time: u64,
    pub enrage_stacks: u64,
    pub has_secondary: bool,
    pub speed2: u64,
    pub base_speed2: u64,
}

/// The cadence after `stacks` enrage stacks: the base cadence shrinks
/// linearly by one two-hundredth per stack, floored at the minimum.
pub open spec fn enraged_speed_spec(base: u64, stacks: u64) -> u64 {
    let red = stacks * base / (ENRAGE_SPEED_DIVISOR as int);
    if base - red >= MIN_ENEMY_SPEED {
        (base - red) as u64
    } else {
        MIN_ENEMY_SPEED
    }
}

fn enraged_speed(base: u64, stacks: u64) -> (r: u64)
    ensures
        r == enraged_speed_spec(base, stacks),
{
    proof {
        lemma_u64_product_fits(stacks, base);
    }
    let red: u128 = (stacks as u128) * (base as u128) / (ENRAGE_SPEED_DIVISOR as u128);
    let shrunk: u64 = if red > base as u128 {
        0
    } else {
        (base as u128 - red) as u64
    };
    if shrunk >= MIN_ENEMY_SPEED {
        shrunk
    } else {
        MIN_ENEMY_SPEED
    }
}

impl Enemy {
    /// Health stays within its declared bounds.
    pub open spec fn wf(self) -> bool {
        self.hp <= self.max_hp
    }

    /// Spawn a regular enemy: full health, crit chance and multiplier capped
    /// at the regular-enemy limits, no secondary channel.
    pub fn new(stats: &EnemyStats) -> (e: Enemy)
        ensures
            e == (Enemy {
                hp: stats.hp,
                max_hp: stats.hp,
                power: stats.power,
                base_power: stats.power,
                regen: stats.regen,
                damage_factor: stats.damage_factor,
                evade_chance: stats.evade_chance,
                effect_chance: stats.effect_chance,
                special_chance: min_spec(stats.special_chance, REGULAR_CRIT_CHANCE_CAP),
                special_damage: min_spec(stats.special_damage, REGULAR_CRIT_DAMAGE_CAP),
                speed: stats.speed,
                base_speed: stats.speed,
                is_boss: false,
                is_stunned: false,
                stun_end_time: 0u64,
                enrage_stacks: 0u64,
                has_secondary: false,
                speed2: 0u64,
                base_speed2: 0u64,
            }),
            e.wf(),
    {
        Enemy {
            hp: stats.hp,
            max_hp: stats.hp,
            power: stats.power,
            base_power: stats.power,
            regen: stats.regen,
            damage_factor: stats.damage_factor,
            evade_chance: stats.evade_chance,
            effect_chance: stats.effect_chance,
            special_chance: min64(stats.special_chance, REGULAR_CRIT_CHANCE_CAP),
            special_damage: min64(stats.special_damage, REGULAR_CRIT_DAMAGE_CAP),
            speed: stats.speed,
            base_speed: stats.speed,
            is_boss: false,
            is_stunned: false,
            stun_end_time: 0,
            enrage_stacks: 0,
            has_secondary: false,
            speed2: 0,
            base_speed2: 0,
        }
    }

    /// The secondary-channel cadence a boss spawns with: 1.8 times its
    /// attack cadence from the secondary stage onward, else none.
    pub open spec fn boss_speed2_spec(stats: EnemyStats, stage: u32) -> u64 {
        if stage >= BOSS_SECONDARY_STAGE {
            fp_mul_spec(stats.speed, SECONDARY_SPEED_FACTOR)
        } else {
            0
        }
    }

    /// Spawn a boss: full health, the wider boss caps, and from the
    /// secondary stage onward a slower secondary action channel.
    pub fn new_boss(stats: &EnemyStats, stage: u32) -> (e: Enemy)
        ensures
            e == (Enemy {
                hp: stats.hp,
                max_hp: stats.hp,
                power: stats.power,
                base_power: stats.power,
                regen: stats.regen,
                damage_factor: stats.damage_factor,
                evade_chance: stats.evade_chance,
                effect_chance: stats.effect_chance,
                special_chance: min_spec(stats.special_chance, BOSS_CRIT_CHANCE_CAP),
                special_damage: min_spec(stats.special_damage, BOSS_CRIT_DAMAGE_CAP),
                speed: stats.speed,
                base_speed: stats.speed,
                is_boss: true,
                is_stunned: false,
                stun_end_time: 0u64,
                enrage_stacks: 0u64,
                has_secondary: stage >= BOSS_SECONDARY_STAGE,
                speed2: Enemy::boss_speed2_spec(*stats, stage),
                base_speed2: Enemy::boss_speed2_spec(*stats, stage),
            }),
            e.wf(),
    {
        let speed2 = if stage >= BOSS_SECONDARY_STAGE {
            fp_mul(stats.speed, SECONDARY_SPEED_FACTOR)
        } else {
            0
        };
        Enemy {
            hp: stats.hp,
            max_hp: stats.hp,
            power: stats.power,
            base_power: stats.power,
            regen: stats.regen,
            damage_factor: stats.damage_factor,
            evade_chance: stats.evade_chance,
            effect_chance: stats.effect_chance,
            special_chance: min64(stats.special_chance, BOSS_CRIT_CHANCE_CAP),
            special_damage: min64(stats.special_damage, BOSS_CRIT_DAMAGE_CAP),
            speed: stats.speed,
            base_speed: stats.speed,
            is_boss: true,
            is_stunned: false,
            stun_end_time: 0,
            enrage_stacks: 0,
            has_secondary: stage >= BOSS_SECONDARY_STAGE,
            speed2,
            base_speed2: speed2,
        }
    }

    /// Dead exactly when health has been driven to zero.
    pub fn is_dead(&self) -> (d: bool)
        ensures
            d == (self.hp == 0),
    {
        self.hp == 0
    }

    /// Apply incoming damage: the enemy's damage factor scales it, health is
    /// clamped at zero, and the scaled amount actually applied is returned.
    pub fn take_damage(&mut self, damage: u64) -> (actual: u64)
        requires
            old(self).wf(),
        ensures
            final(self).wf(),
            actual == fp_mul_spec(damage, old(self).damage_factor),
            *final(self) == (Enemy { hp: sat_sub_spec(old(self).hp, actual), ..*old(self) }),
    {
        let actual = fp_mul(damage, self.damage_factor);
        self.hp = sat_sub(self.hp, actual);
        actual
    }

    /// Apply one regeneration tick: a living, wounded enemy heals by its
    /// regen rate, clamped to max health.  A dead enemy stays dead.
    pub fn regen_hp(&mut self)
        requires
            old(self).wf(),
        ensures
            final(self).wf(),
            old(self).hp == 0 || old(self).hp == old(self).max_hp ==> *final(self) == *old(self),
            0 < old(self).hp < old(self).max_hp ==> *final(self) == (Enemy {
                hp: min_spec(sat_add_spec(old(self).hp, old(self).regen), old(self).max_hp),
                ..*old(self)
            }),
    {
        if self.hp < self.max_hp && self.hp > 0 {
            self.hp = min64(sat_add(self.hp, self.regen), self.max_hp);
        }
    }

    /// The power behind one attack: tripled past the enrage threshold.
    pub open spec fn attack_power(self) -> u64 {
        if self.enrage_stacks > ENRAGE_CRIT_THRESHOLD {
            sat_mul_spec(self.base_power, ENRAGE_POWER_FACTOR)
        } else {
            self.base_power
        }
    }

    /// The damage of a critical attack, micro.
    pub open spec fn crit_damage(self) -> u64 {
        fp_mul_spec(self.attack_power(), self.special_damage)
    }

    /// Draw one attack.  Past the enrage threshold the attack is always an
    /// amplified crit; otherwise the crit roll is random, but an enemy with
    /// zero crit chance never crits.  Returns the damage and the crit flag.
    pub fn get_attack_damage(&self, rng: &mut rand::rngs::SmallRng) -> (r: (u64, bool))
        ensures
            r.1 ==> r.0 == self.crit_damage(),
            !r.1 ==> r.0 == self.attack_power(),
            self.enrage_stacks > ENRAGE_CRIT_THRESHOLD ==> r.1,
            self.enrage_stacks <= ENRAGE_CRIT_THRESHOLD && self.special_chance == 0 ==> !r.1,
    {
        let power = if self.enrage_stacks > ENRAGE_CRIT_THRESHOLD {
            crate::fixed::sat_mul(self.base_power, ENRAGE_POWER_FACTOR)
        } else {
            self.base_power
        };
        let crit_chance = if self.enrage_stacks > ENRAGE_CRIT_THRESHOLD {
            SCALE
        } else {
            self.special_chance
        };
        if crate::rng::roll(rng, crit_chance) {
            (fp_mul(power, self.special_damage), true)
        } else {
            (power, false)
        }
    }

    /// Add one enrage stack (bosses only, while unstunned by the caller's
    /// gate): below the crit threshold enrage only slows the boss's own
    /// cadence toward the floor; it never changes damage here.
    pub fn add_enrage(&mut self)
        requires
            old(self).wf(),
        ensures
            final(self).wf(),
            !old(self).is_boss ==> *final(self) == *old(self),
            old(self).is_boss ==> {
                let stacks = sat_add_spec(old(self).enrage_stacks, 1);
                *final(self) == (Enemy {
                    enrage_stacks: stacks,
                    speed: enraged_speed_spec(old(self).base_speed, stacks),
                    speed2: if old(self).has_secondary && old(self).base_speed2 > 0 {
                        enraged_speed_spec(old(self).base_speed2, stacks)
                    } else {
                        old(self).speed2
                    },
                    ..*old(self)
                })
            },
    {
        if self.is_boss {
            self.enrage_stacks = sat_add(self.enrage_stacks, 1);
            self.speed = enraged_speed(self.base_speed, self.enrage_stacks);
            if self.has_secondary && self.base_speed2 > 0 {
                self.speed2 = enraged_speed(self.base_speed2, self.enrage_stacks);
            }
        }
    }

    /// Current attack cadence, after any enrage slowdown.
    pub fn get_speed(&self) -> (s: u64)
        ensures
            s == self.speed,
    {
        self.speed
    }

    /// Current secondary-channel cadence, after any enrage slowdown.
    pub fn get_speed2(&self) -> (s: u64)
        ensures
            s == self.speed2,
    {
        self.speed2
    }
}

} // verus!
