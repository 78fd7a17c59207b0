//! What the player's bullets do to enemies and to the boss.
//!
//! Each bullet that strikes takes `HIT_DAMAGE` hit points and is used up.
//! A target whose hit points reach zero dies, on that bullet; the bullets
//! after it fly on. The boss can only be hurt while it is turned far enough
//! from upright.

use vstd::prelude::*;
use crate::health::Health;
use crate::item::{ItemBurst, Region};

verus! {

/// Hit points that one player bullet takes.
pub const HIT_DAMAGE: u32 = 2;

/// Pickups that a dying enemy or boss drops.
pub const DEATH_ITEMS: u32 = 32;

/// Half the side of the square over which those pickups are scattered.
pub const DEATH_ITEM_SPREAD: i32 = 50_000;

/// The least rotation at which the boss can be hurt: a quarter turn.
pub const GATE_OPENS: i32 = 90_000_000;

/// The greatest rotation at which the boss can be hurt: three quarter turns.
pub const GATE_CLOSES: i32 = 270_000_000;

/// Raised when the boss dies.
#[derive(Clone, Copy, Debug, PartialEq, Eq, Structural)]
pub struct BossDiedEvent;

/// An enemy or the boss, and the player bullets that touch it on this tick.
#[derive(Clone, Copy, Debug, PartialEq, Eq, Structural)]
pub struct DamageTarget {
    pub health: Health,
    /// For the boss, how far it is turned; `None` for an enemy.
    pub boss_rotation: Option<i32>,
    /// Player bullets in touch with the target.
    pub bullets: u32,
}

/// What became of a target on this tick.
#[derive(Clone, Copy, Debug, PartialEq, Eq, Structural)]
pub struct DamageReport {
    /// The target's hit points after the tick.
    pub health: Health,
    /// How many of the bullets struck and are used up.
    pub consumed: u32,
    /// Whether the target died on this tick and is to be removed.
    pub died: bool,
    /// Raised if the target that died is the boss.
    pub boss_died: Option<BossDiedEvent>,
    /// The pickups to scatter around a target that died.
    pub items: Option<ItemBurst>,
}

/// Whether a boss turned by `rotation` can be hurt.
pub open spec fn accepts_damage(rotation: i32) -> bool {
    GATE_OPENS <= rotation <= GATE_CLOSES
}

/// Whether a target can be hurt at all on this tick.
pub open spec fn vulnerable(target: DamageTarget) -> bool {
    match target.boss_rotation {
        Some(rotation) => accepts_damage(rotation),
        None => true,
    }
}

/// How many of `bullets` strike a target with `health` hit points: all of
/// them, or as many as it takes to bring the hit points to zero.
pub open spec fn hits_taken(health: u32, bullets: u32) -> int {
    let lethal = (health + HIT_DAMAGE - 1) / (HIT_DAMAGE as int);
    if bullets <= lethal {
        bullets as int
    } else {
        lethal
    }
}

/// The hit points left of `health` after `hits` bullets struck.
pub open spec fn health_left(health: u32, hits: int) -> int {
    if hits * HIT_DAMAGE >= health {
        0
    } else {
        health - hits * HIT_DAMAGE
    }
}

/// The pickups that a dying target drops.
pub open spec fn death_reward() -> ItemBurst {
    ItemBurst { count: DEATH_ITEMS, region: Region::Square(DEATH_ITEM_SPREAD) }
}

/// What becomes of `target` on this tick.
pub open spec fn report_for(target: DamageTarget) -> DamageReport {
    let hits = if vulnerable(target) {
        hits_taken(target.health.health, target.bullets)
    } else {
        0
    };
    let left = health_left(target.health.health, hits);
    let died = hits > 0 && left == 0;
    DamageReport {
        health: Health { health: left as u32, max_health: target.health.max_health },
        consumed: hits as u32,
        died,
        boss_died: if died && target.boss_rotation.is_some() {
            Some(BossDiedEvent)
        } else {
            None
        },
        items: if died {
            Some(death_reward())
        } else {
            None
        },
    }
}

/// Whether a boss turned by `rotation` can be hurt: it is turned by at least
/// a quarter turn and at most three.
pub fn boss_accepts_damage(rotation: i32) -> (open: bool)
    ensures
        open == accepts_damage(rotation),
{
    !(rotation < GATE_OPENS || rotation > GATE_CLOSES)
}

/// Books the player bullets that touch one target.
pub fn damage_target(target: &DamageTarget) -> (report: DamageReport)
    ensures
        report == report_for(*target),
{
    let open = match target.boss_rotation {
        Some(rotation) => boss_accepts_damage(rotation),
        None => true,
    };
    let health: u64 = target.health.health as u64;
    let lethal: u64 = (health + HIT_DAMAGE as u64 - 1) / HIT_DAMAGE as u64;
    let hits: u64 = if !open {
        0
    } else if target.bullets as u64 <= lethal {
        target.bullets as u64
    } else {
        lethal
    };
    let left: u64 = if hits * HIT_DAMAGE as u64 >= health {
        0
    } else {
        health - hits * HIT_DAMAGE as u64
    };
    let died = hits > 0 && left == 0;
    DamageReport {
        health: Health { health: left as u32, max_health: target.health.max_health },
        consumed: hits as u32,
        died,
        boss_died: if died && target.boss_rotation.is_some() {
            Some(BossDiedEvent)
        } else {
            None
        },
        items: if died {
            Some(ItemBurst { count: DEATH_ITEMS, region: Region::Square(DEATH_ITEM_SPREAD) })
        } else {
            None
        },
    }
}

/// Whether any of the first `upto` targets was struck.
pub open spec fn any_struck(targets: Seq<DamageTarget>, upto: int) -> bool {
    exists|i: int| 0 <= i < upto && #[trigger] report_for(targets[i]).consumed > 0
}

/// Books the player bullets that touch enemies and the boss on one tick.
///
/// Returns one report for each target, in order, and whether the sound of a
/// hit is due: once per tick, however many were struck.
pub fn enemy_damage(targets: &Vec<DamageTarget>) -> (result: (Vec<DamageReport>, bool))
    ensures
        result.0@.len() == targets@.len(),
        forall|i: int|
            0 <= i < targets@.len() ==> #[trigger] result.0@[i] == report_for(targets@[i]),
        result.1 == any_struck(targets@, targets@.len() as int),
{
    let mut reports: Vec<DamageReport> = Vec::new();
    let mut hit_any = false;
    let mut i: usize = 0;
    while i < targets.len()
        invariant
            i <= targets.len(),
            reports@.len() == i,
            forall|k: int| 0 <= k < i ==> #[trigger] reports@[k] == report_for(targets@[k]),
            hit_any == any_struck(targets@, i as int),
        decreases targets.len() - i,
    {
        let report = damage_target(&targets[i]);
        if report.consumed > 0 {
            hit_any = true;
        }
        reports.push(report);
        i = i + 1;
    }
    (reports, hit_any)
}

/// The hit points of a target that is open to damage after the ticks
/// `frames`, each naming the bullets that touch it.
pub open spec fn health_after(health: u32, frames: Seq<u32>) -> u32
    decreases frames.len(),
{
    if frames.len() == 0 {
        health
    } else {
        health_after(health_left(health, hits_taken(health, frames[0])) as u32, frames.skip(1))
    }
}

/// How often a target that is open to damage dies over the ticks `frames`.
pub open spec fn deaths(health: u32, frames: Seq<u32>) -> nat
    decreases frames.len(),
{
    if frames.len() == 0 {
        0
    } else {
        let hits = hits_taken(health, frames[0]);
        let first: nat = if hits > 0 && health_left(health, hits) == 0 {
            1
        } else {
            0
        };
        first + deaths(health_left(health, hits) as u32, frames.skip(1))
    }
}

/// A strike never takes more bullets than there are nor more than it needs,
/// never raises the hit points, and leaves nothing to take from a target at
/// zero.
pub proof fn lemma_strike(health: u32, bullets: u32)
    ensures
        0 <= hits_taken(health, bullets) <= bullets,
        0 <= health_left(health, hits_taken(health, bullets)) <= health,
        health == 0 ==> hits_taken(health, bullets) == 0,
        health > 0 && bullets > 0 ==> hits_taken(health, bullets) > 0,
        health_left(health, hits_taken(health, bullets)) == (if bullets * HIT_DAMAGE >= health {
            0
        } else {
            health - bullets * HIT_DAMAGE
        }),
{
}

/// A target dies at most once: on the tick that brings its hit points to
/// zero, after which no bullet strikes it.
pub proof fn lemma_dies_once(health: u32, frames: Seq<u32>)
    ensures
        deaths(health, frames) <= 1,
        health == 0 ==> deaths(health, frames) == 0 && health_after(health, frames) == 0,
        health > 0 ==> (deaths(health, frames) == 1) == (health_after(health, frames) == 0),
        health_after(health, frames) <= health,
    decreases frames.len(),
{
    if frames.len() > 0 {
        lemma_strike(health, frames[0]);
        lemma_dies_once(
            health_left(health, hits_taken(health, frames[0])) as u32,
            frames.skip(1),
        );
    }
}

} // verus!
