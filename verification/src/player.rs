//! The player: one radius that is both size and remaining life.
//!
//! Every gain and loss is booked as area: the radius is squared, the amount
//! is added, the sum is clamped to `[0, max_area]`, and the integer square
//! root of that is the new radius. Equal areas therefore cost the same area
//! at every size, though not the same radius.

use vstd::prelude::*;
use crate::geometry::{
    floor_sqrt, is_floor_sqrt, isqrt, lemma_sqrt_exists, square, Polar, Vec2,
    DESPAWN_DISTANCE,
};
use crate::item::{disk_offset, draw, scatter_in_disk};

verus! {

/// A player whose radius is under this threshold is dead.
pub const MIN_RADIUS: u32 = 5_000;

/// The radius of a fresh player.
pub const START_RADIUS: u32 = 50_000;

/// The largest area of a fresh player: that of the starting radius.
pub const MAX_AREA: u64 = 2_500_000_000;

/// Area that one enemy bullet takes from the player.
pub const BULLET_COST: i64 = 80_000_000;

/// Area that one pickup gives to the player.
pub const ITEM_GAIN: i64 = 10_000_000;

/// Area that one attack takes from the player.
pub const ATTACK_COST: i64 = 100_000_000;

/// Bullets in the volley of a player at the starting radius.
pub const VOLLEY_AT_START: u32 = 64;

/// Radius of a player bullet.
pub const PLAYER_BULLET_SIZE: i32 = 6_000;

/// Radius of the disk in which the bullets of a volley start.
pub const VOLLEY_SPREAD: i32 = 50_000;

/// The player.
#[derive(Clone, Copy, Debug, PartialEq, Eq, Structural)]
pub struct Player {
    /// Current radius, in fixed-point steps.
    pub radius: u32,
    /// The area that the player never exceeds, in squared fixed-point steps.
    pub max_area: u64,
}

/// A bullet of the player's volley.
#[derive(Clone, Copy, Debug, PartialEq, Eq, Structural)]
pub struct PlayerBullet {
    /// Where the bullet appears, seen from the player's centre.
    pub offset: Polar,
    /// How the bullet flies, in steps per second: outward, twice as fast as
    /// it stands far out.
    pub velocity: Polar,
}

/// Raised when the player dies.
#[derive(Clone, Copy, Debug, PartialEq, Eq, Structural)]
pub struct PlayerDiedEvent;

/// The area of a disk-shaped budget of radius `radius` after `by` was added,
/// clamped to `[0, max_area]`.
pub open spec fn area_after(radius: int, by: int, max_area: int) -> int {
    let raw = radius * radius + by;
    if raw < 0 {
        0
    } else if raw > max_area {
        max_area
    } else {
        raw
    }
}

/// Bullets in the volley of a player of radius `radius`: linear in the
/// radius, rounded down.
pub open spec fn volley_size(radius: u32) -> int {
    radius * VOLLEY_AT_START / (START_RADIUS as int)
}

impl Player {
    /// The radius lies within the configured maximum.
    pub open spec fn wf(self) -> bool {
        self.radius * self.radius <= self.max_area
    }

    /// The player after `by` was added to its area.
    pub open spec fn increased(self, by: int) -> Player {
        Player {
            radius: floor_sqrt(area_after(self.radius as int, by, self.max_area as int)) as u32,
            ..self
        }
    }

    /// The player after `items` pickups, taken one after the other.
    pub open spec fn with_pickups(self, items: nat) -> Player
        decreases items,
    {
        if items == 0 {
            self
        } else {
            self.increased(ITEM_GAIN as int).with_pickups((items - 1) as nat)
        }
    }

    /// Whether the player can pay for an attack and stay alive.
    pub open spec fn can_attack(self) -> bool {
        self.increased(-ATTACK_COST).radius >= MIN_RADIUS
    }

    /// The player after the attack button was pressed.
    pub open spec fn after_attack(self) -> Player {
        if self.can_attack() {
            self.increased(-ATTACK_COST)
        } else {
            self
        }
    }

    /// The player after `bullets` enemy bullets struck it at once.
    pub open spec fn after_hits(self, bullets: u32) -> Player {
        if bullets > 0 {
            self.increased(-(bullets * BULLET_COST))
        } else {
            self
        }
    }

    /// A player of the given radius and largest area.
    pub fn new(radius: u32, max_area: u64) -> (p: Player)
        ensures
            p == (Player { radius, max_area }),
    {
        Player { radius, max_area }
    }

    /// Changes the player's radius by the given amount of area.
    pub fn increase(&mut self, by: i64)
        ensures
            *final(self) == old(self).increased(by as int),
            final(self).wf(),
            is_floor_sqrt(
                area_after(old(self).radius as int, by as int, old(self).max_area as int),
                final(self).radius as int,
            ),
    {
        let r: i128 = self.radius as i128;
        assert(0 <= r * r <= 0xffff_ffff * 0xffff_ffff) by (nonlinear_arith)
            requires
                0 <= r <= 0xffff_ffff,
        ;
        let raw: i128 = r * r + by as i128;
        let area: u128 = if raw < 0 {
            0
        } else if raw > self.max_area as i128 {
            self.max_area as u128
        } else {
            raw as u128
        };
        let root: u64 = isqrt(area);
        assert(root <= 0xffff_ffff) by (nonlinear_arith)
            requires
                root * root <= area,
                area <= 0xffff_ffff_ffff_ffff,
        ;
        self.radius = root as u32;
    }

    /// Radius of the player's collision shape: four fifths of its radius.
    pub fn collider_radius(&self) -> (r: u32)
        ensures
            r == self.radius * 4 / 5,
    {
        (self.radius as u64 * 4 / 5) as u32
    }

    /// Opacity, in thousandths, of the red frame that warns of a small
    /// radius: `0.8 - radius / START_RADIUS`, clamped to `[0, 1]`.
    pub fn damage_effect_alpha(&self) -> (alpha: u32)
        ensures
            alpha == (if self.radius / 50 >= 800 {
                0
            } else {
                800 - self.radius / 50
            }),
    {
        let share: u32 = self.radius / 50;
        if share >= 800 {
            0
        } else {
            800 - share
        }
    }

    /// Handles the attack button. A press that the player can pay for costs
    /// `ATTACK_COST` of area and fires a volley sized by the radius before
    /// the attack; any other call changes nothing and fires nothing.
    pub fn attack_system(&mut self, just_pressed: bool) -> (volley: Option<u32>)
        ensures
            just_pressed && old(self).can_attack() ==> volley == Some(
                volley_size(old(self).radius) as u32,
            ) && *final(self) == old(self).increased(-ATTACK_COST),
            !(just_pressed && old(self).can_attack()) ==> volley.is_none() && *final(self) == *old(
                self,
            ),
            just_pressed ==> *final(self) == old(self).after_attack(),
    {
        if !just_pressed {
            return None;
        }
        let mut paid = *self;
        paid.increase(-ATTACK_COST);
        if paid.radius < MIN_RADIUS {
            return None;
        }
        let num: u64 = self.radius as u64 * VOLLEY_AT_START as u64 / START_RADIUS as u64;
        *self = paid;
        Some(num as u32)
    }
}

impl Default for Player {
    /// A fresh player: the starting radius, which is also its largest.
    fn default() -> (p: Player)
        ensures
            p == (Player { radius: START_RADIUS, max_area: MAX_AREA }),
            p.wf(),
    {
        assert(START_RADIUS * START_RADIUS == MAX_AREA) by (nonlinear_arith)
            requires
                START_RADIUS == 50_000,
                MAX_AREA == 2_500_000_000,
        ;
        Player { radius: START_RADIUS, max_area: MAX_AREA }
    }
}

/// The bullet of a volley that two draws pick.
pub open spec fn volley_bullet(draw_r: u32, draw_theta: u32) -> PlayerBullet {
    bullet_at(disk_offset(VOLLEY_SPREAD, draw_r, draw_theta))
}

/// The bullet that appears at `offset`: it flies outward, twice as fast as
/// it stands far out.
pub open spec fn bullet_at(offset: Polar) -> PlayerBullet {
    PlayerBullet {
        offset,
        velocity: Polar { angle: offset.angle, radius: (2 * offset.radius) as i32 },
    }
}

/// Whether `bullet` is one that some pair of draws picks.
pub open spec fn drawn_bullet(bullet: PlayerBullet) -> bool {
    exists|draw_r: u32, draw_theta: u32| bullet == volley_bullet(draw_r, draw_theta)
}

/// Places one bullet of a volley from two uniform draws: somewhere in the
/// disk of radius `VOLLEY_SPREAD` around the player, flying outward.
pub fn spawn_volley_bullet(draw_r: u32, draw_theta: u32) -> (bullet: PlayerBullet)
    ensures
        bullet == volley_bullet(draw_r, draw_theta),
        0 <= bullet.offset.radius <= VOLLEY_SPREAD,
{
    let offset = scatter_in_disk(VOLLEY_SPREAD, draw_r, draw_theta);
    PlayerBullet { offset, velocity: Polar { angle: offset.angle, radius: 2 * offset.radius } }
}

/// Fires a volley of `count` bullets at random: each appears somewhere in
/// the disk of radius `VOLLEY_SPREAD` around the player, picked by two fresh
/// draws, and flies outward.
pub fn fire_volley(count: u32) -> (bullets: Vec<PlayerBullet>)
    ensures
        bullets@.len() == count,
        forall|i: int| 0 <= i < bullets@.len() ==> drawn_bullet(#[trigger] bullets@[i]),
        forall|i: int|
            0 <= i < bullets@.len() ==> 0 <= (#[trigger] bullets@[i]).offset.radius
                <= VOLLEY_SPREAD,
{
    let mut bullets: Vec<PlayerBullet> = Vec::new();
    let mut fired: u32 = 0;
    while fired < count
        invariant
            fired <= count,
            bullets@.len() == fired,
            forall|i: int| 0 <= i < bullets@.len() ==> drawn_bullet(#[trigger] bullets@[i]),
            forall|i: int|
                0 <= i < bullets@.len() ==> 0 <= (#[trigger] bullets@[i]).offset.radius
                    <= VOLLEY_SPREAD,
        decreases count - fired,
    {
        let draw_r = draw();
        let draw_theta = draw();
        bullets.push(spawn_volley_bullet(draw_r, draw_theta));
        fired = fired + 1;
    }
    bullets
}

/// Whether a player bullet at `position` is to be removed: it is farther
/// than `DESPAWN_DISTANCE` from the camera.
pub fn remove_bullets(position: &Vec2, camera: &Vec2) -> (gone: bool)
    ensures
        gone == (position.dist2(*camera) > square(DESPAWN_DISTANCE as int)),
{
    position.beyond(camera, DESPAWN_DISTANCE)
}

/// Books the pickups that the player touches: `ITEM_GAIN` of area for each,
/// one after the other. Nothing happens without a player.
pub fn player_item_system(player: &mut Option<Player>, items: u32)
    ensures
        *final(player) == (match *old(player) {
            Some(p) => Some(p.with_pickups(items as nat)),
            None => None,
        }),
{
    if let Some(p) = *player {
        let mut q = p;
        let mut left: u32 = items;
        while left > 0
            invariant
                q.with_pickups(left as nat) == p.with_pickups(items as nat),
            decreases left,
        {
            q.increase(ITEM_GAIN);
            left = left - 1;
        }
        *player = Some(q);
    }
}

/// Books the enemy bullets that strike the player in one frame: `BULLET_COST`
/// of area for each, taken in one sum. Says whether the player was hit.
pub fn player_damage(player: &mut Option<Player>, colliding_bullets: u32) -> (hit: bool)
    ensures
        *final(player) == (match *old(player) {
            Some(p) => Some(p.after_hits(colliding_bullets)),
            None => None,
        }),
        hit == (old(player).is_some() && colliding_bullets > 0),
{
    if let Some(p) = *player {
        if colliding_bullets > 0 {
            let mut q = p;
            q.increase(-(colliding_bullets as i64 * BULLET_COST));
            *player = Some(q);
            return true;
        }
    }
    false
}

/// Removes a player whose radius is under `MIN_RADIUS` and raises the death
/// signal for it. Nothing happens without a player.
pub fn player_die_check(player: &mut Option<Player>) -> (died: Option<PlayerDiedEvent>)
    ensures
        died.is_some() == dies(*old(player)),
        *final(player) == (if dies(*old(player)) {
            None
        } else {
            *old(player)
        }),
{
    if let Some(p) = *player {
        if p.radius < MIN_RADIUS {
            *player = None;
            return Some(PlayerDiedEvent);
        }
    }
    None
}

/// Whether the death check removes the player.
pub open spec fn dies(player: Option<Player>) -> bool {
    match player {
        Some(p) => p.radius < MIN_RADIUS,
        None => false,
    }
}

/// Something that happens to the player.
pub enum PlayerEvent {
    /// This many enemy bullets strike the player in one frame.
    Hit(u32),
    /// The player touches this many pickups in one frame.
    Pickup(u32),
    /// The attack button is pressed.
    Attack,
    /// The death check runs.
    DieCheck,
}

/// The player, if there still is one, after `event`.
pub open spec fn after_event(player: Option<Player>, event: PlayerEvent) -> Option<Player> {
    match player {
        None => None,
        Some(p) => match event {
            PlayerEvent::Hit(n) => Some(p.after_hits(n)),
            PlayerEvent::Pickup(n) => Some(p.with_pickups(n as nat)),
            PlayerEvent::Attack => Some(p.after_attack()),
            PlayerEvent::DieCheck => if dies(player) {
                None
            } else {
                player
            },
        },
    }
}

/// Whether `event` raises the death signal.
pub open spec fn signals_death(player: Option<Player>, event: PlayerEvent) -> bool {
    event is DieCheck && dies(player)
}

/// The player, if there still is one, after all of `events` in order.
pub open spec fn after_events(player: Option<Player>, events: Seq<PlayerEvent>) -> Option<Player>
    decreases events.len(),
{
    if events.len() == 0 {
        player
    } else {
        after_events(after_event(player, events[0]), events.skip(1))
    }
}

/// How many death signals `events` raise, played in order.
pub open spec fn death_signals(player: Option<Player>, events: Seq<PlayerEvent>) -> nat
    decreases events.len(),
{
    if events.len() == 0 {
        0
    } else {
        let first: nat = if signals_death(player, events[0]) {
            1
        } else {
            0
        };
        first + death_signals(after_event(player, events[0]), events.skip(1))
    }
}

/// Whether the player, if there is one, lies within its configured maximum.
pub open spec fn within_maximum(player: Option<Player>) -> bool {
    match player {
        Some(p) => p.wf(),
        None => true,
    }
}

/// A change of area leaves the radius within the configured maximum, and at
/// zero or above: the new radius is the integer square root of an area that
/// was clamped to `[0, max_area]`.
pub proof fn lemma_increase_stays_within(p: Player, by: int)
    ensures
        p.increased(by).wf(),
        is_floor_sqrt(
            area_after(p.radius as int, by, p.max_area as int),
            p.increased(by).radius as int,
        ),
        p.increased(by).max_area == p.max_area,
{
    let area = area_after(p.radius as int, by, p.max_area as int);
    assert(0 <= p.radius * p.radius) by (nonlinear_arith);
    let root = floor_sqrt(area);
    lemma_sqrt_exists(area);
    assert(root <= 0xffff_ffff) by (nonlinear_arith)
        requires
            0 <= root,
            root * root <= area,
            area <= 0xffff_ffff_ffff_ffff,
    ;
}

/// Pickups leave the radius within the configured maximum.
pub proof fn lemma_pickups_stay_within(p: Player, items: nat)
    requires
        p.wf(),
    ensures
        p.with_pickups(items).wf(),
    decreases items,
{
    if items > 0 {
        lemma_increase_stays_within(p, ITEM_GAIN as int);
        lemma_pickups_stay_within(p.increased(ITEM_GAIN as int), (items - 1) as nat);
    }
}

/// Whatever happens to a player that lies within its configured maximum, in
/// whatever order, the radius stays within that maximum, and the death
/// signal is raised at most once: by the first death check that finds the
/// radius under `MIN_RADIUS`, after which there is no player left.
pub proof fn lemma_player_lifetime(player: Option<Player>, events: Seq<PlayerEvent>)
    requires
        within_maximum(player),
    ensures
        within_maximum(after_events(player, events)),
        death_signals(player, events) <= 1,
        player.is_none() ==> death_signals(player, events) == 0,
        player.is_none() ==> after_events(player, events).is_none(),
        death_signals(player, events) == 1 ==> after_events(player, events).is_none(),
        player.is_some() && after_events(player, events).is_none() ==> death_signals(
            player,
            events,
        ) == 1,
    decreases events.len(),
{
    if events.len() > 0 {
        let next = after_event(player, events[0]);
        match player {
            Some(p) => {
                match events[0] {
                    PlayerEvent::Hit(n) => {
                        if n > 0 {
                            lemma_increase_stays_within(p, -(n * BULLET_COST));
                        }
                    },
                    PlayerEvent::Pickup(n) => {
                        lemma_pickups_stay_within(p, n as nat);
                    },
                    PlayerEvent::Attack => {
                        lemma_increase_stays_within(p, -ATTACK_COST);
                    },
                    PlayerEvent::DieCheck => {},
                }
            },
            None => {},
        }
        lemma_player_lifetime(next, events.skip(1));
    }
}

} // verus!
