//! The boss: a cycle of attack and movement phases.
//!
//! After waiting for the scroll to catch up, the boss fires a fan of bullets
//! from the bottom of the screen, travels to the top while turning upside
//! down, fires again, travels back, turns upright, and starts over. Each
//! phase ends on its own terms, and the next one is fixed by a table.

use vstd::prelude::*;
use crate::enemy::EnemyBullet;
use crate::geometry::{
    add_clamped, clamp_i32, Polar, Vec2, HALF_TURN, SCREEN_HEIGHT, SCREEN_WIDTH,
};
use crate::health::Health;
use crate::item::{ItemBurst, Region};
use crate::timer::{Timer, TimerMode};
use crate::tween::{
    lemma_animation_ends, path_duration, Animation, AnimationModel, PositionTween, RotationTween,
};

verus! {

/// Edge length of the boss.
pub const BOSS_SIZE: i32 = 100_000;

/// Gap that the boss keeps from the edge of the screen.
pub const BOSS_PADDING: i32 = 25_000;

/// Radius of the disk that shows a boss bullet.
pub const BOSS_BULLET_SIZE: i32 = 6_000;

/// Hit points of a fresh boss.
pub const BOSS_HEALTH: u32 = 200;

/// Bullets in one attack.
pub const ATTACK_NUM: u32 = 64;

/// Microseconds between two bullets of an attack.
pub const ATTACK_CADENCE: u64 = 100_000;

/// The angle between two bullets of an attack: a half turn spread over the
/// attack.
pub const ATTACK_SPACING: i32 = 2_812_500;

/// Distance from the boss's centre at which its bullets appear.
pub const MUZZLE_DISTANCE: i32 = 40_000;

/// Steps that a boss bullet covers in one second.
pub const BOSS_BULLET_SPEED: i32 = 50_000;

/// Pickups that the boss drops after an attack.
pub const ATTACK_ITEMS: u32 = 16;

/// Radius of the disk over which those pickups are scattered.
pub const ATTACK_ITEM_SPREAD: i32 = 50_000;

/// How far to the side the boss swerves on its way up or down:
/// `SCREEN_WIDTH / 2 - BOSS_SIZE / 2 - BOSS_PADDING`.
pub const SIDE_TRAVEL: i32 = 325_000;

/// How far the boss travels between bottom and top:
/// `SCREEN_HEIGHT - BOSS_SIZE - 2 * BOSS_PADDING`.
pub const VERTICAL_TRAVEL: i32 = 450_000;

/// Microseconds that each leg of a journey takes.
pub const LEG_TIME: u32 = 2_000_000;

/// Microseconds that the half turn during the journey up takes.
pub const TURN_TIME: u32 = 6_000_000;

/// Microseconds that the boss waits before it turns upright again.
pub const UPRIGHT_DELAY: u32 = 2_000_000;

/// Microseconds that turning upright takes.
pub const UPRIGHT_TIME: u32 = 3_000_000;

/// Polar angle of the upward direction.
pub const UP: i32 = 90_000_000;

/// Polar angle of the downward direction.
pub const DOWN: i32 = -90_000_000;

/// The boss's measures fit the screen and each other: its journeys keep it
/// `BOSS_PADDING` clear of the edges, its bullets appear four fifths of the
/// way to its edge, and the bullets of one attack span a half turn.
pub proof fn lemma_boss_measures()
    ensures
        SIDE_TRAVEL == SCREEN_WIDTH / 2 - BOSS_SIZE / 2 - BOSS_PADDING,
        VERTICAL_TRAVEL == SCREEN_HEIGHT - BOSS_SIZE - 2 * BOSS_PADDING,
        MUZZLE_DISTANCE * 5 == (BOSS_SIZE / 2) * 4,
        ATTACK_SPACING * ATTACK_NUM == HALF_TURN,
        UP == HALF_TURN / 2,
        DOWN == -(HALF_TURN / 2),
{
}

/// A phase of the boss.
#[derive(Clone, Copy, Debug, PartialEq, Eq, Structural)]
pub enum BossPhase {
    Idle,
    AttackBottom,
    MovingToTop,
    AttackTop,
    MovingToBottom,
    Rotating,
}

/// Raised when a phase has finished.
#[derive(Clone, Copy, Debug, PartialEq, Eq, Structural)]
pub struct Done;

/// The phase that follows `phase`.
pub open spec fn phase_successor(phase: BossPhase) -> BossPhase {
    match phase {
        BossPhase::Idle => BossPhase::AttackBottom,
        BossPhase::AttackBottom => BossPhase::MovingToTop,
        BossPhase::MovingToTop => BossPhase::AttackTop,
        BossPhase::AttackTop => BossPhase::MovingToBottom,
        BossPhase::MovingToBottom => BossPhase::Rotating,
        BossPhase::Rotating => BossPhase::AttackBottom,
    }
}

/// The phase reached from `phase` after `completions` phases have finished.
pub open spec fn phase_after(phase: BossPhase, completions: nat) -> BossPhase
    decreases completions,
{
    if completions == 0 {
        phase
    } else {
        phase_after(phase_successor(phase), (completions - 1) as nat)
    }
}

/// Whether the boss fires during `phase`.
pub open spec fn is_attack(phase: BossPhase) -> bool {
    phase == BossPhase::AttackBottom || phase == BossPhase::AttackTop
}

/// Whether an animation plays during `phase`.
pub open spec fn is_animated(phase: BossPhase) -> bool {
    phase == BossPhase::MovingToTop || phase == BossPhase::MovingToBottom || phase
        == BossPhase::Rotating
}

/// The phase that follows `phase` once `phase` has signalled that it is done.
pub fn next_phase(phase: BossPhase) -> (next: BossPhase)
    ensures
        next == phase_successor(phase),
{
    match phase {
        BossPhase::Idle => BossPhase::AttackBottom,
        BossPhase::AttackBottom => BossPhase::MovingToTop,
        BossPhase::MovingToTop => BossPhase::AttackTop,
        BossPhase::AttackTop => BossPhase::MovingToBottom,
        BossPhase::MovingToBottom => BossPhase::Rotating,
        BossPhase::Rotating => BossPhase::AttackBottom,
    }
}

/// The phases form one cycle of five that `Idle` leads into and is no part
/// of: no phase is followed by `Idle`, and every other phase comes round
/// again after exactly five completions and not before.
pub proof fn lemma_phase_cycle(phase: BossPhase)
    ensures
        phase_successor(phase) != BossPhase::Idle,
        phase_after(BossPhase::Idle, 1) == BossPhase::AttackBottom,
        phase_after(BossPhase::AttackBottom, 1) == BossPhase::MovingToTop,
        phase_after(BossPhase::AttackBottom, 2) == BossPhase::AttackTop,
        phase_after(BossPhase::AttackBottom, 3) == BossPhase::MovingToBottom,
        phase_after(BossPhase::AttackBottom, 4) == BossPhase::Rotating,
        phase_after(BossPhase::AttackBottom, 5) == BossPhase::AttackBottom,
        phase != BossPhase::Idle ==> phase_after(phase, 5) == phase,
        forall|k: nat| 0 < k < 5 ==> phase_after(phase, k) != phase,
{
    reveal_with_fuel(phase_after, 6);
}

/// However many phases finish, the boss is never idle again.
pub proof fn lemma_never_idle_again(phase: BossPhase, completions: nat)
    ensures
        completions > 0 ==> phase_after(phase, completions) != BossPhase::Idle,
        phase != BossPhase::Idle ==> phase_after(phase, completions) != BossPhase::Idle,
    decreases completions,
{
    if completions > 0 {
        lemma_never_idle_again(phase_successor(phase), (completions - 1) as nat);
    }
}

/// The state of an attack: where the boss aims, the timer that paces the
/// bullets, and how many have been fired.
#[derive(Clone, Copy, Debug, PartialEq, Eq, Structural)]
pub struct AttackState {
    /// Polar angle of the direction in which the boss aims.
    pub direction: i32,
    pub timer: Timer,
    pub num: u32,
}

/// The polar angle along which bullet number `num` of an attack aimed at
/// `direction` flies: the fan starts a quarter turn to the left of the aim
/// and sweeps to the right by `ATTACK_SPACING` per bullet.
pub open spec fn shot_angle(direction: i32, num: u32) -> int {
    clamp_i32(direction + HALF_TURN / 2 - num * ATTACK_SPACING)
}

/// Bullet number `num` of an attack aimed at `direction`.
pub open spec fn shot_number(direction: i32, num: u32) -> EnemyBullet {
    EnemyBullet {
        offset: Polar { angle: shot_angle(direction, num) as i32, radius: MUZZLE_DISTANCE },
        velocity: Polar { angle: shot_angle(direction, num) as i32, radius: BOSS_BULLET_SPEED },
    }
}

impl AttackState {
    /// An attack aimed at `direction` of which no bullet has been fired.
    pub open spec fn armed(direction: i32) -> AttackState {
        AttackState {
            direction,
            timer: Timer::fresh(ATTACK_CADENCE, TimerMode::Repeating),
            num: 0,
        }
    }

    /// Whether every bullet of the attack has been fired.
    pub open spec fn exhausted(self) -> bool {
        self.num >= ATTACK_NUM
    }

    /// Whether a tick of `delta` microseconds fires a bullet: the budget is
    /// not exhausted and the timer runs out on this tick.
    pub open spec fn fires(self, delta: u64) -> bool {
        !self.exhausted() && self.timer.ticked(delta).times_finished_this_tick > 0
    }

    /// The attack after a tick of `delta` microseconds. An exhausted attack
    /// stays as it is.
    pub open spec fn ticked(self, delta: u64) -> AttackState {
        if self.exhausted() {
            self
        } else {
            AttackState {
                timer: self.timer.ticked(delta),
                num: if self.fires(delta) {
                    (self.num + 1) as u32
                } else {
                    self.num
                },
                ..self
            }
        }
    }

    /// The bullet that a tick of `delta` microseconds fires, if any.
    pub open spec fn shot(self, delta: u64) -> Option<EnemyBullet> {
        if self.fires(delta) {
            Some(shot_number(self.direction, self.num))
        } else {
            None
        }
    }
}

/// Arms the attack from the bottom of the screen, aimed upward.
pub fn attack_bottom_start() -> (state: AttackState)
    ensures
        state == AttackState::armed(UP),
{
    AttackState { timer: Timer::new(ATTACK_CADENCE, TimerMode::Repeating), num: 0, direction: UP }
}

/// Arms the attack from the top of the screen, aimed downward.
pub fn attack_top_start() -> (state: AttackState)
    ensures
        state == AttackState::armed(DOWN),
{
    AttackState {
        timer: Timer::new(ATTACK_CADENCE, TimerMode::Repeating),
        num: 0,
        direction: DOWN,
    }
}

/// Advances an attack by `delta` microseconds.
///
/// While bullets are left the timer is ticked, and on a tick on which it
/// runs out one bullet is fired, however often it ran out.
pub fn attack_system(state: &mut AttackState, delta: u64) -> (shot: Option<EnemyBullet>)
    ensures
        *final(state) == old(state).ticked(delta),
        shot == old(state).shot(delta),
{
    if state.num >= ATTACK_NUM {
        return None;
    }
    state.timer.tick(delta);
    if !state.timer.just_finished() {
        return None;
    }
    let swept: i64 = state.num as i64 * ATTACK_SPACING as i64;
    let wide: i64 = state.direction as i64 + (HALF_TURN / 2) as i64 - swept;
    let angle: i32 = if wide < i32::MIN as i64 {
        i32::MIN
    } else if wide > i32::MAX as i64 {
        i32::MAX
    } else {
        wide as i32
    };
    state.num = state.num + 1;
    Some(
        EnemyBullet {
            offset: Polar { angle, radius: MUZZLE_DISTANCE },
            velocity: Polar { angle, radius: BOSS_BULLET_SPEED },
        },
    )
}

/// The pickups that the boss drops after an attack.
pub open spec fn attack_reward() -> ItemBurst {
    ItemBurst { count: ATTACK_ITEMS, region: Region::Disk(ATTACK_ITEM_SPREAD) }
}

/// Whether an attack has fired all its bullets.
pub open spec fn attack_over(attack: Option<AttackState>) -> bool {
    match attack {
        Some(state) => state.exhausted(),
        None => false,
    }
}

/// Ends an attack that has fired all its bullets: the attack state is
/// dropped and a burst of pickups is due, which is the sign that the phase
/// is done. Any other attack is left alone.
pub fn attack_end(attack: &mut Option<AttackState>) -> (reward: Option<ItemBurst>)
    ensures
        reward == (if attack_over(*old(attack)) {
            Some(attack_reward())
        } else {
            None
        }),
        *final(attack) == (if attack_over(*old(attack)) {
            None
        } else {
            *old(attack)
        }),
{
    match *attack {
        Some(state) => {
            if state.num >= ATTACK_NUM {
                *attack = None;
                return Some(
                    ItemBurst { count: ATTACK_ITEMS, region: Region::Disk(ATTACK_ITEM_SPREAD) },
                );
            }
        },
        None => {},
    }
    None
}

/// Whether the boss, idle, is done waiting: the scroll has signalled that it
/// caught up.
pub fn idle_system(phase: BossPhase, scroll_done_events: usize) -> (done: Option<Done>)
    ensures
        done.is_some() == (phase == BossPhase::Idle && scroll_done_events > 0),
{
    match phase {
        BossPhase::Idle => {
            if scroll_done_events > 0 {
                Some(Done)
            } else {
                None
            }
        },
        _ => None,
    }
}

/// Whether an animated phase is done: its animation has completed.
pub fn tween_end(phase: BossPhase, completed: bool) -> (done: Option<Done>)
    ensures
        done.is_some() == (is_animated(phase) && completed),
{
    match phase {
        BossPhase::MovingToTop | BossPhase::MovingToBottom | BossPhase::Rotating => {
            if completed {
                Some(Done)
            } else {
                None
            }
        },
        _ => None,
    }
}

/// The three legs of a journey from `start`: `side` sideways, then
/// `vertical` up or down, then back to the column of `start`.
pub open spec fn journey(start: Vec2, side: i32, vertical: i32) -> Seq<PositionTween> {
    let first = start.shifted(Vec2 { x: side, y: 0 });
    let second = start.shifted(Vec2 { x: side, y: vertical });
    let third = start.shifted(Vec2 { x: 0, y: vertical });
    seq![
        PositionTween { start, end: first, duration: LEG_TIME },
        PositionTween { start: first, end: second, duration: LEG_TIME },
        PositionTween { start: second, end: third, duration: LEG_TIME },
    ]
}

/// The three legs of a journey from `start`.
fn plan_journey(start: Vec2, side: i32, vertical: i32) -> (path: Vec<PositionTween>)
    ensures
        path@ == journey(start, side, vertical),
{
    let first = start.offset_by(&Vec2 { x: side, y: 0 });
    let second = start.offset_by(&Vec2 { x: side, y: vertical });
    let third = start.offset_by(&Vec2 { x: 0, y: vertical });
    let mut path: Vec<PositionTween> = Vec::new();
    path.push(PositionTween { start, end: first, duration: LEG_TIME });
    path.push(PositionTween { start: first, end: second, duration: LEG_TIME });
    path.push(PositionTween { start: second, end: third, duration: LEG_TIME });
    assert(path@ =~= journey(start, side, vertical));
    path
}

/// The animation of the journey to the top from `position` and `rotation`:
/// left to the side margin, up to the top margin, back to the middle, while
/// the boss makes a half turn.
pub open spec fn journey_to_top(position: Vec2, rotation: i32) -> AnimationModel {
    AnimationModel::fresh(
        journey(position, (-SIDE_TRAVEL) as i32, VERTICAL_TRAVEL),
        Some(
            RotationTween {
                start: rotation,
                end: clamp_i32(rotation + HALF_TURN) as i32,
                duration: TURN_TIME,
            },
        ),
        0,
    )
}

/// The animation of the journey to the bottom from `position`: right to the
/// side margin, down to the bottom margin, back to the middle.
pub open spec fn journey_to_bottom(position: Vec2) -> AnimationModel {
    AnimationModel::fresh(journey(position, SIDE_TRAVEL, (-VERTICAL_TRAVEL) as i32), None, 0)
}

/// The animation that turns the boss upright: after a wait, from a half turn
/// back to none.
pub open spec fn turn_upright() -> AnimationModel {
    AnimationModel::fresh(
        Seq::empty(),
        Some(RotationTween { start: HALF_TURN, end: 0, duration: UPRIGHT_TIME }),
        UPRIGHT_DELAY,
    )
}

/// Each journey takes three legs' time and ends straight above or below
/// where it began, `VERTICAL_TRAVEL` away; the way up leaves the boss turned
/// by a half turn more, and turning upright takes its wait and its turn and
/// leaves the boss upright.
pub proof fn lemma_journeys_end(position: Vec2, rotation: i32, delta: u64)
    ensures
        journey_to_top(position, rotation).duration() == 3 * LEG_TIME,
        journey_to_bottom(position).duration() == 3 * LEG_TIME,
        turn_upright().duration() == UPRIGHT_DELAY + UPRIGHT_TIME,
        delta >= 3 * LEG_TIME ==> {
            &&& journey_to_top(position, rotation).advanced(delta).position() == Some(
                position.shifted(Vec2 { x: 0, y: VERTICAL_TRAVEL }),
            )
            &&& journey_to_top(position, rotation).advanced(delta).rotation() == Some(
                clamp_i32(rotation + HALF_TURN) as i32,
            )
            &&& journey_to_bottom(position).advanced(delta).position() == Some(
                position.shifted(Vec2 { x: 0, y: (-VERTICAL_TRAVEL) as i32 }),
            )
            &&& journey_to_bottom(position).advanced(delta).rotation().is_none()
        },
        delta >= UPRIGHT_DELAY + UPRIGHT_TIME ==> {
            &&& turn_upright().advanced(delta).rotation() == Some(0i32)
            &&& turn_upright().advanced(delta).position().is_none()
        },
{
    let up = journey(position, (-SIDE_TRAVEL) as i32, VERTICAL_TRAVEL);
    let down = journey(position, SIDE_TRAVEL, (-VERTICAL_TRAVEL) as i32);
    lemma_journey_time(position, (-SIDE_TRAVEL) as i32, VERTICAL_TRAVEL);
    lemma_journey_time(position, SIDE_TRAVEL, (-VERTICAL_TRAVEL) as i32);
    assert(path_duration(Seq::<PositionTween>::empty()) == 0);
    if delta >= 3 * LEG_TIME {
        lemma_animation_ends(journey_to_top(position, rotation), delta);
        lemma_animation_ends(journey_to_bottom(position), delta);
    }
    if delta >= UPRIGHT_DELAY + UPRIGHT_TIME {
        lemma_animation_ends(turn_upright(), delta);
    }
}

/// A journey takes the time of its three legs.
proof fn lemma_journey_time(start: Vec2, side: i32, vertical: i32)
    ensures
        path_duration(journey(start, side, vertical)) == 3 * LEG_TIME,
{
    let path = journey(start, side, vertical);
    let two = path.drop_last();
    let one = two.drop_last();
    assert(one.drop_last().len() == 0);
    assert(path_duration(one.drop_last()) == 0);
    assert(path_duration(one) == LEG_TIME);
    assert(path_duration(two) == 2 * LEG_TIME);
}

/// Plans the journey to the top of the screen.
pub fn moving_to_top_start(position: Vec2, rotation: i32) -> (animation: Animation)
    ensures
        animation@ == journey_to_top(position, rotation),
{
    let path = plan_journey(position, -SIDE_TRAVEL, VERTICAL_TRAVEL);
    let turn = RotationTween {
        start: rotation,
        end: add_clamped(rotation, HALF_TURN),
        duration: TURN_TIME,
    };
    Animation::new(path, Some(turn), 0)
}

/// Plans the journey back to the bottom of the screen.
pub fn moving_to_bottom_start(position: Vec2) -> (animation: Animation)
    ensures
        animation@ == journey_to_bottom(position),
{
    let path = plan_journey(position, SIDE_TRAVEL, -VERTICAL_TRAVEL);
    Animation::new(path, None, 0)
}

/// Plans the turn back to upright.
pub fn rotating_start() -> (animation: Animation)
    ensures
        animation@ == turn_upright(),
{
    let turn = RotationTween { start: HALF_TURN, end: 0, duration: UPRIGHT_TIME };
    Animation::new(Vec::new(), Some(turn), UPRIGHT_DELAY)
}

/// The boss.
#[derive(Clone, Debug, PartialEq, Eq)]
pub struct Boss {
    pub health: Health,
    pub phase: BossPhase,
    pub position: Vec2,
    /// How far the boss is turned, counter-clockwise from upright.
    pub rotation: i32,
    /// The attack in progress, during an attack phase.
    pub attack: Option<AttackState>,
    /// The animation in progress, during a moving or rotating phase.
    pub animation: Option<Animation>,
}

/// The boss as a mathematical value.
pub struct BossModel {
    pub health: Health,
    pub phase: BossPhase,
    pub position: Vec2,
    pub rotation: i32,
    pub attack: Option<AttackState>,
    pub animation: Option<AnimationModel>,
}

/// The view of an animation that may be absent.
pub open spec fn animation_view(animation: Option<Animation>) -> Option<AnimationModel> {
    match animation {
        Some(a) => Some(a@),
        None => None,
    }
}

impl View for Boss {
    type V = BossModel;

    open spec fn view(&self) -> BossModel {
        BossModel {
            health: self.health,
            phase: self.phase,
            position: self.position,
            rotation: self.rotation,
            attack: self.attack,
            animation: animation_view(self.animation),
        }
    }
}

/// What one tick of the boss asks of the world around it.
#[derive(Clone, Copy, Debug, PartialEq, Eq, Structural)]
pub struct BossTick {
    /// The bullet to fire.
    pub shot: Option<EnemyBullet>,
    /// The pickups to scatter around the boss.
    pub items: Option<ItemBurst>,
    /// Raised on the tick on which the phase finished; the boss has already
    /// entered the next one.
    pub done: Option<Done>,
}

/// The attack that the boss arms on entering `phase`.
pub open spec fn attack_on_entering(phase: BossPhase) -> Option<AttackState> {
    match phase {
        BossPhase::AttackBottom => Some(AttackState::armed(UP)),
        BossPhase::AttackTop => Some(AttackState::armed(DOWN)),
        _ => None,
    }
}

/// The animation that the boss plans on entering `phase` at `position`,
/// turned by `rotation`.
pub open spec fn animation_on_entering(phase: BossPhase, position: Vec2, rotation: i32) -> Option<
    AnimationModel,
> {
    match phase {
        BossPhase::MovingToTop => Some(journey_to_top(position, rotation)),
        BossPhase::MovingToBottom => Some(journey_to_bottom(position)),
        BossPhase::Rotating => Some(turn_upright()),
        _ => None,
    }
}

impl BossModel {
    /// A fresh boss at `position`: idle, upright, unhurt.
    pub open spec fn fresh(position: Vec2) -> BossModel {
        BossModel {
            health: Health { health: BOSS_HEALTH, max_health: BOSS_HEALTH },
            phase: BossPhase::Idle,
            position,
            rotation: 0,
            attack: None,
            animation: None,
        }
    }

    /// The boss owns an unfinished attack exactly during the attack phases
    /// and an unfinished animation exactly during the animated ones.
    pub open spec fn wf(self) -> bool {
        &&& self.attack.is_some() == is_attack(self.phase)
        &&& self.animation.is_some() == is_animated(self.phase)
        &&& self.attack matches Some(state) ==> !state.exhausted()
        &&& self.animation matches Some(a) ==> !a.completed
    }

    /// The boss after the work of its phase over `delta` microseconds, before
    /// any change of phase: an attack ticks and is dropped once exhausted; an
    /// animation plays on and puts the boss where it asks.
    pub open spec fn played(self, delta: u64) -> BossModel {
        if is_attack(self.phase) {
            match self.attack {
                Some(state) => BossModel {
                    attack: if state.ticked(delta).exhausted() {
                        None
                    } else {
                        Some(state.ticked(delta))
                    },
                    ..self
                },
                None => self,
            }
        } else if is_animated(self.phase) {
            match self.animation {
                Some(a) => BossModel {
                    animation: Some(a.advanced(delta)),
                    position: match a.advanced(delta).position() {
                        Some(p) => p,
                        None => self.position,
                    },
                    rotation: match a.advanced(delta).rotation() {
                        Some(r) => r,
                        None => self.rotation,
                    },
                    ..self
                },
                None => self,
            }
        } else {
            self
        }
    }

    /// Whether the phase finishes on a tick of `delta` microseconds: idling
    /// when the scroll is done, an attack when its last bullet is out, an
    /// animation when it completes.
    pub open spec fn completes(self, delta: u64, scroll_done: bool) -> bool {
        if is_attack(self.phase) {
            match self.attack {
                Some(state) => state.ticked(delta).exhausted(),
                None => false,
            }
        } else if is_animated(self.phase) {
            match self.animation {
                Some(a) => a.completes_after(delta),
                None => false,
            }
        } else {
            scroll_done
        }
    }

    /// The bullet that a tick of `delta` microseconds fires, if any.
    pub open spec fn shot(self, delta: u64) -> Option<EnemyBullet> {
        if is_attack(self.phase) {
            match self.attack {
                Some(state) => state.shot(delta),
                None => None,
            }
        } else {
            None
        }
    }

    /// The pickups that a tick of `delta` microseconds drops, if any: those
    /// of an attack that ends.
    pub open spec fn reward(self, delta: u64) -> Option<ItemBurst> {
        if is_attack(self.phase) && self.completes(delta, false) {
            Some(attack_reward())
        } else {
            None
        }
    }

    /// The boss after a tick of `delta` microseconds: the work of its phase
    /// and, if that finished the phase, the entry into the next one.
    pub open spec fn updated(self, delta: u64, scroll_done: bool) -> BossModel {
        let played = self.played(delta);
        if self.completes(delta, scroll_done) {
            let next = phase_successor(self.phase);
            BossModel {
                phase: next,
                attack: attack_on_entering(next),
                animation: animation_on_entering(next, played.position, played.rotation),
                ..played
            }
        } else {
            played
        }
    }
}

/// A fresh boss at `position`: idle, upright, unhurt.
pub fn spawn_boss(position: Vec2) -> (boss: Boss)
    ensures
        boss@ == BossModel::fresh(position),
        boss@.wf(),
{
    Boss {
        health: Health::full(BOSS_HEALTH),
        phase: BossPhase::Idle,
        position,
        rotation: 0,
        attack: None,
        animation: None,
    }
}

impl Boss {
    /// Enters `phase`: arms the attack or plans the animation that the phase
    /// calls for, and drops what the phase before it owned.
    fn enter(&mut self, phase: BossPhase)
        ensures
            final(self)@ == (BossModel {
                phase,
                attack: attack_on_entering(phase),
                animation: animation_on_entering(phase, old(self).position, old(self).rotation),
                ..old(self)@
            }),
    {
        self.phase = phase;
        match phase {
            BossPhase::Idle => {
                self.attack = None;
                self.animation = None;
            },
            BossPhase::AttackBottom => {
                self.attack = Some(attack_bottom_start());
                self.animation = None;
            },
            BossPhase::MovingToTop => {
                self.attack = None;
                self.animation = Some(moving_to_top_start(self.position, self.rotation));
            },
            BossPhase::AttackTop => {
                self.attack = Some(attack_top_start());
                self.animation = None;
            },
            BossPhase::MovingToBottom => {
                self.attack = None;
                self.animation = Some(moving_to_bottom_start(self.position));
            },
            BossPhase::Rotating => {
                self.attack = None;
                self.animation = Some(rotating_start());
            },
        }
    }

    /// Plays one tick of `delta` microseconds. `scroll_done` says whether the
    /// scroll signalled on this tick that it caught up with the boss.
    pub fn update(&mut self, delta: u64, scroll_done: bool) -> (tick: BossTick)
        ensures
            final(self)@ == old(self)@.updated(delta, scroll_done),
            tick.shot == old(self)@.shot(delta),
            tick.items == old(self)@.reward(delta),
            tick.done.is_some() == old(self)@.completes(delta, scroll_done),
    {
        let mut shot: Option<EnemyBullet> = None;
        let mut items: Option<ItemBurst> = None;
        let mut done: Option<Done> = None;
        match self.phase {
            BossPhase::Idle => {
                done = idle_system(
                    self.phase,
                    if scroll_done {
                        1
                    } else {
                        0
                    },
                );
            },
            BossPhase::AttackBottom | BossPhase::AttackTop => {
                match self.attack {
                    Some(state) => {
                        let mut next = state;
                        shot = attack_system(&mut next, delta);
                        let mut slot = Some(next);
                        items = attack_end(&mut slot);
                        self.attack = slot;
                        if items.is_some() {
                            done = Some(Done);
                        }
                    },
                    None => {},
                }
            },
            BossPhase::MovingToTop | BossPhase::MovingToBottom | BossPhase::Rotating => {
                match self.animation.take() {
                    Some(mut animation) => {
                        let completed = animation.tick(delta);
                        match animation.sample_position() {
                            Some(p) => {
                                self.position = p;
                            },
                            None => {},
                        }
                        match animation.sample_rotation() {
                            Some(r) => {
                                self.rotation = r;
                            },
                            None => {},
                        }
                        done = tween_end(self.phase, completed);
                        self.animation = Some(animation);
                    },
                    None => {},
                }
            },
        }
        if done.is_some() {
            let next = next_phase(self.phase);
            self.enter(next);
        }
        BossTick { shot, items, done }
    }
}

/// One tick of a well-formed boss leaves it well-formed and in the same
/// phase, or, exactly if the phase finished, in the one that the table names
/// next. An attack finishes on the very tick that fires its last bullet, and
/// each bullet fired is the next one of the fan.
pub proof fn lemma_boss_tick(boss: BossModel, delta: u64, scroll_done: bool)
    requires
        boss.wf(),
    ensures
        boss.updated(delta, scroll_done).wf(),
        boss.updated(delta, scroll_done).phase == (if boss.completes(delta, scroll_done) {
            phase_successor(boss.phase)
        } else {
            boss.phase
        }),
        boss.updated(delta, scroll_done).health == boss.health,
        is_attack(boss.phase) ==> (boss.shot(delta) matches Some(shot) ==> shot == shot_number(
            boss.attack.unwrap().direction,
            boss.attack.unwrap().num,
        )),
        is_attack(boss.phase) ==> boss.completes(delta, scroll_done) == (boss.shot(delta).is_some()
            && boss.attack.unwrap().num == ATTACK_NUM - 1),
        is_attack(boss.phase) && !boss.completes(delta, scroll_done) ==> boss.updated(
            delta,
            scroll_done,
        ).attack.unwrap().num == boss.attack.unwrap().num + (if boss.shot(delta).is_some() {
            1int
        } else {
            0int
        }),
{
}

/// What happens around the boss on one tick.
pub struct BossInput {
    /// Microseconds since the tick before.
    pub delta: u64,
    /// Whether the scroll signalled that it caught up.
    pub scroll_done: bool,
}

/// The boss after the ticks `inputs`, in order.
pub open spec fn boss_after(boss: BossModel, inputs: Seq<BossInput>) -> BossModel
    decreases inputs.len(),
{
    if inputs.len() == 0 {
        boss
    } else {
        boss_after(boss.updated(inputs[0].delta, inputs[0].scroll_done), inputs.skip(1))
    }
}

/// How many phases finish over the ticks `inputs`, in order.
pub open spec fn boss_completions(boss: BossModel, inputs: Seq<BossInput>) -> nat
    decreases inputs.len(),
{
    if inputs.len() == 0 {
        0
    } else {
        let first: nat = if boss.completes(inputs[0].delta, inputs[0].scroll_done) {
            1
        } else {
            0
        };
        first + boss_completions(
            boss.updated(inputs[0].delta, inputs[0].scroll_done),
            inputs.skip(1),
        )
    }
}

/// Whatever happens, the boss runs through its phases in the order of the
/// table, one step for each phase that finishes; so it is idle only at the
/// start, before its first phase has finished.
pub proof fn lemma_boss_lifetime(boss: BossModel, inputs: Seq<BossInput>)
    requires
        boss.wf(),
    ensures
        boss_after(boss, inputs).wf(),
        boss_after(boss, inputs).phase == phase_after(boss.phase, boss_completions(boss, inputs)),
        boss_after(boss, inputs).phase == BossPhase::Idle ==> boss.phase == BossPhase::Idle
            && boss_completions(boss, inputs) == 0,
    decreases inputs.len(),
{
    if inputs.len() > 0 {
        let next = boss.updated(inputs[0].delta, inputs[0].scroll_done);
        lemma_boss_tick(boss, inputs[0].delta, inputs[0].scroll_done);
        lemma_boss_lifetime(next, inputs.skip(1));
        lemma_never_idle_again(boss.phase, boss_completions(boss, inputs));
    }
}

} // verus!
