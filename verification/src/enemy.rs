//! Enemies: a scripted path of waypoints, and at each waypoint but the last a
//! ring of bullets that is lined up one by one and then let go at once.

use vstd::prelude::*;
use crate::geometry::{
    clamp_i32, floor_sqrt, isqrt, lemma_square_monotonic, lemma_sqrt_exists, square,
    Polar, Vec2, DESPAWN_DISTANCE, FULL_TURN,
};
use crate::health::Health;
use crate::timer::{Timer, TimerMode};
use crate::tween::{fraction_toward, lemma_fraction_bounds, lerp};

verus! {

/// Edge length of an enemy.
pub const ENEMY_SIZE: i32 = 80_000;

/// Steps that an enemy covers in one second.
pub const ENEMY_SPEED: u64 = 100_000;

/// An enemy closer than this to its waypoint has arrived.
pub const ARRIVAL_EPSILON: i32 = 100;

/// Hit points of a fresh enemy.
pub const ENEMY_HEALTH: u32 = 100;

/// Edge length of an enemy bullet.
pub const BULLET_SIZE: i32 = 32_000;

/// Bullets in a ring.
pub const RING_BULLETS: u32 = 16;

/// Microseconds between two bullets of a ring.
pub const RING_CADENCE: u64 = 50_000;

/// Distance of a lined-up bullet from its emitter.
pub const RING_RADIUS: i32 = 40_000;

/// Direction of the first bullet of a ring: straight up.
pub const RING_START: i32 = 90_000_000;

/// A bullet that flies on with a fixed velocity, in steps per second.
#[derive(Clone, Copy, Debug, PartialEq, Eq, Structural)]
pub struct StraightBullet(pub Vec2);

/// A bullet of the enemies' side as it is fired.
#[derive(Clone, Copy, Debug, PartialEq, Eq, Structural)]
pub struct EnemyBullet {
    /// Where the bullet appears, seen from the centre of whoever fires it.
    pub offset: Polar,
    /// How the bullet flies, in steps per second.
    pub velocity: Polar,
}

/// The ring generator of an attacking emitter.
///
/// On every beat of `next_timer` it lines up one more bullet, each
/// `FULL_TURN / num` further round than the one before, until `num` bullets
/// stand; on the beat after that it lets all of them go and is done.
#[derive(Clone, Debug, PartialEq, Eq)]
pub struct LineUpBullets {
    pub num: u32,
    /// Offsets from the emitter of the bullets lined up so far, in the order
    /// in which they were placed.
    pub bullets: Vec<Polar>,
    pub next_timer: Timer,
    /// How far round the next bullet stands.
    pub angle: i32,
    pub done: bool,
}

/// A ring generator as a mathematical value.
pub struct RingModel {
    pub num: u32,
    pub bullets: Seq<Polar>,
    pub next_timer: Timer,
    pub angle: i32,
    pub done: bool,
}

impl View for LineUpBullets {
    type V = RingModel;

    open spec fn view(&self) -> RingModel {
        RingModel {
            num: self.num,
            bullets: self.bullets@,
            next_timer: self.next_timer,
            angle: self.angle,
            done: self.done,
        }
    }
}

/// What the ring generator asks for on one tick.
#[derive(Clone, Copy, Debug, PartialEq, Eq, Structural)]
pub enum RingAction {
    /// Nothing.
    Wait,
    /// Place one bullet, standing still, at this offset from the emitter.
    Spawn(Polar),
    /// Let every lined-up bullet fly off along its own offset.
    Release,
}

/// The angle between two neighbours in a ring of `num` bullets.
pub open spec fn ring_spacing(num: u32) -> int {
    if num == 0 {
        0
    } else {
        (FULL_TURN as int) / (num as int)
    }
}

/// The offset of bullet number `index` in a ring of `num` bullets.
pub open spec fn ring_offset(num: u32, index: int) -> Polar {
    Polar { angle: (RING_START + index * ring_spacing(num)) as i32, radius: RING_RADIUS }
}

impl RingModel {
    /// A ring of `num` bullets, one every `cadence` microseconds, before its
    /// first tick.
    pub open spec fn fresh(num: u32, cadence: u64) -> RingModel {
        RingModel {
            num,
            bullets: Seq::empty(),
            next_timer: Timer::fresh(cadence, TimerMode::Repeating),
            angle: 0,
            done: false,
        }
    }

    /// The bullets stand where the ring puts them, no more of them than the
    /// ring holds, and a ring that is done is full.
    pub open spec fn wf(self) -> bool {
        &&& self.bullets.len() <= self.num
        &&& forall|k: int|
            0 <= k < self.bullets.len() ==> #[trigger] self.bullets[k] == ring_offset(self.num, k)
        &&& self.done ==> self.bullets.len() == self.num
    }

    /// Whether the ring's timer beats on a tick of `delta` microseconds.
    pub open spec fn beats(self, delta: u64) -> bool {
        !self.done && self.next_timer.ticked(delta).finished
    }

    /// What the ring asks for on a tick of `delta` microseconds.
    pub open spec fn action(self, delta: u64) -> RingAction {
        if !self.beats(delta) {
            RingAction::Wait
        } else if self.bullets.len() >= self.num {
            RingAction::Release
        } else {
            RingAction::Spawn(ring_offset(self.num, self.bullets.len() as int))
        }
    }

    /// The ring after a tick of `delta` microseconds. A ring that is done
    /// stays as it is.
    pub open spec fn ticked(self, delta: u64) -> RingModel {
        if self.done {
            self
        } else {
            let timer = self.next_timer.ticked(delta);
            match self.action(delta) {
                RingAction::Wait => RingModel { next_timer: timer, ..self },
                RingAction::Release => RingModel { next_timer: timer, done: true, ..self },
                RingAction::Spawn(offset) => RingModel {
                    next_timer: timer,
                    bullets: self.bullets.push(offset),
                    angle: ((self.bullets.len() + 1) * ring_spacing(self.num)) as i32,
                    ..self
                },
            }
        }
    }
}

impl LineUpBullets {
    /// A ring of `num` bullets with one beat every `cadence` microseconds.
    pub fn new(num: u32, cadence: u64) -> (ring: LineUpBullets)
        ensures
            ring@ == RingModel::fresh(num, cadence),
    {
        LineUpBullets {
            num,
            bullets: Vec::new(),
            next_timer: Timer::new(cadence, TimerMode::Repeating),
            angle: 0,
            done: false,
        }
    }
}

impl Default for LineUpBullets {
    /// The ring of an enemy: `RING_BULLETS` bullets, one every `RING_CADENCE`.
    fn default() -> (ring: LineUpBullets)
        ensures
            ring@ == RingModel::fresh(RING_BULLETS, RING_CADENCE),
    {
        LineUpBullets::new(RING_BULLETS, RING_CADENCE)
    }
}

/// Advances a ring by `delta` microseconds.
///
/// A ring that is done stays as it is. Otherwise its timer is ticked, and on
/// a beat the ring either places its next bullet or, once `num` bullets
/// stand, lets them go and is done.
pub fn line_up_bullets_system(ring: &mut LineUpBullets, delta: u64) -> (action: RingAction)
    ensures
        final(ring)@ == old(ring)@.ticked(delta),
        action == old(ring)@.action(delta),
{
    if ring.done {
        return RingAction::Wait;
    }
    ring.next_timer.tick(delta);
    if !ring.next_timer.finished() {
        return RingAction::Wait;
    }
    if ring.bullets.len() >= ring.num as usize {
        ring.done = true;
        return RingAction::Release;
    }
    let spacing: i64 = FULL_TURN as i64 / ring.num as i64;
    let count: i64 = ring.bullets.len() as i64;
    assert(0 <= count * spacing <= FULL_TURN - spacing && (count + 1) * spacing == count * spacing
        + spacing) by (nonlinear_arith)
        requires
            0 <= count < ring.num,
            spacing == 360_000_000int / (ring.num as int),
            FULL_TURN == 360_000_000,
    ;
    let offset = Polar { angle: (RING_START as i64 + count * spacing) as i32, radius: RING_RADIUS };
    ring.bullets.push(offset);
    ring.angle = ((count + 1) * spacing) as i32;
    RingAction::Spawn(offset)
}

/// One tick keeps a ring well-formed, and tells what the tick did: a bullet
/// is placed only while fewer than `num` stand, at `RING_START` plus its
/// number times `FULL_TURN / num`; the bullets are let go only when exactly
/// `num` stand, and only once, since the ring is done from then on.
pub proof fn lemma_ring_tick(ring: RingModel, delta: u64)
    requires
        ring.wf(),
    ensures
        ring.ticked(delta).wf(),
        ring.ticked(delta).num == ring.num,
        ring.action(delta) matches RingAction::Spawn(offset) ==> {
            &&& ring.bullets.len() < ring.num
            &&& offset == ring_offset(ring.num, ring.bullets.len() as int)
            &&& ring.ticked(delta).bullets == ring.bullets.push(offset)
            &&& !ring.ticked(delta).done
        },
        ring.action(delta) == RingAction::Release ==> {
            &&& !ring.done
            &&& ring.bullets.len() == ring.num
            &&& ring.ticked(delta).bullets == ring.bullets
            &&& ring.ticked(delta).done
        },
        ring.action(delta) == RingAction::Wait ==> {
            &&& ring.ticked(delta).bullets == ring.bullets
            &&& ring.ticked(delta).done == ring.done
        },
        ring.done ==> ring.action(delta) == RingAction::Wait,
{
}

/// An enemy's ring stands on the enemy's edge, and its bullets divide the
/// full turn evenly.
pub proof fn lemma_enemy_measures()
    ensures
        RING_RADIUS == ENEMY_SIZE / 2,
        RING_BULLETS * ring_spacing(RING_BULLETS) == FULL_TURN,
        RING_START == FULL_TURN / 4,
{
}

/// Neighbours in a ring stand `FULL_TURN / num` apart, and the whole ring
/// spans no more than a full turn: exactly one where `num` divides it.
pub proof fn lemma_ring_spacing(num: u32, index: int)
    requires
        0 <= index,
        index + 1 < num,
    ensures
        ring_offset(num, index + 1).angle - ring_offset(num, index).angle == ring_spacing(num),
        ring_offset(num, index).radius == RING_RADIUS,
        num * ring_spacing(num) <= FULL_TURN,
        (FULL_TURN as int) % (num as int) == 0 ==> num * ring_spacing(num) == FULL_TURN,
{
    let spacing = ring_spacing(num);
    assert(0 <= index * spacing && (index + 1) * spacing == index * spacing + spacing && (index
        + 1) * spacing <= 360_000_000 && num * spacing <= 360_000_000) by (nonlinear_arith)
        requires
            0 <= index,
            index + 1 < num,
            spacing == 360_000_000int / (num as int),
    ;
    vstd::arithmetic::div_mod::lemma_fundamental_div_mod(FULL_TURN as int, num as int);
}

/// How many bullets a ring places over the ticks `deltas`, in order.
pub open spec fn ring_spawns(ring: RingModel, deltas: Seq<u64>) -> nat
    decreases deltas.len(),
{
    if deltas.len() == 0 {
        0
    } else {
        let first: nat = if ring.action(deltas[0]) is Spawn {
            1
        } else {
            0
        };
        first + ring_spawns(ring.ticked(deltas[0]), deltas.skip(1))
    }
}

/// How often a ring lets its bullets go over the ticks `deltas`, in order.
pub open spec fn ring_releases(ring: RingModel, deltas: Seq<u64>) -> nat
    decreases deltas.len(),
{
    if deltas.len() == 0 {
        0
    } else {
        let first: nat = if ring.action(deltas[0]) == RingAction::Release {
            1
        } else {
            0
        };
        first + ring_releases(ring.ticked(deltas[0]), deltas.skip(1))
    }
}

/// The ring after the ticks `deltas`, in order.
pub open spec fn ring_after(ring: RingModel, deltas: Seq<u64>) -> RingModel
    decreases deltas.len(),
{
    if deltas.len() == 0 {
        ring
    } else {
        ring_after(ring.ticked(deltas[0]), deltas.skip(1))
    }
}

/// Over any run of ticks a ring places one bullet for each that it gains,
/// never holds more than `num`, and lets them go at most once: exactly when
/// it ends the run done, having `num` bullets lined up, each
/// `FULL_TURN / num` round from the one before.
pub proof fn lemma_ring_run(ring: RingModel, deltas: Seq<u64>)
    requires
        ring.wf(),
    ensures
        ring_after(ring, deltas).wf(),
        ring_after(ring, deltas).num == ring.num,
        ring_after(ring, deltas).bullets.len() == ring.bullets.len() + ring_spawns(ring, deltas),
        ring_releases(ring, deltas) <= 1,
        ring.done ==> ring_releases(ring, deltas) == 0 && ring_spawns(ring, deltas) == 0,
        ring.done ==> ring_after(ring, deltas) == ring,
        !ring.done ==> (ring_releases(ring, deltas) == 1) == ring_after(ring, deltas).done,
        ring_after(ring, deltas).done ==> ring_after(ring, deltas).bullets.len() == ring.num,
    decreases deltas.len(),
{
    if deltas.len() > 0 {
        lemma_ring_tick(ring, deltas[0]);
        lemma_ring_run(ring.ticked(deltas[0]), deltas.skip(1));
    }
}

/// What an enemy is doing.
#[derive(Clone, Copy, Debug, PartialEq, Eq, Structural)]
pub enum EnemyState {
    /// Standing at a waypoint while its ring of bullets is lined up.
    Attacking,
    /// On its way to the next waypoint.
    Moving,
}

impl Default for EnemyState {
    /// An enemy starts out moving.
    fn default() -> (state: EnemyState)
        ensures
            state == EnemyState::Moving,
    {
        EnemyState::Moving
    }
}

/// The state of an enemy and the waypoints it has yet to visit. The enemy
/// heads for the last of them and takes it off the list on arrival.
#[derive(Clone, Debug, PartialEq, Eq)]
pub struct EnemyController {
    pub state: EnemyState,
    pub attack_pos: Vec<Vec2>,
}

/// An enemy controller as a mathematical value.
pub struct ControllerModel {
    pub state: EnemyState,
    pub attack_pos: Seq<Vec2>,
}

impl View for EnemyController {
    type V = ControllerModel;

    open spec fn view(&self) -> ControllerModel {
        ControllerModel { state: self.state, attack_pos: self.attack_pos@ }
    }
}

impl From<Vec<Vec2>> for EnemyController {
    /// A moving enemy's controller with the given waypoints, the next one
    /// last.
    fn from(value: Vec<Vec2>) -> (ctrl: EnemyController) {
        EnemyController { attack_pos: value, state: EnemyState::Moving }
    }
}

impl vstd::std_specs::convert::FromSpecImpl<Vec<Vec2>> for EnemyController {
    open spec fn obeys_from_spec() -> bool {
        true
    }

    open spec fn from_spec(value: Vec<Vec2>) -> EnemyController {
        EnemyController { attack_pos: value, state: EnemyState::Moving }
    }
}

/// Steps that an enemy covers in `delta` microseconds, rounded down.
pub open spec fn step_length(delta: u64) -> int {
    (ENEMY_SPEED * delta) / 1_000_000
}

/// Whether an enemy at `position` reaches `target` within `delta`
/// microseconds: it is closer than `ARRIVAL_EPSILON`, or no farther than one
/// step.
pub open spec fn arrives(position: Vec2, target: Vec2, delta: u64) -> bool {
    position.dist2(target) < square(ARRIVAL_EPSILON as int) || position.dist2(target) <= square(
        step_length(delta),
    )
}

/// Where an enemy at `position` stands after `delta` microseconds on the
/// straight line to a `target` that it does not reach: each coordinate covers
/// the share `step_length / distance` of its way, rounded down.
pub open spec fn stepped_toward(position: Vec2, target: Vec2, delta: u64) -> Vec2 {
    let distance = floor_sqrt(position.dist2(target));
    Vec2 {
        x: lerp(position.x as int, target.x as int, step_length(delta), distance) as i32,
        y: lerp(position.y as int, target.y as int, step_length(delta), distance) as i32,
    }
}

impl ControllerModel {
    /// Whether the enemy is on its way to a waypoint.
    pub open spec fn travels(self) -> bool {
        self.state == EnemyState::Moving && self.attack_pos.len() > 0
    }

    /// Whether the enemy, now at `position`, reaches its waypoint within
    /// `delta` microseconds.
    pub open spec fn reaches(self, position: Vec2, delta: u64) -> bool {
        self.travels() && arrives(position, self.attack_pos.last(), delta)
    }

    /// The controller after `delta` microseconds of movement from `position`:
    /// on arrival the waypoint leaves the list, and the enemy attacks if
    /// another waypoint is left.
    pub open spec fn moved(self, position: Vec2, delta: u64) -> ControllerModel {
        if self.reaches(position, delta) {
            ControllerModel {
                state: if self.attack_pos.len() == 1 {
                    EnemyState::Moving
                } else {
                    EnemyState::Attacking
                },
                attack_pos: self.attack_pos.drop_last(),
            }
        } else {
            self
        }
    }

    /// Where the enemy stands after `delta` microseconds of movement from
    /// `position`: on its waypoint if it reaches it, else one step closer.
    pub open spec fn position_after(self, position: Vec2, delta: u64) -> Vec2 {
        if !self.travels() {
            position
        } else if self.reaches(position, delta) {
            self.attack_pos.last()
        } else {
            stepped_toward(position, self.attack_pos.last(), delta)
        }
    }

    /// Whether the enemy is removed after `delta` microseconds of movement
    /// from `position`: it is moving and has no waypoint left, or reaches its
    /// only one.
    pub open spec fn despawns(self, position: Vec2, delta: u64) -> bool {
        self.state == EnemyState::Moving && (self.attack_pos.len() == 0 || (self.attack_pos.len()
            == 1 && self.reaches(position, delta)))
    }

    /// The controller after its ring reported `done`: an attacking enemy
    /// whose ring is done moves on.
    pub open spec fn attack_done(self, done: bool) -> ControllerModel {
        if self.state == EnemyState::Attacking && done {
            ControllerModel { state: EnemyState::Moving, ..self }
        } else {
            self
        }
    }
}

/// Moves an enemy for `delta` microseconds and says whether it is to be
/// removed.
///
/// Only a moving enemy does anything. Without a waypoint left it is removed.
/// Else it heads for the last waypoint; on arrival it stands exactly there,
/// the waypoint leaves the list, and the enemy is removed if that was the
/// only one and attacks otherwise.
pub fn enemy_movement(position: &mut Vec2, ctrl: &mut EnemyController, delta: u64) -> (despawn:
    bool)
    ensures
        final(ctrl)@ == old(ctrl)@.moved(*old(position), delta),
        *final(position) == old(ctrl)@.position_after(*old(position), delta),
        despawn == old(ctrl)@.despawns(*old(position), delta),
{
    match ctrl.state {
        EnemyState::Attacking => {
            return false;
        },
        EnemyState::Moving => {},
    }
    let n = ctrl.attack_pos.len();
    if n == 0 {
        return true;
    }
    let target = ctrl.attack_pos[n - 1];
    let d2: u128 = position.distance_squared(&target);
    let step: u128 = ENEMY_SPEED as u128 * delta as u128 / 1_000_000;
    let eps: u128 = ARRIVAL_EPSILON as u128;
    assert(step * step <= 0x1fff_ffff_ffff_ffff * 0x1fff_ffff_ffff_ffff) by (nonlinear_arith)
        requires
            0 <= step <= 0x1fff_ffff_ffff_ffff,
    ;
    if d2 < eps * eps || d2 <= step * step {
        *position = target;
        ctrl.attack_pos.pop();
        if ctrl.attack_pos.len() == 0 {
            return true;
        }
        ctrl.state = EnemyState::Attacking;
        assert(ctrl@.attack_pos =~= old(ctrl)@.attack_pos.drop_last());
        return false;
    }
    let distance: u64 = isqrt(d2);
    proof {
        if step > distance {
            lemma_square_monotonic(distance as int + 1, step as int);
        }
        assert(eps * eps == 10_000) by (nonlinear_arith)
            requires
                eps == 100,
        ;
        assert(distance > 0) by (nonlinear_arith)
            requires
                d2 >= 10_000,
                d2 < (distance + 1) * (distance + 1),
        ;
    }
    position.x = fraction_toward(position.x, target.x, step, distance as u128);
    position.y = fraction_toward(position.y, target.y, step, distance as u128);
    false
}

/// Lets an attacking enemy move on once its ring is done.
pub fn enemy_attack_done(ctrl: &mut EnemyController, bullets: &LineUpBullets)
    ensures
        final(ctrl)@ == old(ctrl)@.attack_done(bullets.done),
{
    match ctrl.state {
        EnemyState::Attacking => {
            if bullets.done {
                ctrl.state = EnemyState::Moving;
            }
        },
        EnemyState::Moving => {},
    }
}

/// The ring that an enemy owns on entering `state`: a fresh one to attack
/// with, none to move with.
pub open spec fn ring_for(state: EnemyState) -> Option<RingModel> {
    match state {
        EnemyState::Attacking => Some(RingModel::fresh(RING_BULLETS, RING_CADENCE)),
        EnemyState::Moving => None,
    }
}

/// The view of a ring that may be absent.
pub open spec fn ring_view(ring: Option<LineUpBullets>) -> Option<RingModel> {
    match ring {
        Some(r) => Some(r@),
        None => None,
    }
}

/// Gives an enemy that has entered `state` what the state calls for: a fresh
/// ring generator to attack with, none to move with.
pub fn enemy_state_behavior(state: EnemyState) -> (ring: Option<LineUpBullets>)
    ensures
        ring_view(ring) == ring_for(state),
{
    match state {
        EnemyState::Attacking => Some(LineUpBullets::default()),
        EnemyState::Moving => None,
    }
}

/// The distance that something with `speed` steps per second covers in
/// `delta` microseconds, rounded toward zero.
pub open spec fn displacement(speed: int, delta: u64) -> int {
    if speed >= 0 {
        (speed * delta) / 1_000_000
    } else {
        -(((-speed) * delta) / 1_000_000)
    }
}

/// One coordinate after `delta` microseconds at `speed`, kept in range.
fn advance_coordinate(from: i32, speed: i32, delta: u64) -> (to: i32)
    ensures
        to == clamp_i32(from + displacement(speed as int, delta)),
{
    let d: i128 = delta as i128;
    let moved: i128 = if speed >= 0 {
        let v: i128 = speed as i128;
        assert(0 <= v * d <= 0x7fff_ffff * 0xffff_ffff_ffff_ffff) by (nonlinear_arith)
            requires
                0 <= v <= 0x7fff_ffff,
                0 <= d <= 0xffff_ffff_ffff_ffff,
        ;
        v * d / 1_000_000
    } else {
        let v: i128 = -(speed as i128);
        assert(0 <= v * d <= 0x8000_0000 * 0xffff_ffff_ffff_ffff) by (nonlinear_arith)
            requires
                0 <= v <= 0x8000_0000,
                0 <= d <= 0xffff_ffff_ffff_ffff,
        ;
        -(v * d / 1_000_000)
    };
    let sum: i128 = from as i128 + moved;
    if sum < i32::MIN as i128 {
        i32::MIN
    } else if sum > i32::MAX as i128 {
        i32::MAX
    } else {
        sum as i32
    }
}

/// Where a bullet with velocity `bullet.0` stands `delta` microseconds after
/// it stood at `position`.
pub open spec fn flown(position: Vec2, bullet: StraightBullet, delta: u64) -> Vec2 {
    Vec2 {
        x: clamp_i32(position.x + displacement(bullet.0.x as int, delta)) as i32,
        y: clamp_i32(position.y + displacement(bullet.0.y as int, delta)) as i32,
    }
}

/// Moves a bullet along its velocity for `delta` microseconds.
pub fn move_straight_bullet(position: &mut Vec2, bullet: &StraightBullet, delta: u64)
    ensures
        *final(position) == flown(*old(position), *bullet, delta),
{
    position.x = advance_coordinate(position.x, bullet.0.x, delta);
    position.y = advance_coordinate(position.y, bullet.0.y, delta);
}

/// Whether an enemy bullet at `position` is to be removed: it is farther
/// than `DESPAWN_DISTANCE` from the camera.
pub fn despawn_enemy_bullet(position: &Vec2, camera: &Vec2) -> (gone: bool)
    ensures
        gone == (position.dist2(*camera) > square(DESPAWN_DISTANCE as int)),
{
    position.beyond(camera, DESPAWN_DISTANCE)
}

/// A step toward a waypoint that is not reached lands between the enemy and
/// the waypoint on either axis, and no farther from the waypoint than before:
/// the enemy never overshoots.
pub proof fn lemma_step_never_overshoots(position: Vec2, target: Vec2, delta: u64)
    requires
        !arrives(position, target, delta),
    ensures
        position.x <= target.x ==> position.x <= stepped_toward(position, target, delta).x
            <= target.x,
        target.x <= position.x ==> target.x <= stepped_toward(position, target, delta).x
            <= position.x,
        position.y <= target.y ==> position.y <= stepped_toward(position, target, delta).y
            <= target.y,
        target.y <= position.y ==> target.y <= stepped_toward(position, target, delta).y
            <= position.y,
        stepped_toward(position, target, delta).dist2(target) <= position.dist2(target),
{
    let d2 = position.dist2(target);
    let step = step_length(delta);
    assert(square(target.x - position.x) >= 0 && square(target.y - position.y) >= 0)
        by (nonlinear_arith);
    lemma_sqrt_exists(d2);
    let distance = floor_sqrt(d2);
    assert(step >= 0) by (nonlinear_arith)
        requires
            step == (ENEMY_SPEED * delta) / 1_000_000,
            ENEMY_SPEED == 100_000,
            delta >= 0,
    ;
    if step > distance {
        lemma_square_monotonic(distance + 1, step);
    }
    assert(square(ARRIVAL_EPSILON as int) == 10_000) by (nonlinear_arith)
        requires
            ARRIVAL_EPSILON == 100,
    ;
    assert(distance > 0) by (nonlinear_arith)
        requires
            d2 >= 10_000,
            d2 < (distance + 1) * (distance + 1),
            distance >= 0,
    ;
    let next = stepped_toward(position, target, delta);
    let span_x = if target.x >= position.x {
        target.x - position.x
    } else {
        position.x - target.x
    };
    let span_y = if target.y >= position.y {
        target.y - position.y
    } else {
        position.y - target.y
    };
    lemma_fraction_bounds(span_x, step, distance);
    lemma_fraction_bounds(span_y, step, distance);
    let left_x = span_x - (span_x * step) / distance;
    let left_y = span_y - (span_y * step) / distance;
    lemma_square_monotonic(left_x, span_x);
    lemma_square_monotonic(left_y, span_y);
    assert(square(target.x - next.x) == left_x * left_x) by (nonlinear_arith)
        requires
            target.x - next.x == left_x || target.x - next.x == -left_x,
    ;
    assert(square(target.y - next.y) == left_y * left_y) by (nonlinear_arith)
        requires
            target.y - next.y == left_y || target.y - next.y == -left_y,
    ;
    assert(square(target.x - position.x) == span_x * span_x) by (nonlinear_arith)
        requires
            target.x - position.x == span_x || target.x - position.x == -span_x,
    ;
    assert(square(target.y - position.y) == span_y * span_y) by (nonlinear_arith)
        requires
            target.y - position.y == span_y || target.y - position.y == -span_y,
    ;
}

/// An enemy: where it stands, what it is doing, its hit points, and the ring
/// generator that it owns while it attacks.
#[derive(Clone, Debug, PartialEq, Eq)]
pub struct Enemy {
    pub position: Vec2,
    pub controller: EnemyController,
    pub health: Health,
    pub ring: Option<LineUpBullets>,
}

/// An enemy as a mathematical value.
pub struct EnemyModel {
    pub position: Vec2,
    pub controller: ControllerModel,
    pub health: Health,
    pub ring: Option<RingModel>,
}

impl View for Enemy {
    type V = EnemyModel;

    open spec fn view(&self) -> EnemyModel {
        EnemyModel {
            position: self.position,
            controller: self.controller@,
            health: self.health,
            ring: ring_view(self.ring),
        }
    }
}

/// What one tick of an enemy asks of the world around it.
#[derive(Clone, Debug, PartialEq, Eq)]
pub struct EnemyTick {
    /// What the enemy's ring asks for.
    pub action: RingAction,
    /// On `RingAction::Release`, the offsets of the bullets that are let go,
    /// in the order in which they were placed; empty otherwise.
    pub released: Vec<Polar>,
    /// Whether the enemy is to be removed.
    pub despawn: bool,
}

impl EnemyModel {
    /// An attacking enemy has a waypoint ahead and owns a ring that is
    /// well-formed and not yet done; a moving enemy owns none.
    pub open spec fn wf(self) -> bool {
        &&& (self.controller.state == EnemyState::Attacking) == self.ring.is_some()
        &&& self.controller.state == EnemyState::Attacking ==> self.controller.attack_pos.len() > 0
        &&& self.ring matches Some(r) ==> r.wf() && !r.done
    }

    /// What the enemy's ring asks for on a tick of `delta` microseconds.
    pub open spec fn ring_action(self, delta: u64) -> RingAction {
        match self.ring {
            Some(r) => r.action(delta),
            None => RingAction::Wait,
        }
    }

    /// The bullets that a tick of `delta` microseconds lets go.
    pub open spec fn released(self, delta: u64) -> Seq<Polar> {
        match self.ring {
            Some(r) => if r.action(delta) == RingAction::Release {
                r.bullets
            } else {
                Seq::empty()
            },
            None => Seq::empty(),
        }
    }

    /// Whether a tick of `delta` microseconds removes the enemy.
    pub open spec fn despawns(self, delta: u64) -> bool {
        self.controller.despawns(self.position, delta)
    }

    /// The enemy after a tick of `delta` microseconds: first its ring ticks,
    /// then it moves, then an attack whose ring is done ends; an enemy that
    /// changed its state gets what the new state calls for.
    pub open spec fn updated(self, delta: u64) -> EnemyModel {
        let ring = match self.ring {
            Some(r) => Some(r.ticked(delta)),
            None => None,
        };
        let done = match ring {
            Some(r) => r.done,
            None => false,
        };
        let controller = self.controller.moved(self.position, delta).attack_done(done);
        EnemyModel {
            position: self.controller.position_after(self.position, delta),
            controller,
            health: self.health,
            ring: if controller.state == self.controller.state {
                ring
            } else {
                ring_for(controller.state)
            },
        }
    }
}

/// A copy of `offsets`.
fn copy_offsets(offsets: &Vec<Polar>) -> (copy: Vec<Polar>)
    ensures
        copy@ == offsets@,
{
    let mut copy: Vec<Polar> = Vec::new();
    let mut i: usize = 0;
    while i < offsets.len()
        invariant
            i <= offsets.len(),
            copy@ == offsets@.take(i as int),
        decreases offsets.len() - i,
    {
        copy.push(offsets[i]);
        i = i + 1;
        assert(copy@ =~= offsets@.take(i as int));
    }
    assert(offsets@.take(i as int) =~= offsets@);
    copy
}

/// A fresh enemy at `pos`, with full hit points and what its controller's
/// state calls for.
pub fn spawn_enemy(pos: Vec2, controller: EnemyController) -> (enemy: Enemy)
    ensures
        enemy@ == (EnemyModel {
            position: pos,
            controller: controller@,
            health: Health { health: ENEMY_HEALTH, max_health: ENEMY_HEALTH },
            ring: ring_for(controller.state),
        }),
        controller.state == EnemyState::Moving ==> enemy@.wf(),
{
    let ring = enemy_state_behavior(controller.state);
    Enemy { position: pos, controller, health: Health::full(ENEMY_HEALTH), ring }
}

impl Enemy {
    /// Plays one tick of `delta` microseconds: the ring, then the movement,
    /// then the end of the attack, then what a change of state calls for.
    pub fn update(&mut self, delta: u64) -> (tick: EnemyTick)
        ensures
            final(self)@ == old(self)@.updated(delta),
            tick.action == old(self)@.ring_action(delta),
            tick.released@ == old(self)@.released(delta),
            tick.despawn == old(self)@.despawns(delta),
    {
        let before = self.controller.state;
        let mut action = RingAction::Wait;
        let mut released: Vec<Polar> = Vec::new();
        let mut ring: Option<LineUpBullets> = None;
        match self.ring.take() {
            Some(mut r) => {
                action = line_up_bullets_system(&mut r, delta);
                match action {
                    RingAction::Release => {
                        released = copy_offsets(&r.bullets);
                    },
                    _ => {},
                }
                ring = Some(r);
            },
            None => {},
        }
        let despawn = enemy_movement(&mut self.position, &mut self.controller, delta);
        match &ring {
            Some(r) => {
                enemy_attack_done(&mut self.controller, r);
            },
            None => {},
        }
        if self.controller.state == before {
            self.ring = ring;
        } else {
            self.ring = enemy_state_behavior(self.controller.state);
        }
        EnemyTick { action, released, despawn }
    }
}

/// One tick of a well-formed enemy leaves it well-formed. Its waypoints only
/// ever leave the list, from the end and one at a time; the enemy is removed
/// exactly when none is left; and it goes from attacking back to moving
/// exactly on the tick on which its ring lets the bullets go, all `num` of
/// them.
pub proof fn lemma_enemy_tick(enemy: EnemyModel, delta: u64)
    requires
        enemy.wf(),
    ensures
        enemy.updated(delta).wf(),
        enemy.updated(delta).controller.attack_pos == enemy.controller.attack_pos || (
        enemy.controller.attack_pos.len() > 0 && enemy.updated(delta).controller.attack_pos
            == enemy.controller.attack_pos.drop_last()),
        enemy.updated(delta).controller.attack_pos.len() <= enemy.controller.attack_pos.len(),
        enemy.despawns(delta) == (enemy.updated(delta).controller.attack_pos.len() == 0),
        (enemy.controller.state == EnemyState::Attacking && enemy.updated(delta).controller.state
            == EnemyState::Moving) == (enemy.ring_action(delta) == RingAction::Release),
        enemy.ring_action(delta) == RingAction::Release ==> enemy.released(delta).len()
            == enemy.ring.unwrap().num,
{
    match enemy.ring {
        Some(r) => {
            lemma_ring_tick(r, delta);
        },
        None => {},
    }
}

/// The enemy after the ticks `deltas`, in order.
pub open spec fn enemy_after(enemy: EnemyModel, deltas: Seq<u64>) -> EnemyModel
    decreases deltas.len(),
{
    if deltas.len() == 0 {
        enemy
    } else {
        enemy_after(enemy.updated(deltas[0]), deltas.skip(1))
    }
}

/// How many waypoints an enemy reaches over the ticks `deltas`, in order.
pub open spec fn enemy_arrivals(enemy: EnemyModel, deltas: Seq<u64>) -> nat
    decreases deltas.len(),
{
    if deltas.len() == 0 {
        0
    } else {
        let first: nat = if enemy.controller.reaches(enemy.position, deltas[0]) {
            1
        } else {
            0
        };
        first + enemy_arrivals(enemy.updated(deltas[0]), deltas.skip(1))
    }
}

/// Over its whole life a well-formed enemy stays well-formed, and its list
/// of waypoints only shrinks: what is left after any run of ticks is the
/// front part of what it started with, shorter by one for each arrival.
pub proof fn lemma_enemy_lifetime(enemy: EnemyModel, deltas: Seq<u64>)
    requires
        enemy.wf(),
    ensures
        enemy_after(enemy, deltas).wf(),
        enemy_after(enemy, deltas).controller.attack_pos.len() + enemy_arrivals(enemy, deltas)
            == enemy.controller.attack_pos.len(),
        enemy_after(enemy, deltas).controller.attack_pos == enemy.controller.attack_pos.take(
            enemy_after(enemy, deltas).controller.attack_pos.len() as int,
        ),
    decreases deltas.len(),
{
    if deltas.len() > 0 {
        lemma_enemy_tick(enemy, deltas[0]);
        let next = enemy.updated(deltas[0]);
        lemma_enemy_lifetime(next, deltas.skip(1));
        let last = enemy_after(enemy, deltas).controller.attack_pos;
        assert(last =~= enemy.controller.attack_pos.take(last.len() as int));
    } else {
        assert(enemy.controller.attack_pos =~= enemy.controller.attack_pos.take(
            enemy.controller.attack_pos.len() as int,
        ));
    }
}

} // verus!
