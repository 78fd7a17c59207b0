//! The level: a backlog of enemies that wait for the scroll to reach them,
//! and the scroll itself.

use vstd::prelude::*;
use crate::boss::{
    spawn_boss, Boss, BossModel, BOSS_PADDING, BOSS_SIZE, VERTICAL_TRAVEL,
};
use crate::enemy::{
    ring_for, spawn_enemy, ControllerModel, Enemy, EnemyController, EnemyModel, EnemyState,
    ENEMY_HEALTH, ENEMY_SIZE,
};
use crate::geometry::{clamp_i32, Vec2, SCREEN_HEIGHT, SCREEN_WIDTH};
use crate::health::Health;

verus! {

/// Steps that the camera scrolls in one second.
pub const SCROLL_SPEED: u32 = 15_000;

/// An enemy or the boss appears once the camera is no farther above its
/// trigger line than this: one screen height.
pub const SPAWN_DISTANCE: i32 = 600_000;

/// Once the boss is there, the camera comes to rest this far above it:
/// `SCREEN_HEIGHT / 2 - BOSS_SIZE / 2 - BOSS_PADDING`, which puts the boss at
/// the bottom margin of the screen.
pub const BOSS_DEPTH: i32 = 225_000;

/// The level's measures fit the screen. Things appear one screen height
/// ahead of the camera. The camera rests where the boss stands at the bottom
/// of the screen with its gap, half a journey below the middle. The columns
/// of the level are the screen's edges, each an enemy's half further out,
/// and the screen's thirds, to the nearest step.
pub proof fn lemma_level_measures()
    ensures
        SPAWN_DISTANCE == SCREEN_HEIGHT,
        BOSS_DEPTH == SCREEN_HEIGHT / 2 - BOSS_SIZE / 2 - BOSS_PADDING,
        2 * BOSS_DEPTH == VERTICAL_TRAVEL,
        RIGHT_EDGE == SCREEN_WIDTH / 2 + ENEMY_SIZE / 2,
        LEFT_EDGE == -RIGHT_EDGE,
        THIRD == (SCREEN_WIDTH + 1) / 3,
        RIGHT_LANE == (2 * SCREEN_WIDTH) / 3 - SCREEN_WIDTH / 2,
        LEFT_LANE == -RIGHT_LANE,
        FAR_RIGHT == THIRD + SCREEN_WIDTH / 2,
{
}

/// Raised once when the scroll has caught up with the boss.
#[derive(Clone, Copy, Debug, PartialEq, Eq, Structural)]
pub struct ScrollDoneEvent;

/// The enemies that have yet to appear, each with the place where it
/// appears, and the place of the boss while it has yet to appear.
#[derive(Clone, Debug, PartialEq, Eq)]
pub struct Level {
    pub enemies: Vec<(Vec2, EnemyController)>,
    pub boss_pos: Option<Vec2>,
}

/// A level as a mathematical value.
pub struct LevelModel {
    pub enemies: Seq<(Vec2, ControllerModel)>,
    pub boss_pos: Option<Vec2>,
}

/// The view of one entry of the backlog.
pub open spec fn entry_view(entry: (Vec2, EnemyController)) -> (Vec2, ControllerModel) {
    (entry.0, entry.1@)
}

/// The view of a backlog.
pub open spec fn backlog_view(entries: Seq<(Vec2, EnemyController)>) -> Seq<
    (Vec2, ControllerModel),
> {
    Seq::new(entries.len(), |i: int| entry_view(entries[i]))
}

impl View for Level {
    type V = LevelModel;

    open spec fn view(&self) -> LevelModel {
        LevelModel { enemies: backlog_view(self.enemies@), boss_pos: self.boss_pos }
    }
}

/// Whether the camera at height `camera_y` has come within `SPAWN_DISTANCE`
/// of the line at height `y`. The camera scrolls downward, toward smaller
/// heights.
pub open spec fn in_reach(y: i32, camera_y: i32) -> bool {
    y >= camera_y - SPAWN_DISTANCE
}

/// Whether an entry of the backlog is due: the camera has come within reach
/// of the waypoint that the enemy heads for first.
pub open spec fn is_due(entry: (Vec2, ControllerModel), camera_y: i32) -> bool {
    in_reach(entry.1.attack_pos.last().y, camera_y)
}

/// The entries that are due with the camera at `camera_y`.
pub open spec fn due_at(camera_y: i32) -> spec_fn((Vec2, ControllerModel)) -> bool {
    |entry: (Vec2, ControllerModel)| is_due(entry, camera_y)
}

/// The entries that are not yet due with the camera at `camera_y`.
pub open spec fn waiting_at(camera_y: i32) -> spec_fn((Vec2, ControllerModel)) -> bool {
    |entry: (Vec2, ControllerModel)| !is_due(entry, camera_y)
}

/// The enemy that an entry of the backlog turns into.
pub open spec fn enemy_of(entry: (Vec2, ControllerModel)) -> EnemyModel {
    EnemyModel {
        position: entry.0,
        controller: entry.1,
        health: Health { health: ENEMY_HEALTH, max_health: ENEMY_HEALTH },
        ring: ring_for(entry.1.state),
    }
}

/// The views of a list of enemies.
pub open spec fn enemy_views(enemies: Seq<Enemy>) -> Seq<EnemyModel> {
    Seq::new(enemies.len(), |i: int| enemies[i]@)
}

impl LevelModel {
    /// Every enemy in the backlog has a waypoint to head for.
    pub open spec fn wf(self) -> bool {
        forall|i: int|
            0 <= i < self.enemies.len() ==> (#[trigger] self.enemies[i]).1.attack_pos.len() > 0
    }

    /// The backlog that is left with the camera at `camera_y`: the entries
    /// not yet due, in their old order.
    pub open spec fn left_at(self, camera_y: i32) -> Seq<(Vec2, ControllerModel)> {
        self.enemies.filter(waiting_at(camera_y))
    }

    /// The enemies that appear with the camera at `camera_y`: those of the
    /// entries that are due, in their old order.
    pub open spec fn spawned_at(self, camera_y: i32) -> Seq<EnemyModel> {
        self.enemies.filter(due_at(camera_y)).map_values(
            |entry: (Vec2, ControllerModel)| enemy_of(entry),
        )
    }
}

/// Whether the camera at height `camera_y` has come within `SPAWN_DISTANCE`
/// of the line at height `y`.
fn reached(y: i32, camera_y: i32) -> (r: bool)
    ensures
        r == in_reach(y, camera_y),
{
    y as i64 >= camera_y as i64 - SPAWN_DISTANCE as i64
}

/// Lets every enemy appear whose first waypoint the camera has come within
/// reach of. Those enemies leave the backlog and are returned, in the order
/// in which they stood there; the others stay, in their old order.
pub fn spawn_enemies(level: &mut Level, camera_y: i32) -> (spawned: Vec<Enemy>)
    requires
        old(level)@.wf(),
    ensures
        final(level)@.enemies == old(level)@.left_at(camera_y),
        final(level)@.boss_pos == old(level)@.boss_pos,
        final(level)@.wf(),
        enemy_views(spawned@) == old(level)@.spawned_at(camera_y),
{
    let mut backlog: Vec<(Vec2, EnemyController)> = Vec::new();
    std::mem::swap(&mut level.enemies, &mut backlog);
    let ghost all = backlog_view(backlog@);
    let mut spawned: Vec<Enemy> = Vec::new();
    let mut done: usize = 0;
    let total = backlog.len();
    proof {
        reveal(Seq::filter);
        assert(all.take(0) =~= Seq::<(Vec2, ControllerModel)>::empty());
        assert(backlog_view(level.enemies@) =~= all.take(0).filter(waiting_at(camera_y)));
        assert(enemy_views(spawned@) =~= all.take(0).filter(due_at(camera_y)).map_values(
            |entry: (Vec2, ControllerModel)| enemy_of(entry),
        ));
    }
    while backlog.len() > 0
        invariant
            done + backlog.len() == total,
            total == all.len(),
            backlog_view(backlog@) == all.skip(done as int),
            backlog_view(level.enemies@) == all.take(done as int).filter(waiting_at(camera_y)),
            enemy_views(spawned@) == all.take(done as int).filter(due_at(camera_y)).map_values(
                |entry: (Vec2, ControllerModel)| enemy_of(entry),
            ),
            forall|i: int| 0 <= i < all.len() ==> (#[trigger] all[i]).1.attack_pos.len() > 0,
            level.boss_pos == old(level).boss_pos,
        decreases backlog.len(),
    {
        let ghost before = backlog@;
        let ghost kept = level.enemies@;
        let ghost out = spawned@;
        let entry = backlog.remove(0);
        let pos = entry.0;
        let enemy = entry.1;
        proof {
            reveal(Seq::filter);
            assert(entry_view(entry) == backlog_view(before)[0]);
            assert(entry_view(entry) == all[done as int]);
            assert(all.take(done as int + 1).drop_last() =~= all.take(done as int));
            assert(all.take(done as int + 1).last() == all[done as int]);
            assert(backlog_view(backlog@) =~= all.skip(done as int + 1)) by {
                assert forall|k: int| 0 <= k < backlog@.len() implies backlog_view(backlog@)[k]
                    == all.skip(done as int + 1)[k] by {
                    assert(backlog@[k] == before[k + 1]);
                    assert(backlog_view(before)[k + 1] == all.skip(done as int)[k + 1]);
                }
            }
        }
        let n = enemy.attack_pos.len();
        if reached(enemy.attack_pos[n - 1].y, camera_y) {
            let fresh = spawn_enemy(pos, enemy);
            spawned.push(fresh);
            proof {
                assert(is_due(all[done as int], camera_y));
                assert(enemy_views(spawned@) =~= enemy_views(out).push(enemy_of(all[done as int])));
                assert(all.take(done as int + 1).filter(due_at(camera_y)) == all.take(
                    done as int,
                ).filter(due_at(camera_y)).push(all[done as int]));
                assert(all.take(done as int + 1).filter(due_at(camera_y)).map_values(
                    |entry: (Vec2, ControllerModel)| enemy_of(entry),
                ) =~= all.take(done as int).filter(due_at(camera_y)).map_values(
                    |entry: (Vec2, ControllerModel)| enemy_of(entry),
                ).push(enemy_of(all[done as int])));
            }
        } else {
            level.enemies.push((pos, enemy));
            proof {
                assert(!is_due(all[done as int], camera_y));
                assert(backlog_view(level.enemies@) =~= backlog_view(kept).push(all[done as int]));
            }
        }
        done = done + 1;
    }
    proof {
        assert(all.take(done as int) =~= all);
        let left = all.filter(waiting_at(camera_y));
        assert forall|i: int| 0 <= i < left.len() implies (#[trigger] left[i]).1.attack_pos.len()
            > 0 by {
            assert(left.contains(left[i]));
            all.lemma_filter_contains_rev(waiting_at(camera_y), left[i]);
            let k = choose|k: int| 0 <= k < all.len() && all[k] == left[i];
            assert(all[k].1.attack_pos.len() > 0);
        }
    }
    spawned
}

/// Lets the boss appear once the camera has come within reach of its place:
/// the pending place is cleared and a fresh boss returned. Nothing happens
/// while the boss is out of reach or no boss is pending.
pub fn spawn_pending_boss(level: &mut Level, camera_y: i32) -> (boss: Option<Boss>)
    ensures
        final(level).enemies == old(level).enemies,
        match old(level).boss_pos {
            Some(p) => if in_reach(p.y, camera_y) {
                &&& final(level).boss_pos.is_none()
                &&& boss.is_some()
                &&& boss.unwrap()@ == BossModel::fresh(p)
            } else {
                final(level).boss_pos == old(level).boss_pos && boss.is_none()
            },
            None => final(level).boss_pos.is_none() && boss.is_none(),
        },
{
    match level.boss_pos {
        Some(p) => {
            if reached(p.y, camera_y) {
                level.boss_pos = None;
                Some(spawn_boss(p))
            } else {
                None
            }
        },
        None => None,
    }
}

/// An enemy that is due stays due as the camera scrolls on, and one that
/// still waits at a height did so at every height before.
pub proof fn lemma_due_is_lasting(entry: (Vec2, ControllerModel), earlier: i32, later: i32)
    requires
        later <= earlier,
    ensures
        is_due(entry, earlier) ==> is_due(entry, later),
        !is_due(entry, later) ==> !is_due(entry, earlier),
{
}

/// Every enemy appears exactly once. What is left of a backlog after the
/// camera stood at `earlier` and then at `later` is what would be left had
/// it stood at `later` alone, and the enemies that the two stops bring are,
/// in number, those that `later` alone would have brought: none is lost and
/// none comes twice. In particular nothing more appears while the camera
/// stands still.
pub proof fn lemma_spawns_exactly_once(entries: Seq<(Vec2, ControllerModel)>, earlier: i32, later:
    i32)
    requires
        later <= earlier,
    ensures
        entries.filter(waiting_at(earlier)).filter(waiting_at(later)) == entries.filter(
            waiting_at(later),
        ),
        entries.filter(due_at(earlier)).len() + entries.filter(waiting_at(earlier)).filter(
            due_at(later),
        ).len() == entries.filter(due_at(later)).len(),
        entries.filter(waiting_at(earlier)).filter(due_at(earlier)).len() == 0,
    decreases entries.len(),
{
    reveal(Seq::filter);
    if entries.len() > 0 {
        let front = entries.drop_last();
        let last = entries.last();
        lemma_spawns_exactly_once(front, earlier, later);
        lemma_due_is_lasting(last, earlier, later);
        let kept = front.filter(waiting_at(earlier));
        if !is_due(last, earlier) {
            assert(kept.push(last).drop_last() =~= kept);
            assert(kept.push(last).last() == last);
        }
    }
}

/// How the camera scrolls.
#[derive(Clone, Copy, Debug, PartialEq, Eq, Structural)]
pub struct Scroll {
    /// Height of the camera. The camera scrolls toward smaller heights.
    pub camera_y: i32,
    /// Steps per second.
    pub speed: u32,
    /// Whether the signal that the scroll caught up with the boss was raised.
    pub done: bool,
}

impl Scroll {
    /// The steps that the camera scrolls in `delta` microseconds if nothing
    /// holds it, rounded down.
    pub open spec fn step(self, delta: u64) -> int {
        (self.speed * delta) / 1_000_000
    }

    /// The height of the camera after `delta` microseconds. Without a boss
    /// the camera scrolls on. With the boss at height `boss_y` it scrolls
    /// until it is `BOSS_DEPTH` above the boss and rests there.
    pub open spec fn height_after(self, delta: u64, boss_y: Option<i32>) -> int {
        match boss_y {
            None => clamp_i32(self.camera_y - self.step(delta)),
            Some(b) => if self.camera_y <= b + BOSS_DEPTH {
                self.camera_y as int
            } else if self.camera_y - self.step(delta) <= b + BOSS_DEPTH {
                b + BOSS_DEPTH
            } else {
                self.camera_y - self.step(delta)
            },
        }
    }

    /// Whether the camera, after `delta` microseconds, has caught up with a
    /// boss at height `boss_y`.
    pub open spec fn catches_up(self, delta: u64, boss_y: Option<i32>) -> bool {
        match boss_y {
            None => false,
            Some(b) => self.height_after(delta, boss_y) <= b + BOSS_DEPTH,
        }
    }

    /// Whether a tick of `delta` microseconds raises the signal that the
    /// scroll caught up: it does, and had not before.
    pub open spec fn signals(self, delta: u64, boss_y: Option<i32>) -> bool {
        !self.done && self.catches_up(delta, boss_y)
    }

    /// The scroll after a tick of `delta` microseconds.
    pub open spec fn scrolled(self, delta: u64, boss_y: Option<i32>) -> Scroll {
        Scroll {
            camera_y: self.height_after(delta, boss_y) as i32,
            done: self.done || self.catches_up(delta, boss_y),
            ..self
        }
    }
}

impl Default for Scroll {
    /// The scroll at the start of a level.
    fn default() -> (scroll: Scroll)
        ensures
            scroll == (Scroll { camera_y: 0, speed: SCROLL_SPEED, done: false }),
    {
        Scroll { camera_y: 0, speed: SCROLL_SPEED, done: false }
    }
}

/// Scrolls the camera for `delta` microseconds. `boss_y` is the height of the
/// boss, if there is one. Raises the signal that the scroll caught up with
/// the boss on the first tick on which it has.
pub fn scroll_system(scroll: &mut Scroll, delta: u64, boss_y: Option<i32>) -> (signal: Option<
    ScrollDoneEvent,
>)
    ensures
        *final(scroll) == old(scroll).scrolled(delta, boss_y),
        signal.is_some() == old(scroll).signals(delta, boss_y),
        final(scroll).camera_y <= old(scroll).camera_y,
{
    let speed: u128 = scroll.speed as u128;
    let elapsed: u128 = delta as u128;
    assert(0 <= speed * elapsed <= 0xffff_ffff * 0xffff_ffff_ffff_ffff) by (nonlinear_arith)
        requires
            0 <= speed <= 0xffff_ffff,
            0 <= elapsed <= 0xffff_ffff_ffff_ffff,
    ;
    let step: i128 = (speed * elapsed / 1_000_000) as i128;
    let free: i128 = scroll.camera_y as i128 - step;
    let mut caught_up = false;
    match boss_y {
        None => {
            scroll.camera_y = if free < i32::MIN as i128 {
                i32::MIN
            } else {
                free as i32
            };
        },
        Some(b) => {
            let rest: i128 = b as i128 + BOSS_DEPTH as i128;
            if scroll.camera_y as i128 > rest {
                if free <= rest {
                    scroll.camera_y = rest as i32;
                    caught_up = true;
                } else {
                    scroll.camera_y = free as i32;
                }
            } else {
                caught_up = true;
            }
        },
    }
    if caught_up && !scroll.done {
        scroll.done = true;
        Some(ScrollDoneEvent)
    } else {
        None
    }
}

/// What happens around the scroll on one tick.
pub struct ScrollInput {
    /// Microseconds since the tick before.
    pub delta: u64,
    /// Height of the boss, if there is one.
    pub boss_y: Option<i32>,
}

/// The scroll after the ticks `inputs`, in order.
pub open spec fn scroll_after(scroll: Scroll, inputs: Seq<ScrollInput>) -> Scroll
    decreases inputs.len(),
{
    if inputs.len() == 0 {
        scroll
    } else {
        scroll_after(scroll.scrolled(inputs[0].delta, inputs[0].boss_y), inputs.skip(1))
    }
}

/// How often the signal that the scroll caught up is raised over the ticks
/// `inputs`, in order.
pub open spec fn scroll_signals(scroll: Scroll, inputs: Seq<ScrollInput>) -> nat
    decreases inputs.len(),
{
    if inputs.len() == 0 {
        0
    } else {
        let first: nat = if scroll.signals(inputs[0].delta, inputs[0].boss_y) {
            1
        } else {
            0
        };
        first + scroll_signals(
            scroll.scrolled(inputs[0].delta, inputs[0].boss_y),
            inputs.skip(1),
        )
    }
}

/// The camera never scrolls back, and never past the height at which it
/// rests above a boss.
pub proof fn lemma_scroll_tick(scroll: Scroll, delta: u64, boss_y: Option<i32>)
    ensures
        scroll.scrolled(delta, boss_y).camera_y <= scroll.camera_y,
        scroll.scrolled(delta, boss_y).camera_y == scroll.height_after(delta, boss_y),
        boss_y matches Some(b) ==> (scroll.camera_y >= b + BOSS_DEPTH ==> scroll.scrolled(
            delta,
            boss_y,
        ).camera_y >= b + BOSS_DEPTH),
        boss_y matches Some(b) ==> (scroll.camera_y <= b + BOSS_DEPTH ==> scroll.scrolled(
            delta,
            boss_y,
        ).camera_y == scroll.camera_y),
{
    assert(scroll.step(delta) >= 0) by (nonlinear_arith)
        requires
            scroll.step(delta) == (scroll.speed * delta) / 1_000_000,
            scroll.speed >= 0,
            delta >= 0,
    ;
}

/// Whatever the ticks bring, the camera never scrolls back, and the signal
/// that the scroll caught up with the boss is raised at most once: exactly
/// if it had not been raised before and is marked as raised now.
pub proof fn lemma_scroll_signals_once(scroll: Scroll, inputs: Seq<ScrollInput>)
    ensures
        scroll_after(scroll, inputs).camera_y <= scroll.camera_y,
        scroll_signals(scroll, inputs) <= 1,
        scroll.done ==> scroll_signals(scroll, inputs) == 0 && scroll_after(scroll, inputs).done,
        !scroll.done ==> (scroll_signals(scroll, inputs) == 1) == scroll_after(scroll, inputs).done,
    decreases inputs.len(),
{
    if inputs.len() > 0 {
        lemma_scroll_tick(scroll, inputs[0].delta, inputs[0].boss_y);
        lemma_scroll_signals_once(
            scroll.scrolled(inputs[0].delta, inputs[0].boss_y),
            inputs.skip(1),
        );
    }
}

/// Column just left of the screen: `-SCREEN_WIDTH / 2 - ENEMY_SIZE / 2`.
pub const LEFT_EDGE: i32 = -440_000;

/// Column just right of the screen: `SCREEN_WIDTH / 2 + ENEMY_SIZE / 2`.
pub const RIGHT_EDGE: i32 = 440_000;

/// Column a third of the screen from its left edge.
pub const LEFT_LANE: i32 = -133_333;

/// Column a third of the screen from its right edge.
pub const RIGHT_LANE: i32 = 133_333;

/// Column a third of the screen to the right of its right edge.
pub const FAR_RIGHT: i32 = 666_667;

/// Column a third of the screen right of its middle.
pub const THIRD: i32 = 266_667;

/// Height of one row of enemies.
pub const ROW: i32 = 100_000;

/// Height at which the second wave begins.
pub const SECOND_WAVE: i32 = -400_000;

/// Height at which the last enemy before the boss appears.
pub const STRAGGLER_START: i32 = -900_000;

/// Height of the row along which that enemy leaves.
pub const STRAGGLER_ROW: i32 = -800_000;

/// Height up to which that enemy first overshoots its row.
pub const STRAGGLER_PEAK: i32 = -750_000;

/// Height at which the boss appears.
pub const BOSS_ROW: i32 = -1_000_000;

/// The controller of an enemy that visits `path` in order: the waypoints are
/// stored last first, so that the first one to visit stands at the end.
pub fn enemy_on_path(path: Vec<Vec2>) -> (ctrl: EnemyController)
    ensures
        ctrl@ == (ControllerModel { state: EnemyState::Moving, attack_pos: path@.reverse() }),
{
    let mut rest = path;
    let mut stored: Vec<Vec2> = Vec::new();
    while rest.len() > 0
        invariant
            rest@.len() + stored@.len() == path@.len(),
            rest@ == path@.take(rest@.len() as int),
            forall|k: int| 0 <= k < stored@.len() ==> stored@[k] == path@[path@.len() - 1 - k],
        decreases rest.len(),
    {
        let point = rest.pop().unwrap();
        stored.push(point);
        assert(rest@ =~= path@.take(rest@.len() as int));
    }
    assert(stored@ =~= path@.reverse());
    EnemyController::from(stored)
}

/// An entry of the backlog: an enemy that appears at `start` and then visits
/// `path` in order.
pub open spec fn entry_on_path(start: Vec2, path: Seq<Vec2>) -> (Vec2, ControllerModel) {
    (start, ControllerModel { state: EnemyState::Moving, attack_pos: path.reverse() })
}

/// Enemy `i` of the first wave: in from the left, across both lanes with a
/// dip of one row, out to the right.
pub open spec fn first_wave(i: int) -> (Vec2, ControllerModel) {
    let y = (-i * ROW) as i32;
    entry_on_path(
        Vec2 { x: LEFT_EDGE, y },
        seq![
            Vec2 { x: LEFT_LANE, y },
            Vec2 { x: RIGHT_LANE, y: (y - ROW) as i32 },
            Vec2 { x: RIGHT_EDGE, y },
        ],
    )
}

/// Enemy `i` of the second wave: in from the right, out past the right lane
/// and back across the screen, out to the left.
pub open spec fn second_wave(i: int) -> (Vec2, ControllerModel) {
    let y = (SECOND_WAVE - i * ROW) as i32;
    entry_on_path(
        Vec2 { x: RIGHT_EDGE, y },
        seq![Vec2 { x: FAR_RIGHT, y }, Vec2 { x: RIGHT_LANE, y }, Vec2 { x: LEFT_EDGE, y }],
    )
}

/// Enemy `i` of the second wave of the opening level: from the right edge
/// across both lanes.
pub open spec fn opening_second_wave(i: int) -> (Vec2, ControllerModel) {
    let y = (SECOND_WAVE - i * ROW) as i32;
    entry_on_path(
        Vec2 { x: RIGHT_EDGE, y },
        seq![Vec2 { x: RIGHT_EDGE, y }, Vec2 { x: RIGHT_LANE, y }, Vec2 { x: LEFT_LANE, y }],
    )
}

/// The last enemy before the boss: up the middle, a short way further, then
/// out to the right.
pub open spec fn straggler() -> (Vec2, ControllerModel) {
    entry_on_path(
        Vec2 { x: 0, y: STRAGGLER_START },
        seq![
            Vec2 { x: 0, y: STRAGGLER_ROW },
            Vec2 { x: 0, y: STRAGGLER_PEAK },
            Vec2 { x: THIRD, y: STRAGGLER_ROW },
            Vec2 { x: RIGHT_EDGE, y: STRAGGLER_ROW },
        ],
    )
}

/// The place of the boss.
pub open spec fn boss_place() -> Vec2 {
    Vec2 { x: 0, y: BOSS_ROW }
}

/// An entry of the backlog: an enemy that appears at `start` and then visits
/// the three points in order.
fn entry_of_three(start: Vec2, a: Vec2, b: Vec2, c: Vec2) -> (entry: (Vec2, EnemyController))
    ensures
        entry_view(entry) == entry_on_path(start, seq![a, b, c]),
{
    let mut path: Vec<Vec2> = Vec::new();
    path.push(a);
    path.push(b);
    path.push(c);
    assert(path@ =~= seq![a, b, c]);
    (start, enemy_on_path(path))
}

/// The level of the game: two waves of three enemies, a straggler, and the
/// boss.
pub fn setup_level() -> (level: Level)
    ensures
        level@.enemies == seq![
            first_wave(0),
            first_wave(1),
            first_wave(2),
            second_wave(0),
            second_wave(1),
            second_wave(2),
            straggler(),
        ],
        level@.boss_pos == Some(boss_place()),
        level@.wf(),
{
    let mut enemies: Vec<(Vec2, EnemyController)> = Vec::new();
    let mut i: i32 = 0;
    while i < 3
        invariant
            0 <= i <= 3,
            enemies@.len() == i,
            forall|k: int| 0 <= k < i ==> entry_view(#[trigger] enemies@[k]) == first_wave(k),
        decreases 3 - i,
    {
        let y: i32 = -i * ROW;
        let entry = entry_of_three(
            Vec2 { x: LEFT_EDGE, y },
            Vec2 { x: LEFT_LANE, y },
            Vec2 { x: RIGHT_LANE, y: y - ROW },
            Vec2 { x: RIGHT_EDGE, y },
        );
        enemies.push(entry);
        i = i + 1;
    }
    let mut j: i32 = 0;
    while j < 3
        invariant
            0 <= j <= 3,
            enemies@.len() == 3 + j,
            forall|k: int| 0 <= k < 3 ==> entry_view(#[trigger] enemies@[k]) == first_wave(k),
            forall|k: int| 0 <= k < j ==> entry_view(#[trigger] enemies@[3 + k]) == second_wave(k),
        decreases 3 - j,
    {
        let y: i32 = SECOND_WAVE - j * ROW;
        let entry = entry_of_three(
            Vec2 { x: RIGHT_EDGE, y },
            Vec2 { x: FAR_RIGHT, y },
            Vec2 { x: RIGHT_LANE, y },
            Vec2 { x: LEFT_EDGE, y },
        );
        let ghost before = enemies@;
        enemies.push(entry);
        assert forall|k: int| 0 <= k < j + 1 implies entry_view(#[trigger] enemies@[3 + k])
            == second_wave(k) by {
            if k < j {
                assert(enemies@[3 + k] == before[3 + k]);
            }
        }
        j = j + 1;
    }
    let mut path: Vec<Vec2> = Vec::new();
    path.push(Vec2 { x: 0, y: STRAGGLER_ROW });
    path.push(Vec2 { x: 0, y: STRAGGLER_PEAK });
    path.push(Vec2 { x: THIRD, y: STRAGGLER_ROW });
    path.push(Vec2 { x: RIGHT_EDGE, y: STRAGGLER_ROW });
    assert(path@ =~= seq![
        Vec2 { x: 0, y: STRAGGLER_ROW },
        Vec2 { x: 0, y: STRAGGLER_PEAK },
        Vec2 { x: THIRD, y: STRAGGLER_ROW },
        Vec2 { x: RIGHT_EDGE, y: STRAGGLER_ROW },
    ]);
    let ghost waves = enemies@;
    enemies.push((Vec2 { x: 0, y: STRAGGLER_START }, enemy_on_path(path)));
    let level = Level { enemies, boss_pos: Some(Vec2 { x: 0, y: BOSS_ROW }) };
    proof {
        assert(entry_view(waves[0]) == first_wave(0));
        assert(entry_view(waves[1]) == first_wave(1));
        assert(entry_view(waves[2]) == first_wave(2));
        assert(entry_view(waves[3 + 0int]) == second_wave(0));
        assert(entry_view(waves[3 + 1int]) == second_wave(1));
        assert(entry_view(waves[3 + 2int]) == second_wave(2));
        assert(level@.enemies =~= seq![
            first_wave(0),
            first_wave(1),
            first_wave(2),
            second_wave(0),
            second_wave(1),
            second_wave(2),
            straggler(),
        ]);
    }
    level
}

/// The opening level, which plays behind the title: the two waves in their
/// first form, and no boss.
pub fn setup() -> (level: Level)
    ensures
        level@.enemies == seq![
            first_wave(0),
            first_wave(1),
            first_wave(2),
            opening_second_wave(0),
            opening_second_wave(1),
            opening_second_wave(2),
        ],
        level@.boss_pos.is_none(),
        level@.wf(),
{
    let mut enemies: Vec<(Vec2, EnemyController)> = Vec::new();
    let mut i: i32 = 0;
    while i < 3
        invariant
            0 <= i <= 3,
            enemies@.len() == i,
            forall|k: int| 0 <= k < i ==> entry_view(#[trigger] enemies@[k]) == first_wave(k),
        decreases 3 - i,
    {
        let y: i32 = -i * ROW;
        let entry = entry_of_three(
            Vec2 { x: LEFT_EDGE, y },
            Vec2 { x: LEFT_LANE, y },
            Vec2 { x: RIGHT_LANE, y: y - ROW },
            Vec2 { x: RIGHT_EDGE, y },
        );
        enemies.push(entry);
        i = i + 1;
    }
    let mut j: i32 = 0;
    while j < 3
        invariant
            0 <= j <= 3,
            enemies@.len() == 3 + j,
            forall|k: int| 0 <= k < 3 ==> entry_view(#[trigger] enemies@[k]) == first_wave(k),
            forall|k: int|
                0 <= k < j ==> entry_view(#[trigger] enemies@[3 + k]) == opening_second_wave(k),
        decreases 3 - j,
    {
        let y: i32 = SECOND_WAVE - j * ROW;
        let entry = entry_of_three(
            Vec2 { x: RIGHT_EDGE, y },
            Vec2 { x: RIGHT_EDGE, y },
            Vec2 { x: RIGHT_LANE, y },
            Vec2 { x: LEFT_LANE, y },
        );
        let ghost before = enemies@;
        enemies.push(entry);
        assert forall|k: int| 0 <= k < j + 1 implies entry_view(#[trigger] enemies@[3 + k])
            == opening_second_wave(k) by {
            if k < j {
                assert(enemies@[3 + k] == before[3 + k]);
            }
        }
        j = j + 1;
    }
    let level = Level { enemies, boss_pos: None };
    proof {
        let waves = level.enemies@;
        assert(entry_view(waves[0]) == first_wave(0));
        assert(entry_view(waves[1]) == first_wave(1));
        assert(entry_view(waves[2]) == first_wave(2));
        assert(entry_view(waves[3 + 0int]) == opening_second_wave(0));
        assert(entry_view(waves[3 + 1int]) == opening_second_wave(1));
        assert(entry_view(waves[3 + 2int]) == opening_second_wave(2));
        assert(level@.enemies =~= seq![
            first_wave(0),
            first_wave(1),
            first_wave(2),
            opening_second_wave(0),
            opening_second_wave(1),
            opening_second_wave(2),
        ]);
    }
    level
}

} // verus!
