//! Time-parameterised interpolation of positions and rotations.
//!
//! A tween moves a value from `start` to `end` over `duration` microseconds
//! with a quadratic ease-in/ease-out curve. An [`Animation`] plays a path of
//! position tweens one after the other and, beside it, one rotation tween
//! that may start late; it reports the moment at which all of it has played.

use vstd::prelude::*;
use crate::geometry::Vec2;
use crate::timer::saturating_sum;

verus! {

/// Numerator, over `d * d`, of the eased progress at time `t` of `d`:
/// with `p = t / d`, the curve is `2 p^2` in the first half and
/// `1 - 2 (1 - p)^2` in the second.
pub open spec fn ease_in_out(t: int, d: int) -> int {
    if 2 * t < d {
        2 * t * t
    } else {
        d * d - 2 * (d - t) * (d - t)
    }
}

/// The point `num / den` of the way from `start` to `end`, the distance
/// covered rounded down.
pub open spec fn lerp(start: int, end: int, num: int, den: int) -> int {
    if end >= start {
        start + ((end - start) * num) / den
    } else {
        start - ((start - end) * num) / den
    }
}

/// The value at time `t` of a tween from `start` to `end` that lasts `d`.
pub open spec fn tween_value(start: int, end: int, t: int, d: int) -> int {
    if t >= d {
        end
    } else {
        lerp(start, end, ease_in_out(t, d), d * d)
    }
}

/// The eased progress is a fraction between zero and one.
pub proof fn lemma_ease_bounds(t: int, d: int)
    requires
        0 <= t <= d,
    ensures
        0 <= ease_in_out(t, d) <= d * d,
        ease_in_out(0, d) == 0,
        ease_in_out(d, d) == d * d,
{
    if 2 * t < d {
        assert(0 <= 2 * t * t <= d * d) by (nonlinear_arith)
            requires
                0 <= t,
                2 * t < d,
        ;
    } else {
        assert(0 <= 2 * (d - t) * (d - t) <= d * d) by (nonlinear_arith)
            requires
                0 <= t <= d,
                2 * t >= d,
        ;
    }
    assert(0 * 0 == 0);
    assert(2 * 0 * 0 == 0);
    if d > 0 {
        assert(2 * (d - d) * (d - d) == 0) by (nonlinear_arith);
    } else {
        assert(d * d == 0) by (nonlinear_arith)
            requires
                d == 0,
        ;
    }
}

/// A fraction of a distance is no longer than the distance.
pub proof fn lemma_fraction_bounds(span: int, num: int, den: int)
    requires
        0 <= span,
        0 <= num <= den,
        0 < den,
    ensures
        0 <= (span * num) / den <= span,
        (span * 0) / den == 0,
        (span * den) / den == span,
{
    assert(0 <= span * num <= span * den) by (nonlinear_arith)
        requires
            0 <= span,
            0 <= num <= den,
    ;
    vstd::arithmetic::div_mod::lemma_div_is_ordered(0, span * num, den);
    vstd::arithmetic::div_mod::lemma_div_is_ordered(span * num, span * den, den);
    vstd::arithmetic::div_mod::lemma_div_by_multiple(span, den);
    assert(span * 0 == 0) by (nonlinear_arith);
    assert(0int / den == 0) by (nonlinear_arith)
        requires
            0 < den,
    ;
}

/// A tween starts at `start`, ends at `end` and never leaves the interval
/// between the two.
pub proof fn lemma_tween_value_bounds(start: int, end: int, t: int, d: int)
    requires
        0 <= t,
        0 <= d,
    ensures
        start <= end ==> start <= tween_value(start, end, t, d) <= end,
        end <= start ==> end <= tween_value(start, end, t, d) <= start,
        d > 0 ==> tween_value(start, end, 0, d) == start,
        t >= d ==> tween_value(start, end, t, d) == end,
{
    if t < d {
        lemma_ease_bounds(t, d);
        assert(d * d > 0) by (nonlinear_arith)
            requires
                d > 0,
        ;
        let span = if end >= start { end - start } else { start - end };
        lemma_fraction_bounds(span, ease_in_out(t, d), d * d);
    }
    if d > 0 {
        lemma_ease_bounds(0, d);
        assert(d * d > 0) by (nonlinear_arith)
            requires
                d > 0,
        ;
        let span = if end >= start { end - start } else { start - end };
        lemma_fraction_bounds(span, 0, d * d);
    }
}

/// The point `num / den` of the way from `start` to `end`, the distance
/// covered rounded down.
pub fn fraction_toward(start: i32, end: i32, num: u128, den: u128) -> (v: i32)
    requires
        num <= den,
        0 < den <= u64::MAX,
    ensures
        v == lerp(start as int, end as int, num as int, den as int),
        start <= end ==> start <= v <= end,
        end <= start ==> end <= v <= start,
{
    if end >= start {
        let span: u128 = (end as i64 - start as i64) as u128;
        proof {
            lemma_fraction_bounds(span as int, num as int, den as int);
            assert(span * num <= 0xffff_ffff * 0xffff_ffff_ffff_ffff) by (nonlinear_arith)
                requires
                    0 <= span <= 0xffff_ffff,
                    0 <= num <= 0xffff_ffff_ffff_ffff,
            ;
        }
        let off: u128 = span * num / den;
        (start as i64 + off as i64) as i32
    } else {
        let span: u128 = (start as i64 - end as i64) as u128;
        proof {
            lemma_fraction_bounds(span as int, num as int, den as int);
            assert(span * num <= 0xffff_ffff * 0xffff_ffff_ffff_ffff) by (nonlinear_arith)
                requires
                    0 <= span <= 0xffff_ffff,
                    0 <= num <= 0xffff_ffff_ffff_ffff,
            ;
        }
        let off: u128 = span * num / den;
        (start as i64 - off as i64) as i32
    }
}

/// The value at `t` microseconds of a tween from `start` to `end` that lasts
/// `d` microseconds.
pub fn interpolate(start: i32, end: i32, t: u32, d: u32) -> (v: i32)
    ensures
        v == tween_value(start as int, end as int, t as int, d as int),
{
    if t >= d {
        return end;
    }
    let tt: u128 = t as u128;
    let dd: u128 = d as u128;
    proof {
        lemma_ease_bounds(t as int, d as int);
        assert(0 < dd * dd <= 0xffff_ffff * 0xffff_ffff) by (nonlinear_arith)
            requires
                0 < dd <= 0xffff_ffff,
        ;
        assert(0 <= 2 * tt * tt <= 2 * (0xffff_ffff * 0xffff_ffff)) by (nonlinear_arith)
            requires
                0 <= tt <= 0xffff_ffff,
        ;
        assert(0 <= 2 * (dd - tt) * (dd - tt) <= 2 * (0xffff_ffff * 0xffff_ffff))
            by (nonlinear_arith)
            requires
                0 <= tt <= dd <= 0xffff_ffff,
        ;
    }
    let den: u128 = dd * dd;
    let num: u128 = if 2 * tt < dd {
        2 * tt * tt
    } else {
        den - 2 * (dd - tt) * (dd - tt)
    };
    fraction_toward(start, end, num, den)
}

/// A position that moves from `start` to `end` in `duration` microseconds.
#[derive(Clone, Copy, Debug, PartialEq, Eq, Structural)]
pub struct PositionTween {
    pub start: Vec2,
    pub end: Vec2,
    pub duration: u32,
}

/// A rotation that turns from `start` to `end` in `duration` microseconds.
#[derive(Clone, Copy, Debug, PartialEq, Eq, Structural)]
pub struct RotationTween {
    pub start: i32,
    pub end: i32,
    pub duration: u32,
}

impl PositionTween {
    /// Where the tween stands `t` microseconds after its start.
    pub open spec fn at(self, t: int) -> Vec2 {
        Vec2 {
            x: tween_value(self.start.x as int, self.end.x as int, t, self.duration as int) as i32,
            y: tween_value(self.start.y as int, self.end.y as int, t, self.duration as int) as i32,
        }
    }

    /// Where the tween stands `t` microseconds after its start.
    pub fn sample(&self, t: u32) -> (v: Vec2)
        ensures
            v == self.at(t as int),
    {
        Vec2 {
            x: interpolate(self.start.x, self.end.x, t, self.duration),
            y: interpolate(self.start.y, self.end.y, t, self.duration),
        }
    }
}

impl RotationTween {
    /// The angle of the tween `t` microseconds after its start.
    pub open spec fn at(self, t: int) -> i32 {
        tween_value(self.start as int, self.end as int, t, self.duration as int) as i32
    }

    /// The angle of the tween `t` microseconds after its start.
    pub fn sample(&self, t: u32) -> (v: i32)
        ensures
            v == self.at(t as int),
    {
        interpolate(self.start, self.end, t, self.duration)
    }
}

/// The time that a path of tweens takes, played one after the other.
pub open spec fn path_duration(path: Seq<PositionTween>) -> int
    decreases path.len(),
{
    if path.len() == 0 {
        0
    } else {
        path_duration(path.drop_last()) + path.last().duration
    }
}

/// Where a non-empty path of tweens stands `t` microseconds after its start:
/// on the first tween while that one runs, then on the rest of the path; at
/// the end of the last tween once all have run.
pub open spec fn path_at(path: Seq<PositionTween>, t: int) -> Vec2
    decreases path.len(),
{
    if path.len() <= 1 || t < path[0].duration {
        path[0].at(t)
    } else {
        path_at(path.skip(1), t - path[0].duration)
    }
}

/// Where the path stands `t` microseconds after its start; `None` for a path
/// without tweens.
pub fn path_sample(path: &Vec<PositionTween>, t: u64) -> (v: Option<Vec2>)
    ensures
        v == (if path@.len() == 0 {
            None
        } else {
            Some(path_at(path@, t as int))
        }),
{
    if path.len() == 0 {
        return None;
    }
    let mut i: usize = 0;
    let mut rem: u64 = t;
    assert(path@.skip(0) =~= path@);
    while i + 1 < path.len() && rem >= path[i].duration as u64
        invariant
            i < path.len(),
            path_at(path@, t as int) == path_at(path@.skip(i as int), rem as int),
        decreases path.len() - i,
    {
        assert(path@.skip(i as int).skip(1) =~= path@.skip(i as int + 1));
        rem = rem - path[i].duration as u64;
        i = i + 1;
    }
    let local: u32 = if rem >= path[i].duration as u64 {
        path[i].duration
    } else {
        rem as u32
    };
    proof {
        let rest = path@.skip(i as int);
        assert(rest[0] == path@[i as int]);
        assert(path_at(rest, rem as int) == rest[0].at(rem as int));
    }
    Some(path[i].sample(local))
}

/// The time that a path of tweens takes, played one after the other.
pub fn path_length(path: &Vec<PositionTween>) -> (total: u128)
    ensures
        total == path_duration(path@),
{
    let mut total: u128 = 0;
    let mut i: usize = 0;
    assert(path@.take(0) =~= Seq::<PositionTween>::empty());
    while i < path.len()
        invariant
            i <= path.len(),
            total == path_duration(path@.take(i as int)),
            total <= i * 0xffff_ffff,
        decreases path.len() - i,
    {
        assert(path@.take(i as int + 1).drop_last() =~= path@.take(i as int));
        total = total + path[i].duration as u128;
        i = i + 1;
    }
    assert(path@.take(i as int) =~= path@);
    total
}

/// A path of position tweens and, beside it, a rotation tween that starts
/// after `turn_delay` microseconds, with the time played so far.
#[derive(Clone, Debug, PartialEq, Eq)]
pub struct Animation {
    pub path: Vec<PositionTween>,
    pub turn: Option<RotationTween>,
    pub turn_delay: u32,
    pub elapsed: u64,
    pub completed: bool,
}

/// An animation as a mathematical value.
pub struct AnimationModel {
    pub path: Seq<PositionTween>,
    pub turn: Option<RotationTween>,
    pub turn_delay: u32,
    pub elapsed: u64,
    pub completed: bool,
}

impl View for Animation {
    type V = AnimationModel;

    open spec fn view(&self) -> AnimationModel {
        AnimationModel {
            path: self.path@,
            turn: self.turn,
            turn_delay: self.turn_delay,
            elapsed: self.elapsed,
            completed: self.completed,
        }
    }
}

impl AnimationModel {
    /// An animation that has not played yet.
    pub open spec fn fresh(
        path: Seq<PositionTween>,
        turn: Option<RotationTween>,
        turn_delay: u32,
    ) -> AnimationModel {
        AnimationModel { path, turn, turn_delay, elapsed: 0, completed: false }
    }

    /// The time after which both the path and the rotation have played.
    pub open spec fn duration(self) -> int {
        let path = path_duration(self.path);
        let turn = match self.turn {
            Some(r) => self.turn_delay + r.duration,
            None => 0,
        };
        if path >= turn {
            path
        } else {
            turn
        }
    }

    /// The position that the animation asks for; `None` where it has no path.
    pub open spec fn position(self) -> Option<Vec2> {
        if self.path.len() == 0 {
            None
        } else {
            Some(path_at(self.path, self.elapsed as int))
        }
    }

    /// The rotation that the animation asks for; `None` where it has no
    /// rotation tween or that tween has not begun.
    pub open spec fn rotation(self) -> Option<i32> {
        match self.turn {
            Some(r) => if self.elapsed < self.turn_delay {
                None
            } else {
                Some(r.at(self.elapsed - self.turn_delay))
            },
            None => None,
        }
    }

    /// The animation `delta` microseconds later: the clock stops at the
    /// animation's duration, where the animation is completed for good.
    pub open spec fn advanced(self, delta: u64) -> AnimationModel {
        let total = saturating_sum(self.elapsed, delta);
        let reached = total >= self.duration();
        AnimationModel {
            elapsed: if reached {
                self.duration() as u64
            } else {
                total
            },
            completed: self.completed || reached,
            ..self
        }
    }

    /// Whether the animation completes on a tick of `delta` microseconds.
    pub open spec fn completes_after(self, delta: u64) -> bool {
        !self.completed && saturating_sum(self.elapsed, delta) >= self.duration()
    }
}

impl Animation {
    /// An animation that has not played yet.
    pub fn new(path: Vec<PositionTween>, turn: Option<RotationTween>, turn_delay: u32) -> (a:
        Animation)
        ensures
            a@ == AnimationModel::fresh(path@, turn, turn_delay),
    {
        Animation { path, turn, turn_delay, elapsed: 0, completed: false }
    }

    /// The time after which both the path and the rotation have played.
    pub fn total_duration(&self) -> (d: u128)
        ensures
            d == self@.duration(),
    {
        let path: u128 = path_length(&self.path);
        let turn: u128 = match self.turn {
            Some(r) => self.turn_delay as u128 + r.duration as u128,
            None => 0,
        };
        if path >= turn {
            path
        } else {
            turn
        }
    }

    /// Plays `delta` more microseconds and says whether the animation
    /// completed on this tick.
    pub fn tick(&mut self, delta: u64) -> (done: bool)
        ensures
            final(self)@ == old(self)@.advanced(delta),
            done == old(self)@.completes_after(delta),
    {
        let total: u64 = match self.elapsed.checked_add(delta) {
            Some(t) => t,
            None => u64::MAX,
        };
        let duration: u128 = self.total_duration();
        let was_completed = self.completed;
        if total as u128 >= duration {
            self.elapsed = duration as u64;
            self.completed = true;
            !was_completed
        } else {
            self.elapsed = total;
            false
        }
    }

    /// The position that the animation asks for; `None` where it has no path.
    pub fn sample_position(&self) -> (v: Option<Vec2>)
        ensures
            v == self@.position(),
    {
        path_sample(&self.path, self.elapsed)
    }

    /// The rotation that the animation asks for; `None` where it has no
    /// rotation tween or that tween has not begun.
    pub fn sample_rotation(&self) -> (v: Option<i32>)
        ensures
            v == self@.rotation(),
    {
        match self.turn {
            Some(r) => {
                if self.elapsed < self.turn_delay as u64 {
                    None
                } else {
                    let local: u64 = self.elapsed - self.turn_delay as u64;
                    let clipped: u32 = if local >= r.duration as u64 {
                        r.duration
                    } else {
                        local as u32
                    };
                    Some(r.sample(clipped))
                }
            },
            None => None,
        }
    }
}

/// A path takes no negative time.
pub proof fn lemma_path_duration_nonnegative(path: Seq<PositionTween>)
    ensures
        0 <= path_duration(path),
    decreases path.len(),
{
    if path.len() > 0 {
        lemma_path_duration_nonnegative(path.drop_last());
    }
}

/// Once a path has run its time it stands at the end of its last tween.
pub proof fn lemma_path_ends_at_last(path: Seq<PositionTween>, t: int)
    requires
        path.len() > 0,
        t >= path_duration(path),
    ensures
        path_at(path, t) == path.last().end,
    decreases path.len(),
{
    lemma_path_duration_split(path);
    if path.len() == 1 {
        assert(path.drop_last().len() == 0);
        assert(path_duration(path.drop_last()) == 0);
    } else {
        lemma_path_duration_nonnegative(path.skip(1));
        lemma_path_ends_at_last(path.skip(1), t - path[0].duration);
    }
}

/// The time of a path is that of its first tween and that of the rest.
pub proof fn lemma_path_duration_split(path: Seq<PositionTween>)
    requires
        path.len() > 0,
    ensures
        path_duration(path) == path[0].duration + path_duration(path.skip(1)),
    decreases path.len(),
{
    if path.len() == 1 {
        assert(path.drop_last() =~= path.skip(1));
        assert(path_duration(path.skip(1)) == 0);
    } else {
        lemma_path_duration_split(path.drop_last());
        assert(path.drop_last().skip(1) =~= path.skip(1).drop_last());
        assert(path.drop_last()[0] == path[0]);
        assert(path.skip(1).last() == path.last());
    }
}

/// An animation that completes leaves its subject at the end of its path
/// and turned to the end of its rotation.
pub proof fn lemma_animation_ends(a: AnimationModel, delta: u64)
    requires
        saturating_sum(a.elapsed, delta) >= a.duration(),
    ensures
        a.advanced(delta).completed,
        a.advanced(delta).elapsed == a.duration(),
        a.path.len() > 0 ==> a.advanced(delta).position() == Some(a.path.last().end),
        a.turn matches Some(r) ==> a.advanced(delta).rotation() == Some(r.end),
{
    lemma_path_duration_nonnegative(a.path);
    if a.path.len() > 0 {
        lemma_path_ends_at_last(a.path, a.duration());
    }
}

/// An animation completes exactly once: on the first tick that reaches its
/// duration, and on no tick after that. Until then its clock runs on by what
/// each tick brings.
pub proof fn lemma_animation_completes_once(a: AnimationModel, first: u64, second: u64)
    ensures
        a.completes_after(first) ==> a.advanced(first).completed,
        a.advanced(first).completed ==> !a.advanced(first).completes_after(second),
        a.advanced(first).duration() == a.duration(),
        !a.advanced(first).completed ==> a.advanced(first).elapsed == saturating_sum(
            a.elapsed,
            first,
        ),
{
    lemma_path_duration_nonnegative(a.path);
}

} // verus!
