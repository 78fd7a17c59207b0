//! Pickups, and how a burst of them is scattered.
//!
//! Where a pickup lands is random. The random numbers are uniform 32-bit
//! draws; what a draw means is decided here, for every draw there can be.

use vstd::prelude::*;
use crate::geometry::{Polar, Vec2, FULL_TURN};

verus! {

/// Radius of a pickup's collision shape.
pub const ITEM_RADIUS: i32 = 8_000;

/// One more than the largest 32-bit draw.
pub const DRAWS: u64 = 0x1_0000_0000;

/// A pickup lying on the playfield.
#[derive(Clone, Copy, Debug, PartialEq, Eq, Structural)]
pub struct Item {
    pub position: Vec2,
}

/// The region around a centre over which a burst is scattered.
#[derive(Clone, Copy, Debug, PartialEq, Eq, Structural)]
pub enum Region {
    /// Within this distance of the centre.
    Disk(i32),
    /// Within this distance of the centre along either axis.
    Square(i32),
}

/// A number of pickups to scatter over a region.
#[derive(Clone, Copy, Debug, PartialEq, Eq, Structural)]
pub struct ItemBurst {
    pub count: u32,
    pub region: Region,
}

/// The share `draw / DRAWS` of `extent`, rounded down.
pub open spec fn share(extent: int, draw: u32) -> int {
    (extent * draw) / (DRAWS as int)
}

/// The offset that two draws pick in the square of half side `half`.
pub open spec fn square_offset(half: i32, draw_x: u32, draw_y: u32) -> Vec2 {
    Vec2 {
        x: (share(2 * half, draw_x) - half) as i32,
        y: (share(2 * half, draw_y) - half) as i32,
    }
}

/// The offset that two draws pick in the disk of radius `radius`: the first
/// draw is the distance from the centre, the second the direction.
pub open spec fn disk_offset(radius: i32, draw_r: u32, draw_theta: u32) -> Polar {
    Polar { angle: share(FULL_TURN as int, draw_theta) as i32, radius: share(
        radius as int,
        draw_r,
    ) as i32 }
}

/// A share of an extent is less than the extent.
pub proof fn lemma_share_bounds(extent: int, draw: u32)
    requires
        0 <= extent,
    ensures
        0 <= share(extent, draw) <= extent,
        extent > 0 ==> share(extent, draw) < extent,
        share(extent, 0) == 0,
{
    assert(0 <= extent * draw <= extent * 0xffff_ffff) by (nonlinear_arith)
        requires
            0 <= extent,
            0 <= draw <= 0xffff_ffff,
    ;
    assert(0 <= (extent * draw) / 0x1_0000_0000 <= extent && (extent > 0 ==> (extent * draw)
        / 0x1_0000_0000 < extent)) by (nonlinear_arith)
        requires
            0 <= extent * draw <= extent * 0xffff_ffff,
            0 <= extent,
    ;
    assert(extent * 0 == 0) by (nonlinear_arith);
}

/// The share `draw / DRAWS` of `extent`, rounded down.
fn share_of(extent: u64, draw: u32) -> (s: u64)
    requires
        extent <= 0xffff_ffff,
    ensures
        s == share(extent as int, draw),
        s <= extent,
        extent > 0 ==> s < extent,
{
    proof {
        lemma_share_bounds(extent as int, draw);
        assert(extent * draw <= 0xffff_ffff * 0xffff_ffff) by (nonlinear_arith)
            requires
                0 <= extent <= 0xffff_ffff,
                0 <= draw <= 0xffff_ffff,
        ;
    }
    extent * draw as u64 / DRAWS
}

/// Picks an offset in the square of half side `half` from two uniform draws:
/// each coordinate lies in `[-half, half)`, evenly spread.
pub fn scatter_in_square(half: i32, draw_x: u32, draw_y: u32) -> (offset: Vec2)
    requires
        0 <= half,
    ensures
        offset == square_offset(half, draw_x, draw_y),
        -half <= offset.x <= half,
        -half <= offset.y <= half,
{
    let side: u64 = 2 * half as u64;
    Vec2 {
        x: (share_of(side, draw_x) as i64 - half as i64) as i32,
        y: (share_of(side, draw_y) as i64 - half as i64) as i32,
    }
}

/// Picks an offset in the disk of radius `radius` from two uniform draws:
/// the distance is the share of the radius that the first draw names, the
/// direction the share of a full turn that the second names.
pub fn scatter_in_disk(radius: i32, draw_r: u32, draw_theta: u32) -> (offset: Polar)
    requires
        0 <= radius,
    ensures
        offset == disk_offset(radius, draw_r, draw_theta),
        0 <= offset.radius <= radius,
        0 <= offset.angle < FULL_TURN,
{
    Polar {
        angle: share_of(FULL_TURN as u64, draw_theta) as i32,
        radius: share_of(radius as u64, draw_r) as i32,
    }
}

/// Where one thing of a burst lands, seen from the centre of the burst.
#[derive(Clone, Copy, Debug, PartialEq, Eq, Structural)]
pub enum Placement {
    /// This far along either axis.
    Offset(Vec2),
    /// This far in this direction.
    Bearing(Polar),
}

impl ItemBurst {
    /// The region has an extent.
    pub open spec fn wf(self) -> bool {
        match self.region {
            Region::Disk(radius) => 0 <= radius,
            Region::Square(half) => 0 <= half,
        }
    }
}

/// The placement that two draws pick in `region`.
pub open spec fn placement_for(region: Region, first: u32, second: u32) -> Placement {
    match region {
        Region::Square(half) => Placement::Offset(square_offset(half, first, second)),
        Region::Disk(radius) => Placement::Bearing(disk_offset(radius, first, second)),
    }
}

/// Whether `placement` is one that some pair of draws picks in `region`.
pub open spec fn drawn_in(region: Region, placement: Placement) -> bool {
    exists|first: u32, second: u32| placement == placement_for(region, first, second)
}

/// Whether `placement` lies within `region`.
pub open spec fn lies_within(region: Region, placement: Placement) -> bool {
    match region {
        Region::Square(half) => placement matches Placement::Offset(v) && -half <= v.x <= half
            && -half <= v.y <= half,
        Region::Disk(radius) => placement matches Placement::Bearing(p) && 0 <= p.radius <= radius
            && 0 <= p.angle < FULL_TURN,
    }
}

/// One uniform 32-bit draw: the result of `rand::random::<u32>()`, which
/// takes it from the generator that `rand` keeps for the thread. Nothing is
/// claimed of the number drawn. `rand` panics if the operating system gives
/// its generator no seed.
#[verifier::external_body]
pub(crate) fn draw() -> (number: u32) {
    rand::random::<u32>()
}

/// Picks a placement in `region` from two uniform draws.
pub fn place_in(region: Region, first: u32, second: u32) -> (placement: Placement)
    requires
        (ItemBurst { count: 1, region }).wf(),
    ensures
        placement == placement_for(region, first, second),
        lies_within(region, placement),
{
    match region {
        Region::Square(half) => Placement::Offset(scatter_in_square(half, first, second)),
        Region::Disk(radius) => Placement::Bearing(scatter_in_disk(radius, first, second)),
    }
}

/// Scatters a burst at random: one placement for each of its things, each
/// of them picked in the burst's region by two fresh draws.
pub fn scatter_burst(burst: &ItemBurst) -> (placements: Vec<Placement>)
    requires
        burst.wf(),
    ensures
        placements@.len() == burst.count,
        forall|i: int|
            0 <= i < placements@.len() ==> drawn_in(burst.region, #[trigger] placements@[i]),
        forall|i: int|
            0 <= i < placements@.len() ==> lies_within(burst.region, #[trigger] placements@[i]),
{
    let mut placements: Vec<Placement> = Vec::new();
    let mut placed: u32 = 0;
    while placed < burst.count
        invariant
            burst.wf(),
            placed <= burst.count,
            placements@.len() == placed,
            forall|i: int|
                0 <= i < placements@.len() ==> drawn_in(burst.region, #[trigger] placements@[i]),
            forall|i: int|
                0 <= i < placements@.len() ==> lies_within(burst.region, #[trigger] placements@[i]),
        decreases burst.count - placed,
    {
        let first = draw();
        let second = draw();
        let placement = place_in(burst.region, first, second);
        placements.push(placement);
        placed = placed + 1;
    }
    placements
}

impl Item {
    /// The pickup that lies `offset` away from `center`, kept on the
    /// playfield's coordinate range.
    pub fn place(center: Vec2, offset: Vec2) -> (item: Item)
        ensures
            item.position == center.shifted(offset),
    {
        Item { position: center.offset_by(&offset) }
    }
}

} // verus!
