//! Hit points, and the bar that shows them.

use vstd::prelude::*;

verus! {

/// Width of a full health bar.
pub const HEALTH_BAR_WIDTH: i32 = 100_000;

/// Height of a health bar.
pub const HEALTH_BAR_HEIGHT: u32 = 5_000;

/// Gap between an owner's upper edge and its health bar.
pub const HEALTH_BAR_OFFSET: u32 = 15_000;

/// Hit points of an enemy or of the boss.
#[derive(Clone, Copy, Debug, PartialEq, Eq, Structural)]
pub struct Health {
    pub health: u32,
    pub max_health: u32,
}

/// What the bar above an enemy shows.
#[derive(Clone, Copy, Debug, PartialEq, Eq, Structural)]
pub struct HealthBar {
    /// The bar is hidden while its owner is unhurt.
    pub visible: bool,
    /// Width of the filled part, in thousandths of the full width.
    pub fill: u32,
    /// Horizontal offset of the filled part's centre from the bar's centre,
    /// which keeps its left edge in place.
    pub offset: i32,
}

impl Health {
    /// There is something to lose, and no more than the maximum is left.
    pub open spec fn wf(self) -> bool {
        0 < self.max_health && self.health <= self.max_health
    }

    /// Hit points left, in hundredths of the maximum, rounded down.
    pub open spec fn percent_of_max(self) -> int {
        self.health * 100 / (self.max_health as int)
    }

    /// Full hit points.
    pub fn full(max_health: u32) -> (h: Health)
        ensures
            h == (Health { health: max_health, max_health }),
    {
        Health { health: max_health, max_health }
    }

    /// Hit points left, in hundredths of the maximum, rounded down.
    pub fn percent(&self) -> (p: u64)
        requires
            self.max_health > 0,
        ensures
            p == self.percent_of_max(),
            self.wf() ==> p <= 100,
            (p >= 100) == (self.health >= self.max_health),
    {
        let h: u64 = self.health as u64;
        let m: u64 = self.max_health as u64;
        assert(((h * 100) / (m as int) >= 100) == (h >= m)) by (nonlinear_arith)
            requires
                m > 0,
                h >= 0,
        ;
        assert(h <= m ==> (h * 100) / (m as int) <= 100) by (nonlinear_arith)
            requires
                m > 0,
                h >= 0,
        ;
        h * 100 / m
    }
}

/// How far above its owner's centre a health bar hangs: for an owner with a
/// sprite of height `sprite_height`, half of that height plus the gap less
/// half the bar's own height; at the centre for an owner without one.
pub fn add_healthbar(sprite_height: Option<u32>) -> (y: u32)
    ensures
        y == (match sprite_height {
            Some(h) => (h - HEALTH_BAR_HEIGHT / 2 + HEALTH_BAR_OFFSET) / 2,
            None => 0,
        }),
{
    match sprite_height {
        Some(h) => {
            ((h as u64 + HEALTH_BAR_OFFSET as u64 - HEALTH_BAR_HEIGHT as u64 / 2) / 2) as u32
        },
        None => 0,
    }
}

/// The bar for `health`: hidden at full health, else filled in proportion,
/// with the filled part flush left.
pub fn update_healthbar(health: &Health) -> (bar: HealthBar)
    requires
        health.wf(),
    ensures
        bar.visible == (health.health < health.max_health),
        bar.fill == health.percent_of_max() * 10,
        bar.offset == health.percent_of_max() * (HEALTH_BAR_WIDTH / 200) - HEALTH_BAR_WIDTH / 2,
{
    let percent: u64 = health.percent();
    HealthBar {
        visible: percent < 100,
        fill: (percent * 10) as u32,
        offset: percent as i32 * (HEALTH_BAR_WIDTH / 200) - HEALTH_BAR_WIDTH / 2,
    }
}

} // verus!
