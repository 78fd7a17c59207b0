//! The course of a game: title, play, and the pause after a death or a
//! victory before the title returns.

use vstd::prelude::*;
use crate::geometry::clamp_i32;
use crate::level::{Scroll, SCROLL_SPEED};
use crate::timer::{Timer, TimerMode};

verus! {

/// Microseconds between the player's death and the return to the title.
pub const DEFEAT_DELAY: u64 = 1_500_000;

/// Microseconds between the boss's death and the return to the title.
pub const VICTORY_DELAY: u64 = 4_000_000;

/// How much faster the camera scrolls once the boss is dead.
pub const VICTORY_SCROLL_FACTOR: u32 = 3;

/// Steps that the camera scrolls in one second behind the title.
pub const TITLE_SCROLL_SPEED: u32 = 10_000;

/// How fast the parameter of the victorious player's departure grows, in
/// steps per second.
pub const DEPARTURE_SPEED: u64 = 20_000;

/// What the game shows.
#[derive(Clone, Copy, Debug, PartialEq, Eq, Structural)]
pub enum GameState {
    Title,
    Main,
    GameOver,
}

impl Default for GameState {
    /// The game opens with its title.
    fn default() -> (state: GameState)
        ensures
            state == GameState::Title,
    {
        GameState::Title
    }
}

/// The course of a game.
#[derive(Clone, Copy, Debug, PartialEq, Eq, Structural)]
pub struct Game {
    pub state: GameState,
    /// Runs while the game is over; the title returns when it finishes.
    pub timer: Option<Timer>,
    /// After a victory, the parameter of the player's departure: the player
    /// has left the camera's centre by its square.
    pub departure: Option<u64>,
}

/// The height of a camera that stood at `camera_y` after `delta`
/// microseconds behind the title.
pub open spec fn title_height(camera_y: i32, delta: u64) -> int {
    clamp_i32(camera_y - (TITLE_SCROLL_SPEED * delta) / 1_000_000)
}

/// Scrolls the camera behind the title for `delta` microseconds: at
/// `TITLE_SCROLL_SPEED`, whatever speed the level has, and with nothing to
/// hold it.
pub fn title_scroll(scroll: &mut Scroll, delta: u64)
    ensures
        *final(scroll) == (Scroll {
            camera_y: title_height(old(scroll).camera_y, delta) as i32,
            ..*old(scroll)
        }),
        final(scroll).camera_y <= old(scroll).camera_y,
{
    let elapsed: i128 = delta as i128;
    let speed: i128 = TITLE_SCROLL_SPEED as i128;
    assert(0 <= speed * elapsed <= 10_000 * 0xffff_ffff_ffff_ffff) by (nonlinear_arith)
        requires
            speed == 10_000,
            0 <= elapsed <= 0xffff_ffff_ffff_ffff,
    ;
    let free: i128 = scroll.camera_y as i128 - speed * elapsed / 1_000_000;
    scroll.camera_y = if free < i32::MIN as i128 {
        i32::MIN
    } else {
        free as i32
    };
}

/// The departure parameter `delta` microseconds later.
pub open spec fn departure_after(departure: u64, delta: u64) -> u64 {
    let grown = departure + (DEPARTURE_SPEED * delta) / 1_000_000;
    if grown > u64::MAX {
        u64::MAX
    } else {
        grown as u64
    }
}

/// How far below the camera's centre a departing player stands: the square
/// of the parameter, which is in thousandths like the result, kept in range.
pub open spec fn departure_offset(departure: Option<u64>) -> int {
    match departure {
        Some(d) => if (d * d) / 1_000 > i32::MAX {
            i32::MAX as int
        } else {
            (d * d) / 1_000
        },
        None => 0,
    }
}

impl Game {
    /// The game as it opens.
    pub open spec fn opening() -> Game {
        Game { state: GameState::Title, timer: None, departure: None }
    }

    /// The game after the player asked to play.
    pub open spec fn started(self) -> Game {
        if self.state == GameState::Title {
            Game { state: GameState::Main, ..self }
        } else {
            self
        }
    }

    /// The game after the player died.
    pub open spec fn lost(self) -> Game {
        Game {
            state: GameState::GameOver,
            timer: Some(Timer::fresh(DEFEAT_DELAY, TimerMode::Once)),
            departure: None,
        }
    }

    /// The game after the boss died.
    pub open spec fn won(self) -> Game {
        Game {
            state: GameState::GameOver,
            timer: Some(Timer::fresh(VICTORY_DELAY, TimerMode::Once)),
            departure: Some(0),
        }
    }

    /// Whether the title returns on a tick of `delta` microseconds.
    pub open spec fn returns_to_title(self, delta: u64) -> bool {
        self.state == GameState::GameOver && (match self.timer {
            Some(t) => t.ticked(delta).times_finished_this_tick > 0,
            None => false,
        })
    }

    /// The game after a tick of `delta` microseconds. Only a game that is
    /// over changes: its timer runs, a departing player departs further, and
    /// when the timer finishes the game is back at its opening.
    pub open spec fn ticked(self, delta: u64) -> Game {
        if self.state != GameState::GameOver {
            self
        } else if self.returns_to_title(delta) {
            Game::opening()
        } else {
            Game {
                timer: match self.timer {
                    Some(t) => Some(t.ticked(delta)),
                    None => None,
                },
                departure: match self.departure {
                    Some(d) => Some(departure_after(d, delta)),
                    None => None,
                },
                ..self
            }
        }
    }

    /// The game as it opens.
    pub fn new() -> (game: Game)
        ensures
            game == Game::opening(),
    {
        Game { state: GameState::Title, timer: None, departure: None }
    }

    /// The player asks to play: the title gives way to the game.
    pub fn start(&mut self)
        ensures
            *final(self) == old(self).started(),
    {
        match self.state {
            GameState::Title => {
                self.state = GameState::Main;
            },
            _ => {},
        }
    }

    /// The player died: the game is over, and the title returns after
    /// `DEFEAT_DELAY`.
    pub fn player_died(&mut self)
        ensures
            *final(self) == old(self).lost(),
    {
        self.state = GameState::GameOver;
        self.timer = Some(Timer::new(DEFEAT_DELAY, TimerMode::Once));
        self.departure = None;
    }

    /// The boss died: the game is over, the title returns after
    /// `VICTORY_DELAY`, the camera scrolls `VICTORY_SCROLL_FACTOR` times as
    /// fast as at the start, and the player begins to depart.
    pub fn boss_died(&mut self, scroll: &mut Scroll)
        ensures
            *final(self) == old(self).won(),
            *final(scroll) == (Scroll {
                speed: (SCROLL_SPEED * VICTORY_SCROLL_FACTOR) as u32,
                ..*old(scroll)
            }),
    {
        self.state = GameState::GameOver;
        self.timer = Some(Timer::new(VICTORY_DELAY, TimerMode::Once));
        self.departure = Some(0);
        scroll.speed = SCROLL_SPEED * VICTORY_SCROLL_FACTOR;
    }

    /// How far below the camera's centre the player stands: nowhere unless
    /// it departs after a victory.
    pub fn player_offset(&self) -> (offset: i32)
        ensures
            offset == departure_offset(self.departure),
    {
        match self.departure {
            Some(d) => {
                let wide: u128 = d as u128;
                assert(wide * wide <= 0xffff_ffff_ffff_ffff * 0xffff_ffff_ffff_ffff)
                    by (nonlinear_arith)
                    requires
                        0 <= wide <= 0xffff_ffff_ffff_ffff,
                ;
                let offset: u128 = wide * wide / 1_000;
                if offset > i32::MAX as u128 {
                    i32::MAX
                } else {
                    offset as i32
                }
            },
            None => 0,
        }
    }

    /// Plays `delta` microseconds and says whether the title returns.
    pub fn tick(&mut self, delta: u64) -> (title: bool)
        ensures
            *final(self) == old(self).ticked(delta),
            title == old(self).returns_to_title(delta),
    {
        match self.state {
            GameState::GameOver => {},
            _ => {
                return false;
            },
        }
        match self.timer {
            Some(t) => {
                let mut timer = t;
                timer.tick(delta);
                if timer.just_finished() {
                    self.state = GameState::Title;
                    self.timer = None;
                    self.departure = None;
                    return true;
                }
                self.timer = Some(timer);
            },
            None => {},
        }
        match self.departure {
            Some(d) => {
                let grown: u128 = d as u128 + DEPARTURE_SPEED as u128 * delta as u128 / 1_000_000;
                self.departure = Some(
                    if grown > u64::MAX as u128 {
                        u64::MAX
                    } else {
                        grown as u64
                    },
                );
            },
            None => {},
        }
        false
    }
}

} // verus!
