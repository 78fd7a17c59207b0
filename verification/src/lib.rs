//! The rules of a scrolling shoot-em-up, free of any engine.
//!
//! The camera scrolls down a level and lets enemies appear as it reaches
//! them. Enemies follow a path of waypoints and line up a ring of bullets at
//! each. At the end waits a boss that cycles through attacks and journeys.
//! The player is a disk whose radius is both its size and its life.
//!
//! Everything is a function from state and elapsed time to the next state and
//! to what the world around it has to do: place a bullet, scatter pickups,
//! remove an enemy. All lengths, angles and times are whole numbers, see
//! [`geometry`].

pub mod boss;
pub mod damage;
pub mod enemy;
pub mod game;
pub mod geometry;
pub mod health;
pub mod item;
pub mod layer;
pub mod level;
pub mod player;
pub mod timer;
pub mod tween;
