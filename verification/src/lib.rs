//! Decision core of a speedrun auto-splitter for a climbing game.
//!
//! The library locates the game objects that hold the player's state through
//! candidate pointer chains, turns per-tick field reads into snapshots, and
//! converts consecutive snapshots into start, split and reset commands for a
//! run timer. Everything that touches a foreign process (memory reads, the
//! timer itself) stays outside: the library receives the raw outcomes of
//! those reads as plain values and makes every decision from them.

pub mod floatbits;
pub mod snapshot;
pub mod resolver;
pub mod machine;
pub mod profile;

