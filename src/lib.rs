//! The rules of a small idle game about an ant infestation, verified.
//!
//! Creatures run along paths between the two boundary segments of each
//! infested object; how many show, and where, follows from the object's
//! dirtiness and a fixed noise table. Each tick a level's objects drift in
//! dirtiness and react to the pointer, money comes in, and the level is won or
//! lost; a small state machine moves between stories, levels and dialogs.
//!
//! Everything is in integers: positions in whole pixels, noise in parts per
//! billion and money in thousandths.

pub mod geometry;
pub mod noise;
pub mod infestation;
pub mod level;
pub mod game;
