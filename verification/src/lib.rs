//! Simulation engine of a side-scrolling terminal arcade game: a rover drives
//! over a procedurally generated field of craters and monsters.

pub mod alien;
pub mod background;
pub mod buggy;
pub mod bullet;
pub mod collision;
pub mod config;
pub mod context;
pub mod crater;
pub mod dice;
pub mod ditch;
pub mod laws;
pub mod monster;
pub mod motion;
pub mod rover;
pub mod scene;
pub mod scores;
pub mod spawn;
pub mod sprite;
pub mod text;
pub mod world;
