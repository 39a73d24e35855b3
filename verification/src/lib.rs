//! The discrete core of a small vector-math sandbox: which way the held
//! movement keys push the player, and where the lines of the background
//! grid lie.  Every function here works on integers and is verified.

pub mod grid;
pub mod input;
