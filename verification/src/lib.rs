//! Game rules of a first-person maze game: the maze grid, how the player
//! moves through it, how enemies steer along corridors, what the two levels
//! hold, and the session state machine that counts money, spawns the bag and
//! decides between winning and losing.
//!
//! Positions, angles and everything drawn on screen are floating point and
//! live with the program around this library; here each decision is taken
//! from the grid cells and flags that those computations produce.

pub mod collectable;
pub mod enemy;
pub mod level;
pub mod maze;
pub mod player;
pub mod render;
pub mod session;
