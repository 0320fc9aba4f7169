//! The simulation core of a small two-dimensional action game: entities made of
//! optional components, and the systems that move them each frame.
//!
//! A `World` owns a store for each kind of component and a list of entities,
//! each a record of handles into the stores. One frame runs the physics
//! system, the player system, the sprite system and the event system, in that
//! order. Nothing here opens a window, a file or a sound card: images and
//! sounds are named by the paths of their files, sounds are asked for and
//! sprites are prepared, and the caller draws and plays them.
//!
//! All quantities are fixed-point integers, so every rule of the game is exact
//! and every frame is reproducible. Lengths are in ten-thousandths of a pixel
//! and times in ten-thousandths of a second; the y axis points down. Results
//! that leave the range of a scalar are clamped to it.

pub mod fixed;
pub mod vector;
pub mod store;
pub mod world;
pub mod physics;
pub mod animation;
pub mod orientation;
pub mod weapon;
pub mod player;
pub mod audio;
pub mod event;
pub mod sprites;
pub mod level;
pub mod frame;
pub mod time;
pub mod systems;
