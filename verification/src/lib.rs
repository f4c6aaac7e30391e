//! A small core for motion and collision in two dimensions.
//!
//! One controlled body moves among immovable rectangular obstacles. Each
//! frame the held keys push it, damping slows it down, it steps along its
//! velocity, and where it then overlaps an obstacle it is put back against
//! the face of the obstacle that it ran into.
//!
//! Every quantity is a decimal fixed-point number, [`fixed::Fixed`]: a whole
//! number of millionths in an `i64`. Products and quotients round toward
//! zero, and a velocity or a coordinate that would leave the range sticks to
//! its end. So a frame is a total function, the same on every machine, and
//! what it does is stated and proved exactly.
//!
//! - [`motion`] advances the body by one frame;
//! - [`collision`] resolves its overlaps with the obstacles;
//! - [`world`] holds the scene and runs the two in order;
//! - [`coasting`] proves that a body without input comes to rest;
//! - [`separation`] proves when resolving parts the body from an obstacle,
//!   and when resolving twice is resolving once.

pub mod body;
pub mod coasting;
pub mod collision;
pub mod fixed;
pub mod input;
pub mod motion;
pub mod separation;
pub mod vector;
pub mod world;

pub use crate::body::{ControlledBody, Rect, StaticBody};
pub use crate::collision::resolve;
pub use crate::fixed::Fixed;
pub use crate::input::{Key, Keys};
pub use crate::motion::integrate;
pub use crate::vector::Vector2;
pub use crate::world::{init_world, World};
