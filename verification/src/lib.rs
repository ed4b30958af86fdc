//! A fixed-step, deterministic physics and collision core for a 2D platformer.
//!
//! The simulation advances in ticks. In every tick the player moves first, then
//! each enemy; a moving body is tested against the others with one sample point
//! per axis and is pushed back out of what it has entered. From the collisions
//! follow the rest of the state: when a body last stood on something (and so
//! whether it may jump), whether the player was hurt, its hit points, and the
//! trail that it leaves. `GameState::render` lists the vertices of what is to
//! be drawn.
//!
//! All quantities are fixed-point numbers in millionths (see `fixed`), so that
//! the same inputs give the same trajectory everywhere. The clock and the
//! camera live in `UniformData`, which the caller owns: it advances the clock
//! by `ONE` before each call of `GameState::tick`.
pub mod bounding_box;
pub mod enemy;
pub mod fixed;
pub mod game_state;
pub mod input;
pub mod movement;
pub mod platform;
pub mod player;
pub mod rand_gen;
pub mod trail;
pub mod uniforms;
pub mod vec2;
pub mod vertex;

pub use crate::bounding_box::{BoundingBox, AABB};
pub use crate::enemy::Enemy;
pub use crate::game_state::GameState;
pub use crate::input::InputEvent;
pub use crate::platform::Platform;
pub use crate::player::Player;
pub use crate::rand_gen::RandGen;
pub use crate::trail::Trail;
pub use crate::uniforms::UniformData;
pub use crate::vec2::{vec2, vec3, Vec2, Vec3};
pub use crate::vertex::Vertex;
