//! A verified two-body gravitational simulator.
//!
//! Scalars are IEEE-754 binary64 numbers carried as their `u64` bit
//! patterns; the primitive arithmetic on them is done by softfloat
//! libraries behind a small trusted layer (`fp`). Everything built on
//! top of that layer — the 2-D vector algebra, the body state and its
//! Velocity-Verlet update, the gravitational force law, and the
//! simulation driver — is verified: each function's contract pins its
//! result down to an exact composition of the primitive operations.

pub mod body;
pub mod fp;
pub mod sim;
pub mod vec2;

pub use body::gravitational_force;
pub use body::Body;
pub use sim::simulate;
pub use sim::simulate_moon_earth;
pub use sim::SimConfig;
pub use vec2::Vector2D;
