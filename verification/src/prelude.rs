//! The names that most users of the library need.

pub use crate::api::API;
pub use crate::codec::SnapshotError;
pub use crate::grid::Environment;
pub use crate::particle::{Particle, Velocity};
pub use crate::picture::{Picture, PictureError};
pub use crate::rng::Draws;
pub use crate::variant::Variant;
pub use crate::variant_type::{ParticleColor, VariantProperty, VariantType};
pub use crate::world::World;
pub use crate::Serialize;
