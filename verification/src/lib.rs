//! A generic container holding one value per axis, with the combinators
//! used to transform both axes at once or one axis at a time.

pub mod direction;
pub mod laws;
pub mod xy;

pub use direction::Orientation;
pub use xy::XY;
