//! Tangent-plane projection of an equirectangular texture onto a window.
//!
//! Angles are held in fixed-point units: a full turn is `2^32` units, so
//! wrapping an angle into its range is exact integer arithmetic.

pub mod angle;
pub mod texture;
pub mod view;
pub mod frame;
pub mod render;
