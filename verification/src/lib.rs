//! Core of an interactive viewer for volumetric (3D) medical scans.
//!
//! The library owns the state of the viewing session: the loaded volume
//! descriptions, the per-axis slicing cursor, the contrast (windowing)
//! parameters, and the affine view transform driven by pointer and keyboard
//! input.  A thin shell around it performs the actual file decoding, window
//! management and GPU work; the library hands it one bundle of per-frame
//! uniform values.
//!
//! Every scalar quantity is a fixed-point number: an `i64` holding the value
//! times [`fixed::SCALE`].  The shell divides by the scale when it converts
//! the uniforms to the floating-point values the GPU expects.

pub mod fixed;
pub mod shader;
pub mod slab;
pub mod transform;
pub mod view;
pub mod volume;

pub use fixed::SCALE;
