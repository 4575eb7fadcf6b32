//! Discrete core of a boundary-element solver for acoustic scattering and
//! radiation.
//!
//! The crate holds everything about an analysis that is decided over
//! integers: which panels of a mesh carry an unknown and in what order, which
//! integration rule a pair of panels calls for, whether a field point sits on
//! the surface, how a boundary condition shapes the linear system, and how a
//! sweep over frequencies proceeds and records its results. Numbers of the
//! physical model are carried through as bit patterns and never computed on
//! here.

pub mod scalar;
pub mod input_data;
pub mod error;
pub mod mesh;
pub mod equation_map;
pub mod influence;
pub mod system;
pub mod sweep;
pub mod analysis;
pub use analysis::Analysis;
