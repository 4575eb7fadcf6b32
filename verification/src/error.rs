//! What can go wrong in an analysis.

use crate::scalar::Real;
use vstd::prelude::*;

verus! {

/// A fault in what the analysis was given. It ends the analysis.
#[derive(Clone, Copy, Debug, PartialEq, Eq, Structural)]
pub enum ConfigurationError {
    /// The analysis was asked to work before it was given an input.
    NoInput,
    /// The analysis was asked to sweep before its mesh was preprocessed.
    NotPreprocessed,
    /// The mesh has no element.
    EmptyMesh,
    /// `element` is the first element that names a node the mesh lacks.
    MissingNode { element: usize },
    /// No element of the mesh belongs to the body `body_index`.
    EmptyBody { body_index: usize },
    /// Field point `field_point` lies on the collocation point of `unknown`.
    CoincidentFieldPoint { field_point: usize, unknown: usize },
    /// Matrices and vectors handed over do not fit the number of unknowns or
    /// of field points.
    ShapeMismatch,
}

/// The factorisation met a pivot below its threshold at `frequency`.
#[derive(Clone, Copy, Debug, PartialEq, Eq, Structural)]
pub struct SingularSystemError {
    pub frequency: Real,
}

/// A fault at one frequency of a sweep.
#[derive(Clone, Copy, Debug, PartialEq, Eq, Structural)]
pub enum SolveError {
    Configuration(ConfigurationError),
    SingularSystem(SingularSystemError),
}

/// Notice that the quadrature of `pairs` near-singular panel pairs did not
/// reach its tolerance at `frequency`. The computation went on.
#[derive(Clone, Copy, Debug, PartialEq, Eq, Structural)]
pub struct NumericalToleranceWarning {
    pub frequency: Real,
    pub pairs: usize,
}

} // verus!
