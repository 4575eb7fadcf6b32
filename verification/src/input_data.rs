//! The description of one analysis, as its author gives it.

use crate::scalar::{Cplx, Point, Real};
use vstd::prelude::*;

verus! {

/// On which side of the surface the medium lies.
#[derive(Clone, Copy, Debug, PartialEq, Eq, Structural)]
pub enum ProblemType {
    Interior,
    Exterior,
}

/// The shape of the incident wave.
#[derive(Clone, Copy, Debug, PartialEq, Eq, Structural)]
pub enum WaveType {
    PlaneWave,
    SphericalWave,
}

/// The incident wave. For a plane wave `origin` is the direction of
/// propagation, for a spherical wave the place of the source.
#[derive(Clone, Copy, Debug, PartialEq, Eq, Structural)]
pub struct IncidentWaveInput {
    pub origin: Point,
    pub wave_type: WaveType,
    pub amplitude: Cplx,
}

/// Which surface quantity the boundary condition fixes.
#[derive(Clone, Copy, Debug, PartialEq, Eq, Structural)]
pub enum BCType {
    Pressure,
    NormalVelocity,
    Impedance,
}

/// The boundary condition, applied alike to every panel of the body.
#[derive(Clone, Copy, Debug, PartialEq, Eq, Structural)]
pub struct SurfaceBoundaryCondition {
    pub bc_type: BCType,
    pub value: Cplx,
}

/// Everything an analysis is told. The two file names are for whoever reads
/// the mesh and writes the results; the analysis carries them along.
#[derive(Clone, Debug)]
pub struct UserInput {
    pub mesh_file: String,
    pub body_index: usize,
    pub frequency: Vec<Real>,
    pub sound_speed: Real,
    pub mass_density: Real,
    pub problem_type: ProblemType,
    pub field_points: Vec<Point>,
    pub incident_wave: IncidentWaveInput,
    pub surface_bc: SurfaceBoundaryCondition,
    pub output_file: String,
}

} // verus!
