//! One analysis, from its input to its results.
//!
//! An analysis is configured with an input, preprocessed with a mesh, and
//! then swept over its frequencies. Each phase holds what the next one needs
//! and nothing else.

use crate::equation_map::{build_equation_map, centroids, enumerates, EquationMap};
use crate::equation_map::lemma_enumeration_unique;
use crate::error::ConfigurationError;
use crate::influence::{check_field_points, clear_of_surface, on_surface};
use crate::input_data::UserInput;
use crate::mesh::{Mesh, Surface};
use crate::scalar::{copy_of, Cplx, Point};
use crate::sweep::{lemma_complete_sweep, FailurePolicy, Sweep, SweepAction, SweepEvent};
use crate::sweep::{SweepModel, SweepStage};
use vstd::prelude::*;

verus! {

/// How far an analysis has come.
#[derive(Clone, Copy, Debug, PartialEq, Eq, Structural)]
pub enum Phase {
    /// Nothing is known yet.
    Empty,
    /// The input is known.
    Configured,
    /// The unknowns are laid out on the mesh and the sweep is under way.
    Preprocessed,
    /// The sweep has ended.
    Solved,
}

#[derive(Debug)]
enum Pipeline {
    Empty,
    Configured { input: UserInput },
    Preprocessed { input: UserInput, mesh: Mesh, map: EquationMap, sweep: Sweep },
    Solved { input: UserInput, sweep: Sweep },
}

/// An analysis.
#[derive(Debug)]
pub struct Analysis {
    pipeline: Pipeline,
}

/// The input and the mesh fit each other: every element names nodes of the
/// mesh, `panels` enumerates the body of the input, and no field point lies
/// on one of its collocation points.
pub open spec fn admissible(surface: Surface, input: UserInput, panels: Seq<usize>) -> bool {
    &&& surface.sound()
    &&& surface.has_body(input.body_index)
    &&& enumerates(panels, surface, input.body_index)
    &&& clear_of_surface(centroids(surface, panels), input.field_points@)
}

impl Analysis {
    /// The phase of the analysis.
    pub closed spec fn phase(&self) -> Phase {
        match self.pipeline {
            Pipeline::Empty => Phase::Empty,
            Pipeline::Configured { .. } => Phase::Configured,
            Pipeline::Preprocessed { .. } => Phase::Preprocessed,
            Pipeline::Solved { .. } => Phase::Solved,
        }
    }

    /// The input, from the phase `Configured` on.
    pub closed spec fn input(&self) -> UserInput
        recommends
            self.phase() != Phase::Empty,
    {
        match self.pipeline {
            Pipeline::Configured { input } => input,
            Pipeline::Preprocessed { input, .. } => input,
            Pipeline::Solved { input, .. } => input,
            Pipeline::Empty => arbitrary(),
        }
    }

    /// The mesh, in the phase `Preprocessed`.
    pub closed spec fn surface(&self) -> Surface
        recommends
            self.phase() == Phase::Preprocessed,
    {
        match self.pipeline {
            Pipeline::Preprocessed { mesh, .. } => mesh@,
            _ => arbitrary(),
        }
    }

    /// For each unknown its panel, in the phase `Preprocessed`.
    pub closed spec fn unknowns(&self) -> Seq<usize>
        recommends
            self.phase() == Phase::Preprocessed,
    {
        match self.pipeline {
            Pipeline::Preprocessed { map, .. } => map@,
            _ => arbitrary(),
        }
    }

    /// The sweep, from the phase `Preprocessed` on.
    pub closed spec fn sweep(&self) -> SweepModel
        recommends
            self.phase() == Phase::Preprocessed || self.phase() == Phase::Solved,
    {
        match self.pipeline {
            Pipeline::Preprocessed { sweep, .. } => sweep@,
            Pipeline::Solved { sweep, .. } => sweep@,
            _ => arbitrary(),
        }
    }

    /// What holds of an analysis in each phase.
    pub closed spec fn wf(&self) -> bool {
        match self.pipeline {
            Pipeline::Empty => true,
            Pipeline::Configured { .. } => true,
            Pipeline::Preprocessed { input, mesh, map, sweep } => {
                &&& map.maps(mesh@, input.body_index)
                &&& admissible(mesh@, input, map@)
                &&& sweep@.wf()
                &&& sweep@.stage != SweepStage::Done
                &&& sweep@.frequencies == input.frequency@
                &&& sweep@.field_points == input.field_points@.len()
            },
            Pipeline::Solved { input, sweep } => {
                &&& sweep@.wf()
                &&& sweep@.stage == SweepStage::Done
                &&& sweep@.frequencies == input.frequency@
                &&& sweep@.field_points == input.field_points@.len()
            },
        }
    }

    /// An analysis of which nothing is known yet.
    pub fn new() -> (analysis: Analysis)
        ensures
            analysis.wf(),
            analysis.phase() == Phase::Empty,
    {
        Analysis { pipeline: Pipeline::Empty }
    }

    /// Gives the analysis its input. What it held before is dropped.
    pub fn set_input(&mut self, input: UserInput)
        ensures
            final(self).wf(),
            final(self).phase() == Phase::Configured,
            final(self).input() == input,
    {
        self.pipeline = Pipeline::Configured { input };
    }

    /// Lays the unknowns out on `mesh` and makes the sweep ready.
    ///
    /// Fails, and leaves the analysis as it was, where no input waits, where
    /// the mesh or the body is at fault, and where a field point lies on a
    /// collocation point.
    pub fn preprocess(&mut self, mesh: Mesh, policy: FailurePolicy) -> (r: Result<
        (),
        ConfigurationError,
    >)
        requires
            old(self).wf(),
        ensures
            final(self).wf(),
            match r {
                Ok(()) => {
                    &&& old(self).phase() == Phase::Configured
                    &&& final(self).phase() == Phase::Preprocessed
                    &&& final(self).input() == old(self).input()
                    &&& final(self).surface() == mesh@
                    &&& admissible(mesh@, final(self).input(), final(self).unknowns())
                    &&& final(self).sweep() == SweepModel::initial(
                        old(self).input().frequency@,
                        old(self).input().field_points@.len(),
                        policy,
                    )
                },
                Err(e) => {
                    &&& *final(self) == *old(self)
                    &&& match e {
                        ConfigurationError::NoInput => old(self).phase() != Phase::Configured,
                        ConfigurationError::EmptyMesh => old(self).phase() == Phase::Configured
                            && mesh@.panels.len() == 0,
                        ConfigurationError::MissingNode { element } => old(self).phase()
                            == Phase::Configured && mesh@.dangling(element as int) && forall|
                            j: int,
                        | 0 <= j < element ==> !mesh@.dangling(j),
                        ConfigurationError::EmptyBody { body_index } => old(self).phase()
                            == Phase::Configured && body_index == old(self).input().body_index
                            && mesh@.sound() && !mesh@.has_body(body_index),
                        ConfigurationError::CoincidentFieldPoint { field_point, unknown } => {
                            &&& old(self).phase() == Phase::Configured
                            &&& mesh@.sound()
                            &&& mesh@.has_body(old(self).input().body_index)
                            &&& forall|panels: Seq<usize>| #[trigger]
                                enumerates(panels, mesh@, old(self).input().body_index)
                                    ==> first_coincidence(
                                    centroids(mesh@, panels),
                                    old(self).input().field_points@,
                                    field_point as int,
                                    unknown as int,
                                )
                        },
                        _ => false,
                    }
                },
            },
    {
        let mut taken = Pipeline::Empty;
        core::mem::swap(&mut self.pipeline, &mut taken);
        match taken {
            Pipeline::Configured { input } => {
                match build_equation_map(&mesh, input.body_index) {
                    Err(e) => {
                        self.pipeline = Pipeline::Configured { input };
                        Err(e)
                    },
                    Ok(map) => {
                        let collocation = map.collocation_points(&mesh);
                        match check_field_points(&collocation, &input.field_points) {
                            Err(e) => {
                                proof {
                                    assert forall|panels: Seq<usize>| #[trigger]
                                        enumerates(panels, mesh@, input.body_index) implies panels
                                        == map@ by {
                                        lemma_enumeration_unique(
                                            panels,
                                            map@,
                                            mesh@,
                                            input.body_index,
                                        );
                                    }
                                }
                                self.pipeline = Pipeline::Configured { input };
                                Err(e)
                            },
                            Ok(()) => {
                                let frequencies = copy_of(&input.frequency);
                                let sweep = Sweep::new(
                                    frequencies,
                                    input.field_points.len(),
                                    policy,
                                );
                                self.pipeline = Pipeline::Preprocessed { input, mesh, map, sweep };
                                Ok(())
                            },
                        }
                    },
                }
            },
            other => {
                self.pipeline = other;
                Err(ConfigurationError::NoInput)
            },
        }
    }

    /// Hands `event` to the sweep and says what is to be done next. With the
    /// end of the sweep the analysis is solved.
    ///
    /// Fails, and changes nothing, before the analysis is preprocessed.
    pub fn run(&mut self, event: SweepEvent) -> (r: Result<SweepAction, ConfigurationError>)
        requires
            old(self).wf(),
        ensures
            final(self).wf(),
            match old(self).phase() {
                Phase::Empty => r == Err::<SweepAction, ConfigurationError>(
                    ConfigurationError::NoInput,
                ) && *final(self) == *old(self),
                Phase::Configured => r == Err::<SweepAction, ConfigurationError>(
                    ConfigurationError::NotPreprocessed,
                ) && *final(self) == *old(self),
                Phase::Preprocessed => {
                    &&& final(self).sweep() == old(self).sweep().step(event)
                    &&& r == Ok::<SweepAction, ConfigurationError>(final(self).sweep().pending())
                    &&& final(self).input() == old(self).input()
                    &&& final(self).phase() == if final(self).sweep().stage == SweepStage::Done {
                        Phase::Solved
                    } else {
                        Phase::Preprocessed
                    }
                    &&& final(self).phase() == Phase::Preprocessed ==> final(self).surface()
                        == old(self).surface() && final(self).unknowns() == old(self).unknowns()
                },
                Phase::Solved => r == Ok::<SweepAction, ConfigurationError>(SweepAction::Finish)
                    && *final(self) == *old(self),
            },
    {
        let mut taken = Pipeline::Empty;
        core::mem::swap(&mut self.pipeline, &mut taken);
        match taken {
            Pipeline::Empty => Err(ConfigurationError::NoInput),
            Pipeline::Configured { input } => {
                self.pipeline = Pipeline::Configured { input };
                Err(ConfigurationError::NotPreprocessed)
            },
            Pipeline::Preprocessed { input, mesh, map, sweep } => {
                let mut sweep = sweep;
                let action = sweep.step(event);
                let done = match sweep.stage() {
                    SweepStage::Done => true,
                    _ => false,
                };
                if done {
                    self.pipeline = Pipeline::Solved { input, sweep };
                } else {
                    self.pipeline = Pipeline::Preprocessed { input, mesh, map, sweep };
                }
                Ok(action)
            },
            Pipeline::Solved { input, sweep } => {
                self.pipeline = Pipeline::Solved { input, sweep };
                Ok(SweepAction::Finish)
            },
        }
    }

    /// The phase of the analysis.
    pub fn get_phase(&self) -> (phase: Phase)
        ensures
            phase == self.phase(),
    {
        match &self.pipeline {
            Pipeline::Empty => Phase::Empty,
            Pipeline::Configured { .. } => Phase::Configured,
            Pipeline::Preprocessed { .. } => Phase::Preprocessed,
            Pipeline::Solved { .. } => Phase::Solved,
        }
    }

    /// The input, once there is one.
    pub fn get_input(&self) -> (r: Option<&UserInput>)
        ensures
            match r {
                Some(input) => self.phase() != Phase::Empty && *input == self.input(),
                None => self.phase() == Phase::Empty,
            },
    {
        match &self.pipeline {
            Pipeline::Empty => None,
            Pipeline::Configured { input } => Some(input),
            Pipeline::Preprocessed { input, .. } => Some(input),
            Pipeline::Solved { input, .. } => Some(input),
        }
    }

    /// The mesh, while the sweep is under way.
    pub fn get_mesh(&self) -> (r: Option<&Mesh>)
        ensures
            match r {
                Some(mesh) => self.phase() == Phase::Preprocessed && mesh@ == self.surface(),
                None => self.phase() != Phase::Preprocessed,
            },
    {
        match &self.pipeline {
            Pipeline::Preprocessed { mesh, .. } => Some(mesh),
            _ => None,
        }
    }

    /// The equation map, while the sweep is under way.
    pub fn get_equation_map(&self) -> (r: Option<&EquationMap>)
        requires
            self.wf(),
        ensures
            match r {
                Some(map) => {
                    &&& self.phase() == Phase::Preprocessed
                    &&& map@ == self.unknowns()
                    &&& map.maps(self.surface(), self.input().body_index)
                    &&& admissible(self.surface(), self.input(), map@)
                },
                None => self.phase() != Phase::Preprocessed,
            },
    {
        match &self.pipeline {
            Pipeline::Preprocessed { map, .. } => Some(map),
            _ => None,
        }
    }

    /// The sweep, once the analysis is preprocessed.
    pub fn get_sweep(&self) -> (r: Option<&Sweep>)
        requires
            self.wf(),
        ensures
            match r {
                Some(sweep) => {
                    &&& self.phase() == Phase::Preprocessed || self.phase() == Phase::Solved
                    &&& sweep@ == self.sweep()
                    &&& sweep@.wf()
                    &&& sweep@.frequencies == self.input().frequency@
                    &&& sweep@.field_points == self.input().field_points@.len()
                    &&& sweep@.stage == SweepStage::Done <==> self.phase() == Phase::Solved
                },
                None => self.phase() == Phase::Empty || self.phase() == Phase::Configured,
            },
    {
        match &self.pipeline {
            Pipeline::Preprocessed { sweep, .. } => Some(sweep),
            Pipeline::Solved { sweep, .. } => Some(sweep),
            _ => None,
        }
    }

    /// The potential at the field points for the frequency recorded last;
    /// none before the first result.
    pub fn get_fp_result(&self) -> (r: Option<Vec<Cplx>>)
        requires
            self.wf(),
        ensures
            match r {
                Some(phi_fp) => {
                    &&& self.phase() == Phase::Preprocessed || self.phase() == Phase::Solved
                    &&& self.sweep().results.len() > 0
                    &&& phi_fp@ == self.sweep().results.last().phi_fp
                },
                None => self.phase() == Phase::Empty || self.phase() == Phase::Configured
                    || self.sweep().results.len() == 0,
            },
    {
        match self.get_sweep() {
            None => None,
            Some(sweep) => {
                let results = sweep.results();
                if results.len() == 0 {
                    None
                } else {
                    let last = &results[results.len() - 1];
                    Some(copy_of(&last.phi_fp))
                }
            },
        }
    }
}

/// Field point `p` lies on the collocation point of unknown `i`, no field
/// point before it lies on any, and `p` lies on none before `i`.
pub open spec fn first_coincidence(
    collocation: Seq<Point>,
    field_points: Seq<Point>,
    p: int,
    i: int,
) -> bool {
    &&& 0 <= p < field_points.len()
    &&& 0 <= i < collocation.len()
    &&& field_points[p].coincides(collocation[i])
    &&& forall|q: int| 0 <= q < p ==> !on_surface(collocation, #[trigger] field_points[q])
    &&& forall|k: int| 0 <= k < i ==> !field_points[p].coincides(#[trigger] collocation[k])
}

/// A solved analysis of `N` frequencies, none of which failed or was cut
/// off, has `N` results in the order of its input, each with the frequency
/// of its place in the input.
pub proof fn lemma_solved_in_input_order(analysis: Analysis)
    requires
        analysis.wf(),
        analysis.phase() == Phase::Solved,
        analysis.sweep().complete(),
    ensures
        analysis.sweep().results.len() == analysis.input().frequency@.len(),
        forall|k: int|
            0 <= k < analysis.input().frequency@.len() ==> (
            #[trigger] analysis.sweep().results[k]).frequency == analysis.input().frequency@[k],
{
    lemma_complete_sweep(analysis.sweep());
}

} // verus!
