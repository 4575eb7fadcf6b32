use cc_abstemious::analysis::Phase;
use cc_abstemious::error::{ConfigurationError, SingularSystemError, SolveError};
use cc_abstemious::input_data::{
    BCType, IncidentWaveInput, ProblemType, SurfaceBoundaryCondition, UserInput, WaveType,
};
use cc_abstemious::mesh::{Element, Mesh};
use cc_abstemious::scalar::{Cplx, Point, Real};
use cc_abstemious::sweep::{FailurePolicy, SweepAction, SweepEvent, SweepStage};
use cc_abstemious::Analysis;

fn num(value: f64) -> Real {
    Real::from_bits(value.to_bits())
}

fn cplx(re: f64, im: f64) -> Cplx {
    Cplx { re: num(re), im: num(im) }
}

fn point(x: f64, y: f64, z: f64) -> Point {
    Point { x: num(x), y: num(y), z: num(z) }
}

fn element(nodes: [usize; 3], body_index: usize, centroid: Point) -> Element {
    Element { nodes: nodes.to_vec(), body_index, normal: centroid, centroid, area: num(0.5) }
}

// A tetrahedron round the origin, as body 3.
fn tetrahedron() -> Mesh {
    Mesh {
        nodes: vec![
            point(1.0, 1.0, 1.0),
            point(1.0, -1.0, -1.0),
            point(-1.0, 1.0, -1.0),
            point(-1.0, -1.0, 1.0),
        ],
        elements: vec![
            element([0, 1, 2], 3, point(1.0, 1.0, -1.0)),
            element([0, 3, 1], 3, point(1.0, -1.0, 1.0)),
            element([0, 2, 3], 3, point(-1.0, 1.0, 1.0)),
            element([1, 3, 2], 3, point(-1.0, -1.0, -1.0)),
        ],
    }
}

fn input(frequencies: &[f64], field_points: Vec<Point>) -> UserInput {
    UserInput {
        mesh_file: "tetrahedron.vtk".to_string(),
        body_index: 3,
        frequency: frequencies.iter().map(|f| num(*f)).collect(),
        sound_speed: num(1500.0),
        mass_density: num(1000.0),
        problem_type: ProblemType::Exterior,
        field_points,
        incident_wave: IncidentWaveInput {
            origin: point(1.0, 0.0, 0.0),
            wave_type: WaveType::PlaneWave,
            amplitude: cplx(1.0, 0.0),
        },
        surface_bc: SurfaceBoundaryCondition {
            bc_type: BCType::NormalVelocity,
            value: cplx(0.0, 0.0),
        },
        output_file: "tetrahedron.csv".to_string(),
    }
}

fn projected(tag: f64, field_points: usize) -> SweepEvent {
    SweepEvent::Projected {
        phi_fp: (0..field_points).map(|p| cplx(tag, p as f64)).collect(),
        phi_inc_fp: (0..field_points).map(|p| cplx(-tag, p as f64)).collect(),
        radiated_power: num(0.0),
    }
}

#[test]
fn new_analysis_knows_nothing() {
    let analysis = Analysis::new();
    assert_eq!(analysis.get_phase(), Phase::Empty);
    assert!(analysis.get_input().is_none());
    assert!(analysis.get_mesh().is_none());
    assert!(analysis.get_equation_map().is_none());
    assert!(analysis.get_sweep().is_none());
    assert!(analysis.get_fp_result().is_none());
}

#[test]
fn analysis_without_input_does_not_run() {
    let mut analysis = Analysis::new();
    assert_eq!(analysis.run(SweepEvent::Continue), Err(ConfigurationError::NoInput));
    assert_eq!(
        analysis.preprocess(tetrahedron(), FailurePolicy::Skip),
        Err(ConfigurationError::NoInput)
    );
    assert_eq!(analysis.get_phase(), Phase::Empty);
}

#[test]
fn analysis_with_input_is_configured() {
    let mut analysis = Analysis::new();
    analysis.set_input(input(&[10.0], vec![point(10.0, 0.0, 0.0)]));
    assert_eq!(analysis.get_phase(), Phase::Configured);
    let held = analysis.get_input().unwrap();
    assert_eq!(held.body_index, 3);
    assert_eq!(held.frequency, vec![num(10.0)]);
    assert_eq!(held.sound_speed, num(1500.0));
    assert_eq!(held.mass_density, num(1000.0));
    assert_eq!(held.mesh_file, "tetrahedron.vtk");
    assert_eq!(held.output_file, "tetrahedron.csv");
    assert_eq!(analysis.run(SweepEvent::Continue), Err(ConfigurationError::NotPreprocessed));
    assert_eq!(analysis.get_phase(), Phase::Configured);
    assert!(analysis.get_fp_result().is_none());
}

#[test]
fn preprocessing_lays_out_the_unknowns() {
    let mut analysis = Analysis::new();
    analysis.set_input(input(&[10.0, 20.0], vec![point(10.0, 0.0, 0.0)]));
    assert_eq!(analysis.preprocess(tetrahedron(), FailurePolicy::Skip), Ok(()));
    assert_eq!(analysis.get_phase(), Phase::Preprocessed);
    let map = analysis.get_equation_map().unwrap();
    assert_eq!(map.len(), 4);
    for i in 0..4 {
        assert_eq!(map.panel(i), i);
    }
    assert_eq!(analysis.get_mesh().unwrap().elements.len(), 4);
    let sweep = analysis.get_sweep().unwrap();
    assert_eq!(sweep.stage(), SweepStage::Idle);
    assert_eq!(sweep.frequencies(), &vec![num(10.0), num(20.0)]);
    assert!(analysis.get_fp_result().is_none());
}

#[test]
fn field_point_on_a_collocation_point_fails_the_preprocessing() {
    let mut analysis = Analysis::new();
    let field_points = vec![point(10.0, 0.0, 0.0), point(-1.0, 1.0, 1.0)];
    analysis.set_input(input(&[10.0], field_points));
    assert_eq!(
        analysis.preprocess(tetrahedron(), FailurePolicy::Skip),
        Err(ConfigurationError::CoincidentFieldPoint { field_point: 1, unknown: 2 })
    );
    assert_eq!(analysis.get_phase(), Phase::Configured);
    assert!(analysis.get_input().is_some());
    assert_eq!(analysis.run(SweepEvent::Continue), Err(ConfigurationError::NotPreprocessed));
}

#[test]
fn faulty_mesh_fails_the_preprocessing() {
    let mut analysis = Analysis::new();
    analysis.set_input(input(&[10.0], vec![point(10.0, 0.0, 0.0)]));
    let empty = Mesh { nodes: Vec::new(), elements: Vec::new() };
    assert_eq!(
        analysis.preprocess(empty, FailurePolicy::Skip),
        Err(ConfigurationError::EmptyMesh)
    );
    let mut dangling = tetrahedron();
    dangling.elements[2].nodes[1] = 4;
    assert_eq!(
        analysis.preprocess(dangling, FailurePolicy::Skip),
        Err(ConfigurationError::MissingNode { element: 2 })
    );
    let mut other_body = tetrahedron();
    for element in other_body.elements.iter_mut() {
        element.body_index = 1;
    }
    assert_eq!(
        analysis.preprocess(other_body, FailurePolicy::Skip),
        Err(ConfigurationError::EmptyBody { body_index: 3 })
    );
    assert_eq!(analysis.get_phase(), Phase::Configured);
    // the input still waits: a sound mesh is taken
    assert_eq!(analysis.preprocess(tetrahedron(), FailurePolicy::Skip), Ok(()));
}

#[test]
fn analysis_runs_through_its_frequencies() {
    let frequencies = [10.0, 500.0, 1000.0];
    let mut analysis = Analysis::new();
    analysis.set_input(input(&frequencies, vec![point(10.0, 0.0, 0.0), point(0.0, 10.0, 0.0)]));
    analysis.preprocess(tetrahedron(), FailurePolicy::Skip).unwrap();
    for (index, f) in frequencies.iter().enumerate() {
        let frequency = num(*f);
        assert_eq!(
            analysis.run(SweepEvent::Continue),
            Ok(SweepAction::Assemble { index, frequency })
        );
        assert_eq!(
            analysis.run(SweepEvent::Assembled { unconverged: 0 }),
            Ok(SweepAction::Solve { index, frequency })
        );
        assert_eq!(analysis.run(SweepEvent::Solved), Ok(SweepAction::Project { index, frequency }));
        assert_eq!(analysis.run(projected(*f, 2)), Ok(SweepAction::Proceed));
        assert_eq!(analysis.get_phase(), Phase::Preprocessed);
        assert_eq!(analysis.get_fp_result(), Some(vec![cplx(*f, 0.0), cplx(*f, 1.0)]));
    }
    assert_eq!(analysis.run(SweepEvent::Continue), Ok(SweepAction::Finish));
    assert_eq!(analysis.get_phase(), Phase::Solved);
    assert!(analysis.get_mesh().is_none());
    assert!(analysis.get_equation_map().is_none());
    let sweep = analysis.get_sweep().unwrap();
    assert!(sweep.is_complete());
    assert_eq!(sweep.results().len(), frequencies.len());
    for (k, result) in sweep.results().iter().enumerate() {
        assert_eq!(result.frequency, num(frequencies[k]));
    }
    assert_eq!(analysis.get_fp_result(), Some(vec![cplx(1000.0, 0.0), cplx(1000.0, 1.0)]));
    assert_eq!(analysis.get_input().unwrap().field_points.len(), 2);
}

#[test]
fn solved_analysis_stays_solved() {
    let mut analysis = Analysis::new();
    analysis.set_input(input(&[], vec![point(10.0, 0.0, 0.0)]));
    analysis.preprocess(tetrahedron(), FailurePolicy::Skip).unwrap();
    assert_eq!(analysis.run(SweepEvent::Continue), Ok(SweepAction::Finish));
    assert_eq!(analysis.get_phase(), Phase::Solved);
    assert_eq!(analysis.run(SweepEvent::Continue), Ok(SweepAction::Finish));
    assert_eq!(analysis.run(SweepEvent::Solved), Ok(SweepAction::Finish));
    assert_eq!(analysis.get_phase(), Phase::Solved);
    assert!(analysis.get_fp_result().is_none());
    // the input was used up
    assert_eq!(
        analysis.preprocess(tetrahedron(), FailurePolicy::Skip),
        Err(ConfigurationError::NoInput)
    );
    assert_eq!(analysis.get_phase(), Phase::Solved);
}

#[test]
fn singular_frequency_is_reported_with_its_frequency() {
    let mut analysis = Analysis::new();
    analysis.set_input(input(&[10.0, 20.0], vec![point(10.0, 0.0, 0.0)]));
    analysis.preprocess(tetrahedron(), FailurePolicy::Stop).unwrap();
    analysis.run(SweepEvent::Continue).unwrap();
    analysis.run(SweepEvent::Assembled { unconverged: 0 }).unwrap();
    assert_eq!(analysis.run(SweepEvent::Singular), Ok(SweepAction::Finish));
    assert_eq!(analysis.get_phase(), Phase::Solved);
    let sweep = analysis.get_sweep().unwrap();
    assert!(sweep.is_halted());
    assert_eq!(sweep.failures().len(), 1);
    assert_eq!(sweep.failures()[0].index, 0);
    assert_eq!(
        sweep.failures()[0].error,
        SolveError::SingularSystem(SingularSystemError { frequency: num(10.0) })
    );
    assert!(analysis.get_fp_result().is_none());
}

#[test]
fn new_input_starts_the_analysis_over() {
    let mut analysis = Analysis::new();
    analysis.set_input(input(&[10.0], vec![point(10.0, 0.0, 0.0)]));
    analysis.preprocess(tetrahedron(), FailurePolicy::Skip).unwrap();
    analysis.run(SweepEvent::Continue).unwrap();
    analysis.set_input(input(&[20.0], vec![point(10.0, 0.0, 0.0)]));
    assert_eq!(analysis.get_phase(), Phase::Configured);
    assert!(analysis.get_sweep().is_none());
    assert_eq!(analysis.get_input().unwrap().frequency, vec![num(20.0)]);
}
