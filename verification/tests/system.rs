use cc_abstemious::error::ConfigurationError;
use cc_abstemious::influence::MatrixShape;
use cc_abstemious::input_data::{BCType, ProblemType};
use cc_abstemious::system::{
    orientation, plan_projection, plan_system, Factor, ProjectionPlan, SystemPlan, Unknown,
};

fn square(n: usize) -> MatrixShape {
    MatrixShape { rows: n, cols: n }
}

fn plan(bc: BCType, problem: ProblemType) -> SystemPlan {
    plan_system(bc, problem, 4, square(4), square(4), 4).unwrap()
}

fn value_of(factor: Factor, z: i64) -> i64 {
    match factor {
        Factor::Zero => 0,
        Factor::One => 1,
        Factor::MinusOne => -1,
        Factor::Value => z,
    }
}

#[test]
fn velocity_condition_solves_for_the_potential() {
    let p = plan(BCType::NormalVelocity, ProblemType::Exterior);
    assert_eq!(
        p,
        SystemPlan {
            unknown: Unknown::Potential,
            matrix_h: Factor::One,
            matrix_g: Factor::Zero,
            rhs_h: Factor::Zero,
            rhs_g: Factor::Value,
            rhs_incident: Factor::One,
            phi_solution: Factor::One,
            phi_constant: Factor::Zero,
            vn_solution: Factor::Zero,
            vn_constant: Factor::Value,
        }
    );
}

#[test]
fn pressure_condition_solves_for_the_velocity() {
    let p = plan(BCType::Pressure, ProblemType::Exterior);
    assert_eq!(
        p,
        SystemPlan {
            unknown: Unknown::NormalVelocity,
            matrix_h: Factor::Zero,
            matrix_g: Factor::One,
            rhs_h: Factor::Value,
            rhs_g: Factor::Zero,
            rhs_incident: Factor::MinusOne,
            phi_solution: Factor::Zero,
            phi_constant: Factor::Value,
            vn_solution: Factor::One,
            vn_constant: Factor::Zero,
        }
    );
}

#[test]
fn impedance_condition_ties_potential_to_velocity() {
    let p = plan(BCType::Impedance, ProblemType::Exterior);
    assert_eq!(
        p,
        SystemPlan {
            unknown: Unknown::NormalVelocity,
            matrix_h: Factor::Value,
            matrix_g: Factor::MinusOne,
            rhs_h: Factor::Zero,
            rhs_g: Factor::Zero,
            rhs_incident: Factor::One,
            phi_solution: Factor::Value,
            phi_constant: Factor::Zero,
            vn_solution: Factor::One,
            vn_constant: Factor::Zero,
        }
    );
}

#[test]
fn interior_problem_leaves_the_incident_field_out() {
    for bc in [BCType::Pressure, BCType::NormalVelocity, BCType::Impedance] {
        let inner = plan(bc, ProblemType::Interior);
        let outer = plan(bc, ProblemType::Exterior);
        assert_eq!(inner.rhs_incident, Factor::Zero);
        assert_eq!(SystemPlan { rhs_incident: Factor::Zero, ..outer }, inner);
    }
}

// One unknown, whole numbers: h phi = g vn + e inc, with the condition.
#[test]
fn planned_system_solves_the_equation_on_whole_numbers() {
    let cases: [(BCType, ProblemType, i64, i64, i64, i64, i64); 6] = [
        // bc, problem, h, g, incident, z, x
        (BCType::NormalVelocity, ProblemType::Exterior, 3, 2, 5, 2, 3),
        (BCType::NormalVelocity, ProblemType::Interior, 3, 2, 5, 6, 4),
        (BCType::Pressure, ProblemType::Exterior, 4, 3, 2, 5, 6),
        (BCType::Pressure, ProblemType::Interior, 4, 2, 9, 3, 6),
        (BCType::Impedance, ProblemType::Exterior, 2, 3, 6, 3, 2),
        (BCType::Impedance, ProblemType::Interior, 2, 6, 7, 3, 0),
    ];
    for (bc, problem, h, g, incident, z, x) in cases {
        let p = plan(bc, problem);
        let a = value_of(p.matrix_h, z) * h + value_of(p.matrix_g, z) * g;
        let b = value_of(p.rhs_h, z) * h
            + value_of(p.rhs_g, z) * g
            + value_of(p.rhs_incident, z) * incident;
        assert_eq!(a * x, b, "the case is a solution of the planned system");
        let phi = value_of(p.phi_solution, z) * x + value_of(p.phi_constant, z);
        let vn = value_of(p.vn_solution, z) * x + value_of(p.vn_constant, z);
        let e = match problem {
            ProblemType::Exterior => 1,
            ProblemType::Interior => 0,
        };
        assert_eq!(h * phi, g * vn + e * incident);
        match bc {
            BCType::Pressure => assert_eq!(phi, z),
            BCType::NormalVelocity => assert_eq!(vn, z),
            BCType::Impedance => assert_eq!(phi, z * vn),
        }
    }
}

// One row over two unknowns, whole numbers.
#[test]
fn planned_row_solves_the_equation_on_whole_numbers() {
    let rows: [(BCType, [i64; 2], [i64; 2], i64, i64, [i64; 2]); 3] = [
        // bc, row of h, row of g, incident, z, x
        (BCType::NormalVelocity, [2, 1], [1, 3], 2, 2, [3, 4]),
        (BCType::Pressure, [2, 1], [1, 3], 4, 5, [2, 3]),
        (BCType::Impedance, [2, 1], [1, 3], 9, 2, [4, 3]),
    ];
    for (bc, h, g, incident, z, x) in rows {
        let p = plan(bc, ProblemType::Exterior);
        let mut ax = 0;
        for j in 0..2 {
            ax += (value_of(p.matrix_h, z) * h[j] + value_of(p.matrix_g, z) * g[j]) * x[j];
        }
        let b = value_of(p.rhs_h, z) * (h[0] + h[1])
            + value_of(p.rhs_g, z) * (g[0] + g[1])
            + value_of(p.rhs_incident, z) * incident;
        assert_eq!(ax, b, "the case is a solution of the planned row");
        let mut h_phi = 0;
        let mut g_vn = 0;
        for j in 0..2 {
            let phi = value_of(p.phi_solution, z) * x[j] + value_of(p.phi_constant, z);
            let vn = value_of(p.vn_solution, z) * x[j] + value_of(p.vn_constant, z);
            h_phi += h[j] * phi;
            g_vn += g[j] * vn;
            match bc {
                BCType::Pressure => assert_eq!(phi, z),
                BCType::NormalVelocity => assert_eq!(vn, z),
                BCType::Impedance => assert_eq!(phi, z * vn),
            }
        }
        assert_eq!(h_phi, g_vn + incident);
    }
}

#[test]
fn system_of_wrong_shape_is_rejected() {
    let bc = BCType::NormalVelocity;
    let problem = ProblemType::Exterior;
    let wide = MatrixShape { rows: 4, cols: 5 };
    let tall = MatrixShape { rows: 5, cols: 4 };
    assert_eq!(
        plan_system(bc, problem, 4, wide, square(4), 4),
        Err(ConfigurationError::ShapeMismatch)
    );
    assert_eq!(
        plan_system(bc, problem, 4, tall, square(4), 4),
        Err(ConfigurationError::ShapeMismatch)
    );
    assert_eq!(
        plan_system(bc, problem, 4, square(4), wide, 4),
        Err(ConfigurationError::ShapeMismatch)
    );
    assert_eq!(
        plan_system(bc, problem, 4, square(4), tall, 4),
        Err(ConfigurationError::ShapeMismatch)
    );
    assert_eq!(
        plan_system(bc, problem, 4, square(4), square(4), 3),
        Err(ConfigurationError::ShapeMismatch)
    );
    assert_eq!(
        plan_system(bc, problem, 5, square(4), square(4), 4),
        Err(ConfigurationError::ShapeMismatch)
    );
    assert!(plan_system(bc, problem, 0, square(0), square(0), 0).is_ok());
}

#[test]
fn projection_adds_the_incident_field_outside_only() {
    let field = MatrixShape { rows: 2, cols: 4 };
    assert_eq!(
        plan_projection(ProblemType::Exterior, 4, 2, field, field, 4, 4, 2),
        Ok(ProjectionPlan {
            potential: Factor::One,
            normal_velocity: Factor::MinusOne,
            incident: Factor::One
        })
    );
    assert_eq!(
        plan_projection(ProblemType::Interior, 4, 2, field, field, 4, 4, 2),
        Ok(ProjectionPlan {
            potential: Factor::One,
            normal_velocity: Factor::MinusOne,
            incident: Factor::Zero
        })
    );
}

#[test]
fn projection_shapes_are_checked() {
    let field = MatrixShape { rows: 2, cols: 4 };
    let problem = ProblemType::Exterior;
    let bad = Err(ConfigurationError::ShapeMismatch);
    assert_eq!(plan_projection(problem, 4, 2, square(4), field, 4, 4, 2), bad);
    assert_eq!(plan_projection(problem, 4, 2, field, square(2), 4, 4, 2), bad);
    assert_eq!(plan_projection(problem, 4, 2, field, field, 3, 4, 2), bad);
    assert_eq!(plan_projection(problem, 4, 2, field, field, 4, 5, 2), bad);
    assert_eq!(plan_projection(problem, 4, 2, field, field, 4, 4, 4), bad);
    assert_eq!(plan_projection(problem, 4, 3, field, field, 4, 4, 2), bad);
}

#[test]
fn layer_integrals_turn_their_sign_inside() {
    assert_eq!(orientation(ProblemType::Exterior), Factor::One);
    assert_eq!(orientation(ProblemType::Interior), Factor::MinusOne);
}
