//! How a boundary condition turns the boundary integral equation
//! `H phi = G vn + e phi_inc` into one linear system `A x = b`, and how the
//! surface potential `phi` and the normal velocity `vn` are read off `x`.
//!
//! `e` is one for an exterior problem, where the incident field drives the
//! surface, and zero for an interior one.

use crate::error::ConfigurationError;
use crate::influence::MatrixShape;
use crate::input_data::{BCType, ProblemType};
use vstd::prelude::*;

verus! {

/// The surface quantity that the system is solved for.
#[derive(Clone, Copy, Debug, PartialEq, Eq, Structural)]
pub enum Unknown {
    Potential,
    NormalVelocity,
}

/// A coefficient of the plan. `Value` is the value of the boundary condition.
#[derive(Clone, Copy, Debug, PartialEq, Eq, Structural)]
pub enum Factor {
    Zero,
    One,
    MinusOne,
    Value,
}

impl Factor {
    /// The coefficient as a number, where the boundary condition's value is
    /// `z`.
    pub open spec fn of(self, z: int) -> int {
        match self {
            Factor::Zero => 0,
            Factor::One => 1,
            Factor::MinusOne => -1,
            Factor::Value => z,
        }
    }
}

/// The linear system of one boundary condition, as coefficients.
///
/// Entry `(i, j)` of `A` is `matrix_h * H[i][j] + matrix_g * G[i][j]`. Entry
/// `i` of `b` is `rhs_h` times the sum of row `i` of `H`, plus `rhs_g` times
/// the sum of row `i` of `G`, plus `rhs_incident * phi_inc[i]`. From the
/// solution, `phi[j] = phi_solution * x[j] + phi_constant` and
/// `vn[j] = vn_solution * x[j] + vn_constant`.
#[derive(Clone, Copy, Debug, PartialEq, Eq, Structural)]
pub struct SystemPlan {
    pub unknown: Unknown,
    pub matrix_h: Factor,
    pub matrix_g: Factor,
    pub rhs_h: Factor,
    pub rhs_g: Factor,
    pub rhs_incident: Factor,
    pub phi_solution: Factor,
    pub phi_constant: Factor,
    pub vn_solution: Factor,
    pub vn_constant: Factor,
}

impl SystemPlan {
    /// An entry of `A`, from the entries `h` and `g` of the two matrices.
    pub open spec fn matrix_entry(self, h: int, g: int, z: int) -> int {
        self.matrix_h.of(z) * h + self.matrix_g.of(z) * g
    }

    /// An entry of `b`, from the sums of the rows of the two matrices and the
    /// incident potential.
    pub open spec fn rhs_entry(self, h_sum: int, g_sum: int, incident: int, z: int) -> int {
        self.rhs_h.of(z) * h_sum + self.rhs_g.of(z) * g_sum + self.rhs_incident.of(z) * incident
    }

    /// The surface potential at an unknown, from the solution there.
    pub open spec fn potential(self, x: int, z: int) -> int {
        self.phi_solution.of(z) * x + self.phi_constant.of(z)
    }

    /// The normal velocity at an unknown, from the solution there.
    pub open spec fn normal_velocity(self, x: int, z: int) -> int {
        self.vn_solution.of(z) * x + self.vn_constant.of(z)
    }
}

/// The weight of the incident potential in the boundary integral equation.
pub open spec fn incident_weight(problem: ProblemType) -> int {
    match problem {
        ProblemType::Exterior => 1,
        ProblemType::Interior => 0,
    }
}

/// The incident potential as a coefficient, with the sign given.
pub open spec fn incident_factor(problem: ProblemType, negative: bool) -> Factor {
    match problem {
        ProblemType::Interior => Factor::Zero,
        ProblemType::Exterior => if negative {
            Factor::MinusOne
        } else {
            Factor::One
        },
    }
}

/// The plan for a boundary condition and a problem type.
///
/// A pressure condition fixes `phi`: `G vn = H phi - e phi_inc`. A velocity
/// condition fixes `vn`: `H phi = G vn + e phi_inc`. An impedance ties them,
/// `phi = Z vn`: `(Z H - G) vn = e phi_inc`.
pub open spec fn system_plan(bc: BCType, problem: ProblemType) -> SystemPlan {
    match bc {
        BCType::Pressure => SystemPlan {
            unknown: Unknown::NormalVelocity,
            matrix_h: Factor::Zero,
            matrix_g: Factor::One,
            rhs_h: Factor::Value,
            rhs_g: Factor::Zero,
            rhs_incident: incident_factor(problem, true),
            phi_solution: Factor::Zero,
            phi_constant: Factor::Value,
            vn_solution: Factor::One,
            vn_constant: Factor::Zero,
        },
        BCType::NormalVelocity => SystemPlan {
            unknown: Unknown::Potential,
            matrix_h: Factor::One,
            matrix_g: Factor::Zero,
            rhs_h: Factor::Zero,
            rhs_g: Factor::Value,
            rhs_incident: incident_factor(problem, false),
            phi_solution: Factor::One,
            phi_constant: Factor::Zero,
            vn_solution: Factor::Zero,
            vn_constant: Factor::Value,
        },
        BCType::Impedance => SystemPlan {
            unknown: Unknown::NormalVelocity,
            matrix_h: Factor::Value,
            matrix_g: Factor::MinusOne,
            rhs_h: Factor::Zero,
            rhs_g: Factor::Zero,
            rhs_incident: incident_factor(problem, false),
            phi_solution: Factor::Value,
            phi_constant: Factor::Zero,
            vn_solution: Factor::One,
            vn_constant: Factor::Zero,
        },
    }
}

/// The projection onto the field points, as coefficients: entry `p` of the
/// potential there is `potential` times row `p` of `M` applied to `phi`, plus
/// `normal_velocity` times row `p` of `L` applied to `vn`, plus `incident`
/// times the incident potential at the field point.
#[derive(Clone, Copy, Debug, PartialEq, Eq, Structural)]
pub struct ProjectionPlan {
    pub potential: Factor,
    pub normal_velocity: Factor,
    pub incident: Factor,
}

/// The projection for a problem type: `phi_fp = M phi - L vn + e phi_inc`.
pub open spec fn projection_plan(problem: ProblemType) -> ProjectionPlan {
    ProjectionPlan {
        potential: Factor::One,
        normal_velocity: Factor::MinusOne,
        incident: incident_factor(problem, false),
    }
}

/// The sign with which the layer integrals enter the matrices. With `D` the
/// integral of the kernel's normal derivative over a panel, `S` that of the
/// kernel, and `s` this sign: `H = I/2 - s D` and `G = -s S` over the
/// surface, `M = s D` and `L = s S` at the field points. The normals point
/// out of the body; for an interior problem that is out of the medium, and
/// the sign turns.
pub open spec fn layer_sign(problem: ProblemType) -> Factor {
    match problem {
        ProblemType::Exterior => Factor::One,
        ProblemType::Interior => Factor::MinusOne,
    }
}

/// The sum of the first `n` entries of `row`.
pub open spec fn row_sum(row: Seq<int>, n: nat) -> int
    decreases n,
{
    if n == 0 {
        0
    } else {
        row_sum(row, (n - 1) as nat) + row[n - 1]
    }
}

/// The first `n` entries of `row` applied to those of `x`.
pub open spec fn row_times(row: Seq<int>, x: Seq<int>, n: nat) -> int
    decreases n,
{
    if n == 0 {
        0
    } else {
        row_times(row, x, (n - 1) as nat) + row[n - 1] * x[n - 1]
    }
}

impl SystemPlan {
    /// A row of `A`, from the rows of the two matrices.
    pub open spec fn matrix_row(self, h: Seq<int>, g: Seq<int>, z: int) -> Seq<int> {
        Seq::new(h.len(), |j: int| self.matrix_entry(h[j], g[j], z))
    }

    /// The surface potential, from the solution.
    pub open spec fn potentials(self, x: Seq<int>, z: int) -> Seq<int> {
        Seq::new(x.len(), |j: int| self.potential(x[j], z))
    }

    /// The normal velocity, from the solution.
    pub open spec fn normal_velocities(self, x: Seq<int>, z: int) -> Seq<int> {
        Seq::new(x.len(), |j: int| self.normal_velocity(x[j], z))
    }
}

/// The boundary condition with value `z` holds of `phi` and `vn`.
pub open spec fn condition_holds(bc: BCType, z: int, phi: int, vn: int) -> bool {
    match bc {
        BCType::Pressure => phi == z,
        BCType::NormalVelocity => vn == z,
        BCType::Impedance => phi == z * vn,
    }
}

/// Both surface matrices are square over the unknowns, and the incident
/// potential has an entry for each unknown.
pub open spec fn system_fits(
    unknowns: usize,
    h: MatrixShape,
    g: MatrixShape,
    incident: usize,
) -> bool {
    &&& h.rows == unknowns
    &&& h.cols == unknowns
    &&& g.rows == unknowns
    &&& g.cols == unknowns
    &&& incident == unknowns
}

/// Both field matrices have a row for each field point and a column for each
/// unknown, and the surface solution and the incident potential at the field
/// points have the matching lengths.
pub open spec fn projection_fits(
    unknowns: usize,
    field_points: usize,
    m: MatrixShape,
    l: MatrixShape,
    phi: usize,
    vn: usize,
    incident: usize,
) -> bool {
    &&& m.rows == field_points
    &&& m.cols == unknowns
    &&& l.rows == field_points
    &&& l.cols == unknowns
    &&& phi == unknowns
    &&& vn == unknowns
    &&& incident == field_points
}

/// The incident potential as a coefficient, with the sign given.
fn incident_term(problem: ProblemType, negative: bool) -> (f: Factor)
    ensures
        f == incident_factor(problem, negative),
{
    match problem {
        ProblemType::Interior => Factor::Zero,
        ProblemType::Exterior => if negative {
            Factor::MinusOne
        } else {
            Factor::One
        },
    }
}

/// Plans the linear system for `unknowns` unknowns from the shapes of `H` and
/// `G` and the length of the incident potential. Fails where these do not
/// fit.
pub fn plan_system(
    bc: BCType,
    problem: ProblemType,
    unknowns: usize,
    h: MatrixShape,
    g: MatrixShape,
    incident: usize,
) -> (r: Result<SystemPlan, ConfigurationError>)
    ensures
        r == if system_fits(unknowns, h, g, incident) {
            Ok::<SystemPlan, ConfigurationError>(system_plan(bc, problem))
        } else {
            Err::<SystemPlan, ConfigurationError>(ConfigurationError::ShapeMismatch)
        },
{
    if h.rows != unknowns || h.cols != unknowns || g.rows != unknowns || g.cols != unknowns
        || incident != unknowns {
        return Err(ConfigurationError::ShapeMismatch);
    }
    let plan = match bc {
        BCType::Pressure => SystemPlan {
            unknown: Unknown::NormalVelocity,
            matrix_h: Factor::Zero,
            matrix_g: Factor::One,
            rhs_h: Factor::Value,
            rhs_g: Factor::Zero,
            rhs_incident: incident_term(problem, true),
            phi_solution: Factor::Zero,
            phi_constant: Factor::Value,
            vn_solution: Factor::One,
            vn_constant: Factor::Zero,
        },
        BCType::NormalVelocity => SystemPlan {
            unknown: Unknown::Potential,
            matrix_h: Factor::One,
            matrix_g: Factor::Zero,
            rhs_h: Factor::Zero,
            rhs_g: Factor::Value,
            rhs_incident: incident_term(problem, false),
            phi_solution: Factor::One,
            phi_constant: Factor::Zero,
            vn_solution: Factor::Zero,
            vn_constant: Factor::Value,
        },
        BCType::Impedance => SystemPlan {
            unknown: Unknown::NormalVelocity,
            matrix_h: Factor::Value,
            matrix_g: Factor::MinusOne,
            rhs_h: Factor::Zero,
            rhs_g: Factor::Zero,
            rhs_incident: incident_term(problem, false),
            phi_solution: Factor::Value,
            phi_constant: Factor::Zero,
            vn_solution: Factor::One,
            vn_constant: Factor::Zero,
        },
    };
    Ok(plan)
}

/// Plans the projection onto the field points from the shapes of `M` and
/// `L`, the lengths of `phi` and `vn`, and the length of the incident
/// potential at the field points. Fails where these do not fit.
pub fn plan_projection(
    problem: ProblemType,
    unknowns: usize,
    field_points: usize,
    m: MatrixShape,
    l: MatrixShape,
    phi: usize,
    vn: usize,
    incident: usize,
) -> (r: Result<ProjectionPlan, ConfigurationError>)
    ensures
        r == if projection_fits(unknowns, field_points, m, l, phi, vn, incident) {
            Ok::<ProjectionPlan, ConfigurationError>(projection_plan(problem))
        } else {
            Err::<ProjectionPlan, ConfigurationError>(ConfigurationError::ShapeMismatch)
        },
{
    if m.rows == field_points && m.cols == unknowns && l.rows == field_points && l.cols
        == unknowns && phi == unknowns && vn == unknowns && incident == field_points {
        Ok(
            ProjectionPlan {
                potential: Factor::One,
                normal_velocity: Factor::MinusOne,
                incident: incident_term(problem, false),
            },
        )
    } else {
        Err(ConfigurationError::ShapeMismatch)
    }
}

/// The sign of the layer integrals for a problem type.
pub fn orientation(problem: ProblemType) -> (sign: Factor)
    ensures
        sign == layer_sign(problem),
{
    match problem {
        ProblemType::Exterior => Factor::One,
        ProblemType::Interior => Factor::MinusOne,
    }
}

/// A row applied to `c x + d` is `c` times the row applied to `x`, plus `d`
/// times the sum of the row.
proof fn lemma_row_times_affine(row: Seq<int>, x: Seq<int>, y: Seq<int>, c: int, d: int, n: nat)
    requires
        n <= x.len(),
        x.len() == y.len(),
        forall|j: int| 0 <= j < x.len() ==> #[trigger] y[j] == c * x[j] + d,
    ensures
        row_times(row, y, n) == c * row_times(row, x, n) + d * row_sum(row, n),
    decreases n,
{
    if n > 0 {
        let m = (n - 1) as nat;
        lemma_row_times_affine(row, x, y, c, d, m);
        let r = row[n - 1];
        let xv = x[n - 1];
        let yv = y[n - 1];
        let a = row_times(row, x, m);
        let b = row_sum(row, m);
        assert(yv == c * xv + d);
        assert(c * a + d * b + r * yv == c * (a + r * xv) + d * (b + r)) by (nonlinear_arith)
            requires
                yv == c * xv + d,
        ;
    }
}

/// The row `p h + q g` applied to `x` is `p` times `h` applied to `x`, plus
/// `q` times `g` applied to `x`.
proof fn lemma_row_times_combined(
    h: Seq<int>,
    g: Seq<int>,
    a: Seq<int>,
    x: Seq<int>,
    p: int,
    q: int,
    n: nat,
)
    requires
        n <= a.len(),
        forall|j: int| 0 <= j < a.len() ==> #[trigger] a[j] == p * h[j] + q * g[j],
    ensures
        row_times(a, x, n) == p * row_times(h, x, n) + q * row_times(g, x, n),
    decreases n,
{
    if n > 0 {
        let m = (n - 1) as nat;
        lemma_row_times_combined(h, g, a, x, p, q, m);
        let av = a[n - 1];
        let hv = h[n - 1];
        let gv = g[n - 1];
        let xv = x[n - 1];
        let hx = row_times(h, x, m);
        let gx = row_times(g, x, m);
        assert(av == p * hv + q * gv);
        assert(p * hx + q * gx + av * xv == p * (hx + hv * xv) + q * (gx + gv * xv))
            by (nonlinear_arith)
            requires
                av == p * hv + q * gv,
        ;
    }
}

/// For one row of the matrices, in exact arithmetic: where `x` satisfies the
/// row of the planned system, the potential and the normal velocity read off
/// `x` satisfy the row of the boundary integral equation,
/// `h phi = g vn + e phi_inc`, and the boundary condition at every unknown.
pub proof fn lemma_plan_solves_row(
    bc: BCType,
    problem: ProblemType,
    h: Seq<int>,
    g: Seq<int>,
    incident: int,
    z: int,
    x: Seq<int>,
)
    requires
        h.len() == x.len(),
        g.len() == x.len(),
        row_times(system_plan(bc, problem).matrix_row(h, g, z), x, x.len()) == system_plan(
            bc,
            problem,
        ).rhs_entry(row_sum(h, x.len()), row_sum(g, x.len()), incident, z),
    ensures
        row_times(h, system_plan(bc, problem).potentials(x, z), x.len()) == row_times(
            g,
            system_plan(bc, problem).normal_velocities(x, z),
            x.len(),
        ) + incident_weight(problem) * incident,
        forall|j: int|
            0 <= j < x.len() ==> condition_holds(
                bc,
                z,
                #[trigger] system_plan(bc, problem).potentials(x, z)[j],
                system_plan(bc, problem).normal_velocities(x, z)[j],
            ),
{
    let plan = system_plan(bc, problem);
    let n = x.len();
    let e = incident_weight(problem);
    let mh = plan.matrix_h.of(z);
    let mg = plan.matrix_g.of(z);
    let rh = plan.rhs_h.of(z);
    let rg = plan.rhs_g.of(z);
    let ri = plan.rhs_incident.of(z);
    let ps = plan.phi_solution.of(z);
    let pc = plan.phi_constant.of(z);
    let vs = plan.vn_solution.of(z);
    let vc = plan.vn_constant.of(z);
    let phi = plan.potentials(x, z);
    let vn = plan.normal_velocities(x, z);
    lemma_row_times_combined(h, g, plan.matrix_row(h, g, z), x, mh, mg, n);
    lemma_row_times_affine(h, x, phi, ps, pc, n);
    lemma_row_times_affine(g, x, vn, vs, vc, n);
    let hx = row_times(h, x, n);
    let gx = row_times(g, x, n);
    let hs = row_sum(h, n);
    let gs = row_sum(g, n);
    let lhs = row_times(h, phi, n);
    let rhs = row_times(g, vn, n);
    match bc {
        BCType::Pressure => {
            assert(lhs == rhs + e * incident) by (nonlinear_arith)
                requires
                    mh * hx + mg * gx == rh * hs + rg * gs + ri * incident,
                    lhs == ps * hx + pc * hs,
                    rhs == vs * gx + vc * gs,
                    mh == 0 && mg == 1 && rh == z && rg == 0 && ri == -e,
                    ps == 0 && pc == z && vs == 1 && vc == 0,
            ;
        },
        BCType::NormalVelocity => {
            assert(lhs == rhs + e * incident) by (nonlinear_arith)
                requires
                    mh * hx + mg * gx == rh * hs + rg * gs + ri * incident,
                    lhs == ps * hx + pc * hs,
                    rhs == vs * gx + vc * gs,
                    mh == 1 && mg == 0 && rh == 0 && rg == z && ri == e,
                    ps == 1 && pc == 0 && vs == 0 && vc == z,
            ;
        },
        BCType::Impedance => {
            assert(lhs == rhs + e * incident) by (nonlinear_arith)
                requires
                    mh * hx + mg * gx == rh * hs + rg * gs + ri * incident,
                    lhs == ps * hx + pc * hs,
                    rhs == vs * gx + vc * gs,
                    mh == z && mg == -1 && rh == 0 && rg == 0 && ri == e,
                    ps == z && pc == 0 && vs == 1 && vc == 0,
            ;
        },
    }
    assert forall|j: int| 0 <= j < x.len() implies condition_holds(
        bc,
        z,
        #[trigger] phi[j],
        vn[j],
    ) by {
        let xv = x[j];
        match bc {
            BCType::Pressure => {
                assert(phi[j] == z) by (nonlinear_arith)
                    requires
                        phi[j] == ps * xv + pc,
                        ps == 0 && pc == z,
                ;
            },
            BCType::NormalVelocity => {
                assert(vn[j] == z) by (nonlinear_arith)
                    requires
                        vn[j] == vs * xv + vc,
                        vs == 0 && vc == z,
                ;
            },
            BCType::Impedance => {
                assert(phi[j] == z * vn[j]) by (nonlinear_arith)
                    requires
                        phi[j] == ps * xv + pc,
                        vn[j] == vs * xv + vc,
                        ps == z && pc == 0 && vs == 1 && vc == 0,
                ;
            },
        }
    }
}

} // verus!
