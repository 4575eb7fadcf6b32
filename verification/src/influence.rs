//! What the assembly of the influence matrices decides before any kernel is
//! integrated: the rule for each pair of panels, the shapes of the matrices,
//! and that no field point lies on the surface.

use crate::equation_map::EquationMap;
use crate::error::ConfigurationError;
use crate::mesh::{lemma_touches_symmetric, Mesh, Surface};
use crate::scalar::Point;
use vstd::prelude::*;

verus! {

/// How the kernels are integrated over a source panel, seen from a
/// collocation point.
#[derive(Clone, Copy, Debug, PartialEq, Eq, Structural)]
pub enum PairKind {
    /// The collocation point lies on the source panel: the closed form of the
    /// singular integral, and the free term on the diagonal.
    SelfTerm,
    /// The collocation panel and the source panel have a node in common:
    /// subdivided quadrature.
    NearSingular,
    /// Plain quadrature.
    Regular,
}

/// Rows and columns of a dense matrix.
#[derive(Clone, Copy, Debug, PartialEq, Eq, Structural)]
pub struct MatrixShape {
    pub rows: usize,
    pub cols: usize,
}

/// The rule for unknown `i` as collocation point and unknown `j` as source,
/// where `panels` gives each unknown its panel.
pub open spec fn pair_kind(surface: Surface, panels: Seq<usize>, i: int, j: int) -> PairKind {
    if i == j {
        PairKind::SelfTerm
    } else if surface.panels[panels[i] as int].touches(surface.panels[panels[j] as int]) {
        PairKind::NearSingular
    } else {
        PairKind::Regular
    }
}

/// Point `p` lies on one of the collocation points.
pub open spec fn on_surface(collocation: Seq<Point>, p: Point) -> bool {
    exists|i: int| 0 <= i < collocation.len() && p.coincides(#[trigger] collocation[i])
}

/// No field point lies on a collocation point.
pub open spec fn clear_of_surface(collocation: Seq<Point>, field_points: Seq<Point>) -> bool {
    forall|p: int|
        0 <= p < field_points.len() ==> !on_surface(collocation, #[trigger] field_points[p])
}

/// The rule by which the entries `(i, j)` of the surface matrices are
/// integrated.
pub fn classify_pair(mesh: &Mesh, map: &EquationMap, i: usize, j: usize) -> (kind: PairKind)
    requires
        map.wf(),
        map.lookup().len() == mesh@.panels.len(),
        i < map@.len(),
        j < map@.len(),
    ensures
        kind == pair_kind(mesh@, map@, i as int, j as int),
{
    if i == j {
        return PairKind::SelfTerm;
    }
    let a = map.panel(i);
    let b = map.panel(j);
    assert(map@[i as int] < map.lookup().len());
    assert(map@[j as int] < map.lookup().len());
    if mesh.elements[a].shares_node(&mesh.elements[b]) {
        PairKind::NearSingular
    } else {
        PairKind::Regular
    }
}

/// The shape of the two surface matrices: square over the unknowns.
pub fn surface_shape(map: &EquationMap) -> (shape: MatrixShape)
    ensures
        shape.rows == map@.len(),
        shape.cols == map@.len(),
{
    MatrixShape { rows: map.len(), cols: map.len() }
}

/// The shape of the two field matrices: a row for each field point, a column
/// for each unknown.
pub fn field_shape(map: &EquationMap, field_points: &Vec<Point>) -> (shape: MatrixShape)
    ensures
        shape.rows == field_points@.len(),
        shape.cols == map@.len(),
{
    MatrixShape { rows: field_points.len(), cols: map.len() }
}

/// Looks for a field point that lies on a collocation point, and reports the
/// first such field point with the first unknown it lies on.
pub fn check_field_points(collocation: &Vec<Point>, field_points: &Vec<Point>) -> (r: Result<
    (),
    ConfigurationError,
>)
    ensures
        match r {
            Ok(()) => clear_of_surface(collocation@, field_points@),
            Err(ConfigurationError::CoincidentFieldPoint { field_point, unknown }) => {
                &&& field_point < field_points@.len()
                &&& unknown < collocation@.len()
                &&& field_points@[field_point as int].coincides(collocation@[unknown as int])
                &&& forall|p: int|
                    0 <= p < field_point ==> !on_surface(collocation@, #[trigger] field_points@[p])
                &&& forall|i: int|
                    0 <= i < unknown ==> !field_points@[field_point as int].coincides(
                        #[trigger] collocation@[i],
                    )
            },
            Err(_) => false,
        },
{
    let mut p: usize = 0;
    while p < field_points.len()
        invariant
            p <= field_points.len(),
            forall|q: int| 0 <= q < p ==> !on_surface(collocation@, #[trigger] field_points@[q]),
        decreases field_points.len() - p,
    {
        let point = field_points[p];
        let mut i: usize = 0;
        while i < collocation.len()
            invariant
                i <= collocation.len(),
                p < field_points.len(),
                point == field_points@[p as int],
                forall|q: int|
                    0 <= q < p ==> !on_surface(collocation@, #[trigger] field_points@[q]),
                forall|k: int| 0 <= k < i ==> !point.coincides(#[trigger] collocation@[k]),
            decreases collocation.len() - i,
        {
            if point.coincides_with(collocation[i]) {
                return Err(ConfigurationError::CoincidentFieldPoint { field_point: p, unknown: i });
            }
            i += 1;
        }
        p += 1;
    }
    Ok(())
}

/// The rule for a pair does not depend on which of the two is the source.
pub proof fn lemma_pair_kind_symmetric(surface: Surface, panels: Seq<usize>, i: int, j: int)
    ensures
        pair_kind(surface, panels, i, j) == pair_kind(surface, panels, j, i),
{
    lemma_touches_symmetric(surface.panels[panels[i] as int], surface.panels[panels[j] as int]);
}

/// A field point whose coordinates are numbers, put on a collocation point,
/// is not clear of the surface.
pub proof fn lemma_point_on_collocation_point(
    collocation: Seq<Point>,
    field_points: Seq<Point>,
    p: int,
    i: int,
)
    requires
        0 <= p < field_points.len(),
        0 <= i < collocation.len(),
        field_points[p] == collocation[i],
        field_points[p].defined(),
    ensures
        !clear_of_surface(collocation, field_points),
{
    assert(field_points[p].coincides(collocation[i]));
    assert(on_surface(collocation, field_points[p]));
}

} // verus!
