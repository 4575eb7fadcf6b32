//! The unknowns of the discretised problem: one for each panel of the body
//! that is solved for, in the order of the mesh.

use crate::error::ConfigurationError;
use crate::mesh::{Mesh, Surface};
use crate::scalar::Point;
use vstd::prelude::*;

verus! {

/// `panels` lists the panels of `body` on `surface`, each once, in rising
/// order.
pub open spec fn enumerates(panels: Seq<usize>, surface: Surface, body: usize) -> bool {
    &&& forall|i: int, j: int| 0 <= i < j < panels.len() ==> panels[i] < panels[j]
    &&& forall|i: int| 0 <= i < panels.len() ==> surface.active(body, #[trigger] panels[i] as int)
    &&& forall|j: int| #[trigger]
        surface.active(body, j) ==> exists|i: int| 0 <= i < panels.len() && panels[i] == j
}

/// The centroids of `panels` on `surface`, in their order.
pub open spec fn centroids(surface: Surface, panels: Seq<usize>) -> Seq<Point> {
    Seq::new(panels.len(), |i: int| surface.panels[panels[i] as int].centroid)
}

/// The one-to-one map between unknowns `0..N` and the panels they belong to.
#[derive(Debug)]
pub struct EquationMap {
    panels: Vec<usize>,
    equations: Vec<Option<usize>>,
}

impl View for EquationMap {
    type V = Seq<usize>;

    /// For each unknown, its panel.
    closed spec fn view(&self) -> Seq<usize> {
        self.panels@
    }
}

impl EquationMap {
    /// For each panel of the mesh, its unknown, if it has one.
    pub closed spec fn lookup(&self) -> Seq<Option<usize>> {
        self.equations@
    }

    /// Unknowns rise with their panels, and the two directions of the map
    /// agree.
    pub open spec fn wf(&self) -> bool {
        &&& forall|i: int, j: int| 0 <= i < j < self@.len() ==> self@[i] < self@[j]
        &&& forall|i: int|
            0 <= i < self@.len() ==> (#[trigger] self@[i]) < self.lookup().len()
                && self.lookup()[self@[i] as int] == Some(i as usize)
        &&& forall|j: int|
            0 <= j < self.lookup().len() ==> match #[trigger] self.lookup()[j] {
                Some(i) => i < self@.len() && self@[i as int] == j,
                None => true,
            }
    }

    /// The map is that of `body` on `surface`.
    pub open spec fn maps(&self, surface: Surface, body: usize) -> bool {
        &&& self.wf()
        &&& self.lookup().len() == surface.panels.len()
        &&& enumerates(self@, surface, body)
    }

    /// The collocation points: for each unknown the centroid of its panel.
    pub open spec fn collocation(&self, surface: Surface) -> Seq<Point> {
        centroids(surface, self@)
    }

    /// The number of unknowns.
    pub fn len(&self) -> (n: usize)
        ensures
            n == self@.len(),
    {
        self.panels.len()
    }

    /// The number of panels of the mesh that the map was built on.
    pub fn panel_count(&self) -> (n: usize)
        ensures
            n == self.lookup().len(),
    {
        self.equations.len()
    }

    /// The panel of unknown `i`.
    pub fn panel(&self, i: usize) -> (j: usize)
        requires
            i < self@.len(),
        ensures
            j == self@[i as int],
    {
        self.panels[i]
    }

    /// The unknown of panel `j`: none where the panel is of another body, or
    /// no panel of the mesh.
    pub fn equation_of(&self, j: usize) -> (r: Option<usize>)
        ensures
            r == if j < self.lookup().len() {
                self.lookup()[j as int]
            } else {
                None
            },
    {
        if j < self.equations.len() {
            self.equations[j]
        } else {
            None
        }
    }

    /// The collocation points on `mesh`, in the order of the unknowns.
    pub fn collocation_points(&self, mesh: &Mesh) -> (points: Vec<Point>)
        requires
            self.wf(),
            self.lookup().len() == mesh@.panels.len(),
        ensures
            points@ == self.collocation(mesh@),
    {
        let mut points: Vec<Point> = Vec::new();
        let mut i: usize = 0;
        while i < self.panels.len()
            invariant
                i <= self.panels.len(),
                self.wf(),
                self.lookup().len() == mesh@.panels.len(),
                points@.len() == i,
                forall|k: int|
                    0 <= k < i ==> points@[k] == mesh@.panels[self@[k] as int].centroid,
            decreases self.panels.len() - i,
        {
            let j = self.panels[i];
            assert(self@[i as int] < self.lookup().len());
            points.push(mesh.elements[j].centroid);
            i += 1;
        }
        assert(points@ =~= self.collocation(mesh@));
        points
    }
}

/// Builds the equation map of the body `body_index` on `mesh`.
///
/// Fails on a mesh without elements, then on the first element that names a
/// node the mesh lacks, then on a body without elements.
pub fn build_equation_map(mesh: &Mesh, body_index: usize) -> (r: Result<
    EquationMap,
    ConfigurationError,
>)
    ensures
        match r {
            Ok(map) => mesh@.sound() && mesh@.has_body(body_index) && map.maps(mesh@, body_index),
            Err(ConfigurationError::EmptyMesh) => mesh@.panels.len() == 0,
            Err(ConfigurationError::MissingNode { element }) => mesh@.dangling(element as int)
                && forall|j: int| 0 <= j < element ==> !mesh@.dangling(j),
            Err(ConfigurationError::EmptyBody { body_index: body }) => body == body_index
                && mesh@.sound() && !mesh@.has_body(body_index),
            Err(_) => false,
        },
{
    let n = mesh.elements.len();
    if n == 0 {
        return Err(ConfigurationError::EmptyMesh);
    }
    let mut panels: Vec<usize> = Vec::new();
    let mut equations: Vec<Option<usize>> = Vec::new();
    let mut j: usize = 0;
    while j < n
        invariant
            j <= n,
            n == mesh.elements.len(),
            n == mesh@.panels.len(),
            equations@.len() == j,
            forall|e: int| 0 <= e < j ==> !mesh@.dangling(e),
            forall|a: int, b: int| 0 <= a < b < panels@.len() ==> panels@[a] < panels@[b],
            forall|i: int|
                0 <= i < panels@.len() ==> {
                    &&& (#[trigger] panels@[i]) < j
                    &&& equations@[panels@[i] as int] == Some(i as usize)
                    &&& mesh@.active(body_index, panels@[i] as int)
                },
            forall|e: int|
                0 <= e < j ==> match #[trigger] equations@[e] {
                    Some(i) => i < panels@.len() && panels@[i as int] == e,
                    None => true,
                },
            forall|e: int|
                0 <= e < j && mesh@.active(body_index, e) ==> (#[trigger] equations@[e]) is Some,
        decreases n - j,
    {
        let element = &mesh.elements[j];
        assert(mesh@.panels[j as int] == element@);
        if !element.refers_within(mesh.nodes.len()) {
            assert(mesh@.dangling(j as int));
            return Err(ConfigurationError::MissingNode { element: j });
        }
        if element.body_index == body_index {
            equations.push(Some(panels.len()));
            panels.push(j);
        } else {
            equations.push(None);
        }
        j += 1;
    }
    if panels.len() == 0 {
        assert(!mesh@.has_body(body_index)) by {
            if mesh@.has_body(body_index) {
                let e = choose|e: int| mesh@.active(body_index, e);
                assert(equations@[e] is Some);
            }
        }
        assert(forall|e: int| !mesh@.dangling(e));
        return Err(ConfigurationError::EmptyBody { body_index });
    }
    let map = EquationMap { panels, equations };
    proof {
        assert(mesh@.active(body_index, map@[0] as int));
        assert forall|e: int| #[trigger] mesh@.active(body_index, e) implies exists|i: int|
            0 <= i < map@.len() && map@[i] == e by {
            assert(map.lookup()[e] is Some);
            let i = map.lookup()[e]->Some_0;
            assert(map.lookup()[e] == Some(i));
            assert(map@[i as int] == e);
        }
        assert(forall|e: int| !mesh@.dangling(e));
    }
    Ok(map)
}

/// A body has one enumeration of its panels: two sequences that both
/// enumerate it are equal.
pub proof fn lemma_enumeration_unique(a: Seq<usize>, b: Seq<usize>, surface: Surface, body: usize)
    requires
        enumerates(a, surface, body),
        enumerates(b, surface, body),
    ensures
        a == b,
{
    if a.len() < b.len() {
        lemma_enumeration_no_longer(a, b, surface, body);
    }
    if b.len() < a.len() {
        lemma_enumeration_no_longer(b, a, surface, body);
    }
    assert forall|i: int| 0 <= i < a.len() implies a[i] == b[i] by {
        lemma_enumeration_agrees(a, b, surface, body, i);
    }
    assert(a =~= b);
}

/// Two enumerations of one body agree at every place that both have.
proof fn lemma_enumeration_agrees(
    a: Seq<usize>,
    b: Seq<usize>,
    surface: Surface,
    body: usize,
    i: int,
)
    requires
        enumerates(a, surface, body),
        enumerates(b, surface, body),
        0 <= i < a.len(),
        i < b.len(),
    ensures
        a[i] == b[i],
    decreases i,
{
    assert forall|k: int| 0 <= k < i implies a[k] == b[k] by {
        lemma_enumeration_agrees(a, b, surface, body, k);
    }
    assert(surface.active(body, a[i] as int));
    let m = choose|m: int| 0 <= m < b.len() && b[m] == a[i] as int;
    assert(m >= i) by {
        if m < i {
            assert(a[m] == b[m]);
            assert(a[m] < a[i]);
        }
    }
    assert(b[i] <= a[i]) by {
        if i < m {
            assert(b[i] < b[m]);
        }
    }
    assert(surface.active(body, b[i] as int));
    let l = choose|l: int| 0 <= l < a.len() && a[l] == b[i] as int;
    assert(l >= i) by {
        if l < i {
            assert(a[l] == b[l]);
            assert(b[l] < b[i]);
        }
    }
    assert(a[i] <= b[i]) by {
        if i < l {
            assert(a[i] < a[l]);
        }
    }
}

/// Of two enumerations of one body, the second is no longer than the first.
proof fn lemma_enumeration_no_longer(
    a: Seq<usize>,
    b: Seq<usize>,
    surface: Surface,
    body: usize,
)
    requires
        enumerates(a, surface, body),
        enumerates(b, surface, body),
    ensures
        b.len() <= a.len(),
{
    if a.len() < b.len() {
        let n = a.len() as int;
        assert(surface.active(body, b[n] as int));
        let m = choose|m: int| 0 <= m < a.len() && a[m] == b[n] as int;
        lemma_enumeration_agrees(a, b, surface, body, m);
        assert(b[m] < b[n]);
    }
}

} // verus!
