//! The surface mesh: nodes, and the panels that span them.

use crate::scalar::{Point, Real};
use vstd::prelude::*;

verus! {

/// One surface element: its nodes by index, the body it belongs to, and its
/// geometry.
#[derive(Clone, Debug)]
pub struct Element {
    pub nodes: Vec<usize>,
    pub body_index: usize,
    /// Unit normal, pointing out of the body.
    pub normal: Point,
    pub centroid: Point,
    pub area: Real,
}

/// What an `Element` stands for.
pub struct Panel {
    pub nodes: Seq<usize>,
    pub body_index: usize,
    pub normal: Point,
    pub centroid: Point,
    pub area: Real,
}

impl Panel {
    /// Every node named is one of the first `n`.
    pub open spec fn within(self, n: nat) -> bool {
        forall|k: int| 0 <= k < self.nodes.len() ==> (#[trigger] self.nodes[k]) < n
    }

    /// The two panels have a node in common.
    pub open spec fn touches(self, other: Panel) -> bool {
        exists|a: int, b: int|
            0 <= a < self.nodes.len() && 0 <= b < other.nodes.len() && (#[trigger] self.nodes[a])
                == (#[trigger] other.nodes[b])
    }
}

impl View for Element {
    type V = Panel;

    open spec fn view(&self) -> Panel {
        Panel {
            nodes: self.nodes@,
            body_index: self.body_index,
            normal: self.normal,
            centroid: self.centroid,
            area: self.area,
        }
    }
}

impl Element {
    /// Whether every node of the element is below `n`.
    pub fn refers_within(&self, n: usize) -> (r: bool)
        ensures
            r == self@.within(n as nat),
    {
        let mut k: usize = 0;
        while k < self.nodes.len()
            invariant
                k <= self.nodes.len(),
                forall|i: int| 0 <= i < k ==> (#[trigger] self.nodes@[i]) < n,
            decreases self.nodes.len() - k,
        {
            if self.nodes[k] >= n {
                assert(!(self@.nodes[k as int] < n));
                return false;
            }
            k += 1;
        }
        true
    }

    /// Whether the element names `node`.
    pub fn has_node(&self, node: usize) -> (r: bool)
        ensures
            r == self@.nodes.contains(node),
    {
        let mut k: usize = 0;
        while k < self.nodes.len()
            invariant
                k <= self.nodes.len(),
                forall|i: int| 0 <= i < k ==> (#[trigger] self.nodes@[i]) != node,
            decreases self.nodes.len() - k,
        {
            if self.nodes[k] == node {
                return true;
            }
            k += 1;
        }
        false
    }

    /// Whether the two elements have a node in common.
    pub fn shares_node(&self, other: &Element) -> (r: bool)
        ensures
            r == self@.touches(other@),
    {
        let mut k: usize = 0;
        while k < self.nodes.len()
            invariant
                k <= self.nodes.len(),
                forall|a: int, b: int|
                    0 <= a < k && 0 <= b < other.nodes@.len() ==> (#[trigger] self.nodes@[a]) != (
                    #[trigger] other.nodes@[b]),
            decreases self.nodes.len() - k,
        {
            if other.has_node(self.nodes[k]) {
                proof {
                    let node = self.nodes@[k as int];
                    let b = choose|b: int| 0 <= b < other@.nodes.len() && other@.nodes[b] == node;
                    assert(self@.nodes[k as int] == other@.nodes[b]);
                }
                return true;
            }
            k += 1;
        }
        false
    }
}

/// A mesh: node positions, and elements in the order of the mesh file.
#[derive(Clone, Debug)]
pub struct Mesh {
    pub nodes: Vec<Point>,
    pub elements: Vec<Element>,
}

/// What a `Mesh` stands for.
pub struct Surface {
    pub nodes: Seq<Point>,
    pub panels: Seq<Panel>,
}

impl Surface {
    /// Panel `j` exists and belongs to `body`.
    pub open spec fn active(self, body: usize, j: int) -> bool {
        0 <= j < self.panels.len() && self.panels[j].body_index == body
    }

    /// Panel `j` exists and names a node that the mesh lacks.
    pub open spec fn dangling(self, j: int) -> bool {
        0 <= j < self.panels.len() && !self.panels[j].within(self.nodes.len())
    }

    /// There is a panel, and every panel names nodes of the mesh only.
    pub open spec fn sound(self) -> bool {
        self.panels.len() > 0 && forall|j: int| !self.dangling(j)
    }

    /// Some panel belongs to `body`.
    pub open spec fn has_body(self, body: usize) -> bool {
        exists|j: int| self.active(body, j)
    }
}

impl View for Mesh {
    type V = Surface;

    open spec fn view(&self) -> Surface {
        Surface { nodes: self.nodes@, panels: self.elements@.map_values(|e: Element| e@) }
    }
}

/// Touching is symmetric.
pub proof fn lemma_touches_symmetric(p: Panel, q: Panel)
    ensures
        p.touches(q) == q.touches(p),
{
    if p.touches(q) {
        let (a, b) = choose|a: int, b: int|
            0 <= a < p.nodes.len() && 0 <= b < q.nodes.len() && (#[trigger] p.nodes[a]) == (
            #[trigger] q.nodes[b]);
        assert(q.nodes[b] == p.nodes[a]);
    }
    if q.touches(p) {
        let (a, b) = choose|a: int, b: int|
            0 <= a < q.nodes.len() && 0 <= b < p.nodes.len() && (#[trigger] q.nodes[a]) == (
            #[trigger] p.nodes[b]);
        assert(p.nodes[b] == q.nodes[a]);
    }
}

} // verus!
