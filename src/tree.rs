//! The layout tree: nodes with a parent link and a position, whose rectangles
//! are computed top-down and computed again only where something changed.
use vstd::prelude::*;

use crate::bounds::{AsciiBounds, AsciiGlobalBounds};
use crate::position::{lemma_formatted_idempotent, lemma_resolved_layer_deeper, AsciiPosition};

verus! {

/// A node of the layout tree.
#[derive(Clone, Copy, Debug, PartialEq, Eq)]
pub struct AsciiNode {
    /// The node it is placed in; a node without one is a root.
    pub parent: Option<usize>,
    /// How it is placed in its parent.
    pub position: Option<AsciiPosition>,
    /// For the root of a render target, the target's size in cells.
    pub target: Option<(u32, u32)>,
    /// Its rectangle as last computed, and the flags that go with it.
    pub global: AsciiGlobalBounds,
    /// Whether it is shown; a hidden node still takes part in the layout.
    pub visible: bool,
    /// Its position, visibility or target changed since the last pass.
    pub layout_changed: bool,
    /// Its rectangle was written from outside since the last pass.
    pub bounds_changed: bool,
}

/// Parents come before their children, and every position can be computed.
pub open spec fn tree_wf(nodes: Seq<AsciiNode>) -> bool {
    forall|i: int|
        0 <= i < nodes.len() ==> (#[trigger] nodes[i].parent matches Some(p) ==> p < i) && (
        nodes[i].position matches Some(pos) ==> pos.supported())
}

/// The rectangle of node `i`: a render target's root covers the whole target;
/// a placed node gets its position applied to its parent's rectangle; any other
/// node keeps the rectangle it has.
pub open spec fn global_bounds(nodes: Seq<AsciiNode>, i: int) -> AsciiBounds
    decreases i,
{
    if !(0 <= i < nodes.len()) {
        AsciiBounds::dims(0, 0)
    } else {
        let n = nodes[i];
        match n.target {
            Some((w, h)) => AsciiBounds::dims(w, h),
            None => match (n.parent, n.position) {
                (Some(p), Some(pos)) => {
                    if p < i {
                        pos.formatted(global_bounds(nodes, p as int), n.global.bounds)
                    } else {
                        pos.formatted(n.global.bounds, n.global.bounds)
                    }
                },
                _ => n.global.bounds,
            },
        }
    }
}

/// Node `a` is a proper ancestor of node `i`.
pub open spec fn is_ancestor(nodes: Seq<AsciiNode>, a: int, i: int) -> bool
    decreases i,
{
    0 <= i < nodes.len() && match nodes[i].parent {
        Some(p) => p < i && (p == a || is_ancestor(nodes, a, p as int)),
        None => false,
    }
}

/// A change was made to node `i` or to one of its ancestors.
pub open spec fn change_reaches(nodes: Seq<AsciiNode>, i: int) -> bool
    decreases i,
{
    0 <= i < nodes.len() && (nodes[i].layout_changed || match nodes[i].parent {
        Some(p) => p < i && change_reaches(nodes, p as int),
        None => false,
    })
}

/// Node `i` and all its ancestors are visible.
pub open spec fn shown(nodes: Seq<AsciiNode>, i: int) -> bool
    decreases i,
{
    0 <= i < nodes.len() && nodes[i].visible && match nodes[i].parent {
        Some(p) => p < i ==> shown(nodes, p as int),
        None => true,
    }
}

/// Some node changed since the last pass.
pub open spec fn any_change(nodes: Seq<AsciiNode>) -> bool {
    exists|i: int| 0 <= i < nodes.len() && #[trigger] nodes[i].layout_changed
}

/// The nodes after the marking pass: every node that changed, every descendant
/// of one, and every node whose rectangle was written from outside waits to be
/// computed again; the change signals are cleared.
pub open spec fn marked(nodes: Seq<AsciiNode>) -> Seq<AsciiNode> {
    Seq::new(
        nodes.len(),
        |i: int|
            AsciiNode {
                global: AsciiGlobalBounds {
                    is_dirty: nodes[i].global.is_dirty || change_reaches(nodes, i)
                        || nodes[i].bounds_changed,
                    ..nodes[i].global
                },
                layout_changed: false,
                bounds_changed: false,
                ..nodes[i]
            },
    )
}

/// The nodes after the resolving pass: each node that waited gets its rectangle
/// computed, and no node waits any more.
pub open spec fn resolved(nodes: Seq<AsciiNode>) -> Seq<AsciiNode> {
    Seq::new(
        nodes.len(),
        |i: int|
            AsciiNode {
                global: AsciiGlobalBounds {
                    bounds: if nodes[i].global.is_dirty {
                        global_bounds(nodes, i)
                    } else {
                        nodes[i].global.bounds
                    },
                    is_dirty: false,
                    ..nodes[i].global
                },
                ..nodes[i]
            },
    )
}

/// The nodes after a whole layout pass: marking, then resolving.
pub open spec fn updated(nodes: Seq<AsciiNode>) -> Seq<AsciiNode> {
    resolved(marked(nodes))
}

/// `b` has the links, positions and targets of `a`, and each of its rectangles
/// is either the one of `a` or the one computed in `a`.
pub open spec fn refreshed_from(a: Seq<AsciiNode>, b: Seq<AsciiNode>) -> bool {
    &&& a.len() == b.len()
    &&& forall|i: int|
        0 <= i < a.len() ==> {
            &&& #[trigger] b[i].parent == a[i].parent
            &&& b[i].position == a[i].position
            &&& b[i].target == a[i].target
            &&& (b[i].global.bounds == a[i].global.bounds || b[i].global.bounds
                == global_bounds(a, i))
        }
}

/// Writing computed rectangles back does not change what any node computes to.
pub proof fn lemma_global_stable(a: Seq<AsciiNode>, b: Seq<AsciiNode>, k: int)
    requires
        tree_wf(a),
        refreshed_from(a, b),
        0 <= k < a.len(),
    ensures
        global_bounds(b, k) == global_bounds(a, k),
    decreases k,
{
    let n = a[k];
    assert(b[k].parent == n.parent);
    if n.target is None {
        if let (Some(p), Some(pos)) = (n.parent, n.position) {
            lemma_global_stable(a, b, p as int);
            lemma_formatted_idempotent(pos, global_bounds(a, p as int), n.global.bounds);
        }
    }
}

proof fn lemma_no_change_reaches(nodes: Seq<AsciiNode>, i: int)
    requires
        !any_change(nodes),
    ensures
        !change_reaches(nodes, i),
    decreases i,
{
    if 0 <= i < nodes.len() {
        assert(!nodes[i].layout_changed);
        if let Some(p) = nodes[i].parent {
            if p < i {
                lemma_no_change_reaches(nodes, p as int);
            }
        }
    }
}

/// A layout pass over a tree that has just had one changes nothing and signals
/// nothing, and computing any node that the first pass computed again gives
/// the same rectangle.
pub proof fn lemma_update_idempotent(nodes: Seq<AsciiNode>)
    requires
        tree_wf(nodes),
    ensures
        updated(updated(nodes)) == updated(nodes),
        !any_change(updated(nodes)),
        forall|i: int|
            0 <= i < nodes.len() && (#[trigger] marked(nodes)[i]).global.is_dirty
                ==> global_bounds(updated(nodes), i) == updated(nodes)[i].global.bounds,
{
    let m = marked(nodes);
    let once = updated(nodes);
    assert(tree_wf(m));
    assert(!any_change(once));
    assert forall|i: int| 0 <= i < once.len() implies !change_reaches(once, i) by {
        lemma_no_change_reaches(once, i);
    }
    assert(marked(once) =~= once);
    assert(resolved(once) =~= once);
    assert(refreshed_from(m, once));
    assert forall|i: int|
        0 <= i < nodes.len() && (#[trigger] marked(nodes)[i]).global.is_dirty implies global_bounds(
        once,
        i,
    ) == once[i].global.bounds by {
        lemma_global_stable(m, once, i);
    }
}

/// A node placed inside its parent lies on a deeper layer than the parent,
/// unless the parent is on the last layer or a padding left the node as it was.
pub proof fn lemma_child_layer_deeper(nodes: Seq<AsciiNode>, i: int)
    requires
        tree_wf(nodes),
        0 <= i < nodes.len(),
        nodes[i].target is None,
        nodes[i].parent is Some,
        nodes[i].position is Some,
        global_bounds(nodes, nodes[i].parent->0 as int).layer < u32::MAX,
        nodes[i].position->0 is Padded ==> nodes[i].position->0->padding.fits(
            global_bounds(nodes, nodes[i].parent->0 as int).width,
            global_bounds(nodes, nodes[i].parent->0 as int).height,
        ),
    ensures
        global_bounds(nodes, i).layer > global_bounds(nodes, nodes[i].parent->0 as int).layer,
{
    let p = nodes[i].parent->0 as int;
    lemma_resolved_layer_deeper(
        nodes[i].position->0,
        global_bounds(nodes, p),
        nodes[i].global.bounds,
    );
}

proof fn lemma_push_contains(s: Seq<usize>, x: usize, y: usize)
    ensures
        s.push(x).contains(y) <==> s.contains(y) || y == x,
{
    if s.contains(y) {
        let t = choose|t: int| 0 <= t < s.len() && s[t] == y;
        assert(s.push(x)[t] == y);
    }
    if y == x {
        assert(s.push(x)[s.len() as int] == y);
    }
    if s.push(x).contains(y) && y != x {
        let t = choose|t: int| 0 <= t < s.len() + 1 && s.push(x)[t] == y;
        assert(s[t] == y);
    }
}

/// A tree of nodes laid out inside one another.
pub struct LayoutTree {
    nodes: Vec<AsciiNode>,
}

impl LayoutTree {
    /// The nodes, in the order they were added.
    pub closed spec fn view_nodes(self) -> Seq<AsciiNode> {
        self.nodes@
    }

    pub open spec fn wf(self) -> bool {
        tree_wf(self.view_nodes())
    }

    pub fn new() -> (r: LayoutTree)
        ensures
            r.wf(),
            r.view_nodes() == Seq::<AsciiNode>::empty(),
    {
        LayoutTree { nodes: Vec::new() }
    }

    pub fn len(&self) -> (r: usize)
        ensures
            r == self.view_nodes().len(),
    {
        self.nodes.len()
    }

    pub fn node(&self, id: usize) -> (r: Option<AsciiNode>)
        ensures
            r == if id < self.view_nodes().len() {
                Some(self.view_nodes()[id as int])
            } else {
                None
            },
    {
        if id < self.nodes.len() {
            Some(self.nodes[id])
        } else {
            None
        }
    }

    /// The rectangle node `id` was last given.
    pub fn bounds(&self, id: usize) -> (r: Option<AsciiBounds>)
        ensures
            r == if id < self.view_nodes().len() {
                Some(self.view_nodes()[id as int].global.bounds)
            } else {
                None
            },
    {
        if id < self.nodes.len() {
            Some(self.nodes[id].global.bounds)
        } else {
            None
        }
    }

    /// A node that is fresh: shown, waiting for its first layout.
    pub open spec fn fresh(
        parent: Option<usize>,
        position: Option<AsciiPosition>,
        target: Option<(u32, u32)>,
    ) -> AsciiNode {
        AsciiNode {
            parent,
            position,
            target,
            global: AsciiGlobalBounds {
                bounds: AsciiBounds::dims(0, 0),
                is_dirty: false,
                clip_bounds: false,
            },
            visible: true,
            layout_changed: true,
            bounds_changed: false,
        }
    }

    /// Adds the root of a render target `width` by `height` cells large.
    pub fn add_root(&mut self, width: u32, height: u32) -> (r: usize)
        requires
            old(self).wf(),
            old(self).view_nodes().len() < usize::MAX,
        ensures
            final(self).wf(),
            r == old(self).view_nodes().len(),
            final(self).view_nodes() == old(self).view_nodes().push(
                LayoutTree::fresh(None, None, Some((width, height))),
            ),
    {
        let id = self.nodes.len();
        self.nodes.push(
            AsciiNode {
                parent: None,
                position: None,
                target: Some((width, height)),
                global: AsciiGlobalBounds::new(0, 0, 0, 0, 0),
                visible: true,
                layout_changed: true,
                bounds_changed: false,
            },
        );
        id
    }

    /// Adds a node with no parent, no position and no target: a root that keeps
    /// whatever rectangle it is given.
    pub fn spawn_empty(&mut self) -> (r: usize)
        requires
            old(self).wf(),
            old(self).view_nodes().len() < usize::MAX,
        ensures
            final(self).wf(),
            r == old(self).view_nodes().len(),
            final(self).view_nodes() == old(self).view_nodes().push(
                LayoutTree::fresh(None, None, None),
            ),
    {
        let id = self.nodes.len();
        self.nodes.push(
            AsciiNode {
                parent: None,
                position: None,
                target: None,
                global: AsciiGlobalBounds::new(0, 0, 0, 0, 0),
                visible: true,
                layout_changed: true,
                bounds_changed: false,
            },
        );
        id
    }

    /// Adds a node placed by `position` inside node `parent`; a parent that is not
    /// in the tree, or a position that cannot be computed, is refused.
    pub fn add_node(&mut self, parent: usize, position: AsciiPosition) -> (r: Option<usize>)
        requires
            old(self).wf(),
            old(self).view_nodes().len() < usize::MAX,
        ensures
            final(self).wf(),
            parent < old(self).view_nodes().len() && position.supported() ==> r == Some(
                old(self).view_nodes().len() as usize,
            ) && final(self).view_nodes() == old(self).view_nodes().push(
                LayoutTree::fresh(Some(parent), Some(position), None),
            ),
            !(parent < old(self).view_nodes().len() && position.supported()) ==> r is None
                && final(self).view_nodes() == old(self).view_nodes(),
    {
        if parent >= self.nodes.len() || !position.is_supported() {
            return None;
        }
        let id = self.nodes.len();
        self.nodes.push(
            AsciiNode {
                parent: Some(parent),
                position: Some(position),
                target: None,
                global: AsciiGlobalBounds::new(0, 0, 0, 0, 0),
                visible: true,
                layout_changed: true,
                bounds_changed: false,
            },
        );
        Some(id)
    }

    /// Replaces node `id` by `node`, keeping the tree's shape valid.
    fn replace(&mut self, id: usize, node: AsciiNode)
        requires
            old(self).wf(),
            id < old(self).view_nodes().len(),
            node.parent == old(self).view_nodes()[id as int].parent,
            node.position matches Some(pos) ==> pos.supported(),
        ensures
            final(self).wf(),
            final(self).view_nodes() == old(self).view_nodes().update(id as int, node),
    {
        self.nodes.set(id, node);
    }

    /// Gives node `id` a new position; a missing node or a position that cannot be
    /// computed is refused.
    pub fn set_position(&mut self, id: usize, position: AsciiPosition) -> (r: bool)
        requires
            old(self).wf(),
        ensures
            final(self).wf(),
            r == (id < old(self).view_nodes().len() && position.supported()),
            r ==> final(self).view_nodes() == old(self).view_nodes().update(
                id as int,
                AsciiNode {
                    position: Some(position),
                    layout_changed: true,
                    ..old(self).view_nodes()[id as int]
                },
            ),
            !r ==> final(self).view_nodes() == old(self).view_nodes(),
    {
        if id >= self.nodes.len() || !position.is_supported() {
            return false;
        }
        let node = self.nodes[id];
        self.replace(id, AsciiNode { position: Some(position), layout_changed: true, ..node });
        true
    }

    /// Shows or hides node `id` and what is inside it.
    pub fn set_visible(&mut self, id: usize, visible: bool) -> (r: bool)
        requires
            old(self).wf(),
        ensures
            final(self).wf(),
            r == (id < old(self).view_nodes().len()),
            r ==> final(self).view_nodes() == old(self).view_nodes().update(
                id as int,
                AsciiNode { visible, layout_changed: true, ..old(self).view_nodes()[id as int] },
            ),
            !r ==> final(self).view_nodes() == old(self).view_nodes(),
    {
        if id >= self.nodes.len() {
            return false;
        }
        let node = self.nodes[id];
        self.replace(id, AsciiNode { visible, layout_changed: true, ..node });
        true
    }

    /// Makes node `id` the root of a render target `width` by `height` cells large.
    pub fn set_target_resolution(&mut self, id: usize, width: u32, height: u32) -> (r: bool)
        requires
            old(self).wf(),
        ensures
            final(self).wf(),
            r == (id < old(self).view_nodes().len()),
            r ==> final(self).view_nodes() == old(self).view_nodes().update(
                id as int,
                AsciiNode {
                    target: Some((width, height)),
                    layout_changed: true,
                    ..old(self).view_nodes()[id as int]
                },
            ),
            !r ==> final(self).view_nodes() == old(self).view_nodes(),
    {
        if id >= self.nodes.len() {
            return false;
        }
        let node = self.nodes[id];
        self.replace(id, AsciiNode { target: Some((width, height)), layout_changed: true, ..node });
        true
    }

    /// Writes a rectangle into node `id` from outside the layout; the node is
    /// computed again on the next pass.
    pub fn set_bounds(&mut self, id: usize, bounds: AsciiBounds) -> (r: bool)
        requires
            old(self).wf(),
        ensures
            final(self).wf(),
            r == (id < old(self).view_nodes().len()),
            r ==> final(self).view_nodes() == old(self).view_nodes().update(
                id as int,
                AsciiNode {
                    global: AsciiGlobalBounds {
                        bounds,
                        ..old(self).view_nodes()[id as int].global
                    },
                    bounds_changed: true,
                    ..old(self).view_nodes()[id as int]
                },
            ),
            !r ==> final(self).view_nodes() == old(self).view_nodes(),
    {
        if id >= self.nodes.len() {
            return false;
        }
        let node = self.nodes[id];
        let mut global = node.global;
        global.set_from(&bounds);
        self.replace(id, AsciiNode { global, bounds_changed: true, ..node });
        true
    }

    /// Sets whether what is drawn inside node `id` is cut to its rectangle.
    pub fn set_clip_bounds(&mut self, id: usize, clip_bounds: bool) -> (r: bool)
        requires
            old(self).wf(),
        ensures
            final(self).wf(),
            r == (id < old(self).view_nodes().len()),
            r ==> final(self).view_nodes() == old(self).view_nodes().update(
                id as int,
                AsciiNode {
                    global: AsciiGlobalBounds {
                        clip_bounds,
                        ..old(self).view_nodes()[id as int].global
                    },
                    ..old(self).view_nodes()[id as int]
                },
            ),
            !r ==> final(self).view_nodes() == old(self).view_nodes(),
    {
        if id >= self.nodes.len() {
            return false;
        }
        let node = self.nodes[id];
        let global = AsciiGlobalBounds { clip_bounds, ..node.global };
        self.replace(id, AsciiNode { global, ..node });
        true
    }
}

impl LayoutTree {
    /// Computes the rectangle of node `id` from the chain of its ancestors.
    pub fn global_bounds(&self, id: usize) -> (r: AsciiBounds)
        requires
            self.wf(),
            id < self.view_nodes().len(),
        ensures
            r == global_bounds(self.view_nodes(), id as int),
        decreases id,
    {
        let node = self.nodes[id];
        if let Some((w, h)) = node.target {
            return AsciiBounds::from_dims(w, h);
        }
        match (node.parent, node.position) {
            (Some(p), Some(position)) => {
                let parent_bounds = self.global_bounds(p);
                let mut child = node.global.bounds;
                position.format_bounds(&parent_bounds, &mut child);
                child
            },
            _ => node.global.bounds,
        }
    }

    /// The marking pass: every node whose position, visibility or target changed
    /// waits to be computed again, with all its descendants, and so does every
    /// node whose rectangle was written from outside. Returns whether any node
    /// changed, that is whether the interface must be drawn again.
    pub fn mark_positions_dirty(&mut self) -> (signal: bool)
        requires
            old(self).wf(),
        ensures
            final(self).wf(),
            final(self).view_nodes() == marked(old(self).view_nodes()),
            signal == any_change(old(self).view_nodes()),
    {
        let n = self.nodes.len();
        let ghost start = self.nodes@;
        let mut reach: Vec<bool> = Vec::new();
        let mut signal = false;
        for i in 0..n
            invariant
                n == start.len(),
                self.nodes@.len() == n,
                tree_wf(start),
                reach@.len() == i,
                forall|k: int| 0 <= k < i ==> reach@[k] == change_reaches(start, k),
                forall|k: int| 0 <= k < i ==> self.nodes@[k] == marked(start)[k],
                forall|k: int| i <= k < n ==> self.nodes@[k] == start[k],
                signal == exists|k: int| 0 <= k < i && #[trigger] start[k].layout_changed,
        {
            let node = self.nodes[i];
            assert(node.parent == start[i as int].parent);
            let from_parent = match node.parent {
                Some(p) => {
                    assert(reach@[p as int] == change_reaches(start, p as int));
                    reach[p]
                },
                None => false,
            };
            let r = node.layout_changed || from_parent;
            reach.push(r);
            signal = signal || node.layout_changed;
            let global = AsciiGlobalBounds {
                is_dirty: node.global.is_dirty || r || node.bounds_changed,
                ..node.global
            };
            self.nodes.set(
                i,
                AsciiNode { global, layout_changed: false, bounds_changed: false, ..node },
            );
        }
        assert(self.nodes@ =~= marked(start));
        signal
    }

    /// The resolving pass: every node that waits gets its rectangle computed from
    /// its ancestors, and no node waits any more.
    pub fn update_positions(&mut self)
        requires
            old(self).wf(),
        ensures
            final(self).wf(),
            final(self).view_nodes() == resolved(old(self).view_nodes()),
    {
        let n = self.nodes.len();
        let ghost start = self.nodes@;
        for i in 0..n
            invariant
                n == start.len(),
                self.nodes@.len() == n,
                tree_wf(start),
                self.wf(),
                refreshed_from(start, self.nodes@),
                forall|k: int| 0 <= k < i ==> self.nodes@[k] == resolved(start)[k],
                forall|k: int| i <= k < n ==> self.nodes@[k] == start[k],
        {
            let node = self.nodes[i];
            if node.global.is_dirty {
                let new_bounds = self.global_bounds(i);
                proof {
                    lemma_global_stable(start, self.nodes@, i as int);
                }
                let mut global = AsciiGlobalBounds { is_dirty: false, ..node.global };
                if new_bounds != global.bounds {
                    global.set_from(&new_bounds);
                }
                self.replace(i, AsciiNode { global, ..node });
            }
        }
        assert(self.nodes@ =~= resolved(start));
    }

    /// A whole layout pass: marking, then resolving. Returns whether any node
    /// changed since the last pass.
    pub fn update(&mut self) -> (signal: bool)
        requires
            old(self).wf(),
        ensures
            final(self).wf(),
            final(self).view_nodes() == updated(old(self).view_nodes()),
            signal == any_change(old(self).view_nodes()),
    {
        let signal = self.mark_positions_dirty();
        self.update_positions();
        signal
    }

    /// The nodes placed directly in node `id`, in the order they were added.
    pub fn children(&self, id: usize) -> (r: Vec<usize>)
        requires
            self.wf(),
        ensures
            forall|k: int|
                0 <= k < self.view_nodes().len() ==> (r@.contains(k as usize) <==> (
                #[trigger] self.view_nodes()[k]).parent == Some(id)),
            forall|j: int| 0 <= j < r@.len() ==> r@[j] < self.view_nodes().len(),
            forall|a: int, b: int| 0 <= a < b < r@.len() ==> r@[a] < r@[b],
    {
        let n = self.nodes.len();
        let mut r: Vec<usize> = Vec::new();
        for k in 0..n
            invariant
                n == self.view_nodes().len(),
                forall|j: int|
                    0 <= j < k ==> (r@.contains(j as usize) <==> (
                    #[trigger] self.view_nodes()[j]).parent == Some(id)),
                forall|j: int| 0 <= j < r@.len() ==> r@[j] < k,
                forall|a: int, b: int| 0 <= a < b < r@.len() ==> r@[a] < r@[b],
        {
            let ghost before = r@;
            if self.nodes[k].parent == Some(id) {
                r.push(k);
            }
            proof {
                assert(!before.contains(k));
                assert forall|j: int|
                    0 <= j < k + 1 implies (r@.contains(j as usize) <==> (
                    #[trigger] self.view_nodes()[j]).parent == Some(id)) by {
                    lemma_push_contains(before, k, j as usize);
                }
            }
        }
        r
    }

    /// Every node inside node `id`, at any depth, in the order they were added.
    pub fn descendants(&self, id: usize) -> (r: Vec<usize>)
        requires
            self.wf(),
        ensures
            forall|k: int|
                0 <= k < self.view_nodes().len() ==> (r@.contains(k as usize) <==> is_ancestor(
                    self.view_nodes(),
                    id as int,
                    k,
                )),
            forall|j: int| 0 <= j < r@.len() ==> r@[j] < self.view_nodes().len(),
            forall|a: int, b: int| 0 <= a < b < r@.len() ==> r@[a] < r@[b],
    {
        let n = self.nodes.len();
        let mut inside: Vec<bool> = Vec::new();
        let mut r: Vec<usize> = Vec::new();
        for k in 0..n
            invariant
                n == self.view_nodes().len(),
                tree_wf(self.view_nodes()),
                inside@.len() == k,
                forall|j: int|
                    0 <= j < k ==> inside@[j] == is_ancestor(self.view_nodes(), id as int, j),
                forall|j: int|
                    0 <= j < k ==> (r@.contains(j as usize) <==> is_ancestor(
                        self.view_nodes(),
                        id as int,
                        j,
                    )),
                forall|j: int| 0 <= j < r@.len() ==> r@[j] < k,
                forall|a: int, b: int| 0 <= a < b < r@.len() ==> r@[a] < r@[b],
        {
            assert(self.nodes@[k as int].parent == self.view_nodes()[k as int].parent);
            let below = match self.nodes[k].parent {
                Some(p) => p == id || inside[p],
                None => false,
            };
            inside.push(below);
            let ghost before = r@;
            if below {
                r.push(k);
            }
            proof {
                assert(!before.contains(k));
                assert forall|j: int|
                    0 <= j < k + 1 implies (r@.contains(j as usize) <==> is_ancestor(
                    self.view_nodes(),
                    id as int,
                    j,
                )) by {
                    lemma_push_contains(before, k, j as usize);
                }
            }
        }
        r
    }

    /// Node `id` and all its ancestors are visible.
    pub fn is_visible(&self, id: usize) -> (r: bool)
        requires
            self.wf(),
        ensures
            r == shown(self.view_nodes(), id as int),
        decreases id,
    {
        if id >= self.nodes.len() || !self.nodes[id].visible {
            return false;
        }
        match self.nodes[id].parent {
            Some(p) => self.is_visible(p),
            None => true,
        }
    }
}

} // verus!
