//! Building a layout tree by pushing nodes into one another.
use vstd::prelude::*;

use crate::bounds::{HorizontalAlignment, Value, VerticalAlignment};
use crate::position::AsciiPosition;
use crate::tree::{AsciiNode, LayoutTree};

verus! {

/// A cursor into a layout tree: each node pushed is placed in the current node
/// and becomes the current node; `pop` goes back to where it was pushed.
pub struct AsciiUiCommands {
    pub entity_stack: Vec<usize>,
    pub current_entity: usize,
}

impl AsciiUiCommands {
    /// The stack and the current node are nodes of `tree`.
    pub open spec fn wf_in(self, tree: LayoutTree) -> bool {
        &&& self.current_entity < tree.view_nodes().len()
        &&& forall|i: int|
            0 <= i < self.entity_stack@.len() ==> #[trigger] self.entity_stack@[i]
                < tree.view_nodes().len()
    }

    /// Starts at node `parent`.
    pub fn ascii_ui_with_parent(parent: usize) -> (r: AsciiUiCommands)
        ensures
            r.entity_stack@ == Seq::<usize>::empty(),
            r.current_entity == parent,
    {
        AsciiUiCommands { entity_stack: Vec::new(), current_entity: parent }
    }

    /// Starts at a new parentless node of `tree`.
    pub fn ascii_ui(tree: &mut LayoutTree) -> (r: AsciiUiCommands)
        requires
            old(tree).wf(),
            old(tree).view_nodes().len() < usize::MAX,
        ensures
            final(tree).wf(),
            final(tree).view_nodes() == old(tree).view_nodes().push(
                LayoutTree::fresh(None, None, None),
            ),
            r.entity_stack@ == Seq::<usize>::empty(),
            r.current_entity == old(tree).view_nodes().len(),
            r.wf_in(*final(tree)),
    {
        let parent = tree.spawn_empty();
        AsciiUiCommands { entity_stack: Vec::new(), current_entity: parent }
    }

    /// Adds a node placed by `pos` in the current node and makes it current; a
    /// position that cannot be computed leaves everything as it was.
    pub fn push_from_pos(&mut self, tree: &mut LayoutTree, pos: AsciiPosition)
        requires
            old(self).wf_in(*old(tree)),
            old(tree).wf(),
            old(tree).view_nodes().len() < usize::MAX,
        ensures
            final(tree).wf(),
            final(self).wf_in(*final(tree)),
            pos.supported() ==> {
                &&& final(tree).view_nodes() == old(tree).view_nodes().push(
                    LayoutTree::fresh(Some(old(self).current_entity), Some(pos), None),
                )
                &&& final(self).entity_stack@ == old(self).entity_stack@.push(
                    old(self).current_entity,
                )
                &&& final(self).current_entity == old(tree).view_nodes().len()
            },
            !pos.supported() ==> final(tree).view_nodes() == old(tree).view_nodes()
                && *final(self) == *old(self),
    {
        let parent = self.current_entity;
        if let Some(entity) = tree.add_node(parent, pos) {
            self.entity_stack.push(parent);
            self.current_entity = entity;
        }
    }

    /// Goes back to the node the current one was pushed from, if any.
    pub fn pop(&mut self)
        ensures
            old(self).entity_stack@.len() > 0 ==> final(self).entity_stack@
                == old(self).entity_stack@.drop_last() && final(self).current_entity
                == old(self).entity_stack@.last(),
            old(self).entity_stack@.len() == 0 ==> *final(self) == *old(self),
    {
        if self.entity_stack.len() > 0 {
            self.current_entity = self.entity_stack.pop().unwrap();
        }
    }

    /// Hides the current node.
    pub fn hidden(&self, tree: &mut LayoutTree)
        requires
            old(tree).wf(),
        ensures
            final(tree).wf(),
            self.current_entity < old(tree).view_nodes().len() ==> final(tree).view_nodes()
                == old(tree).view_nodes().update(
                self.current_entity as int,
                AsciiNode {
                    visible: false,
                    layout_changed: true,
                    ..old(tree).view_nodes()[self.current_entity as int]
                },
            ),
            self.current_entity >= old(tree).view_nodes().len() ==> final(tree).view_nodes()
                == old(tree).view_nodes(),
    {
        tree.set_visible(self.current_entity, false);
    }

    /// Pushes a band `size` high along the top of the current node.
    pub fn top(&mut self, tree: &mut LayoutTree, size: Value)
        requires
            old(self).wf_in(*old(tree)),
            old(tree).wf(),
            old(tree).view_nodes().len() < usize::MAX,
        ensures
            final(tree).wf(),
            final(self).wf_in(*final(tree)),
            final(tree).view_nodes() == old(tree).view_nodes().push(
                LayoutTree::fresh(
                    Some(old(self).current_entity),
                    Some(
                        AsciiPosition::Aligned {
                            width: Value::Percent(100),
                            height: size,
                            horizontal: HorizontalAlignment::Center,
                            vertical: VerticalAlignment::Top,
                        },
                    ),
                    None,
                ),
            ),
            final(self).current_entity == old(tree).view_nodes().len(),
    {
        self.push_from_pos(tree, AsciiPosition::top(size));
    }

    /// Pushes a band `size` high along the bottom of the current node.
    pub fn bottom(&mut self, tree: &mut LayoutTree, size: Value)
        requires
            old(self).wf_in(*old(tree)),
            old(tree).wf(),
            old(tree).view_nodes().len() < usize::MAX,
        ensures
            final(tree).wf(),
            final(self).wf_in(*final(tree)),
            final(tree).view_nodes() == old(tree).view_nodes().push(
                LayoutTree::fresh(
                    Some(old(self).current_entity),
                    Some(
                        AsciiPosition::Aligned {
                            width: Value::Percent(100),
                            height: size,
                            horizontal: HorizontalAlignment::Center,
                            vertical: VerticalAlignment::Bottom,
                        },
                    ),
                    None,
                ),
            ),
            final(self).current_entity == old(tree).view_nodes().len(),
    {
        self.push_from_pos(tree, AsciiPosition::bottom(size));
    }

    /// Pushes a band `size` wide along the left of the current node.
    pub fn left(&mut self, tree: &mut LayoutTree, size: Value)
        requires
            old(self).wf_in(*old(tree)),
            old(tree).wf(),
            old(tree).view_nodes().len() < usize::MAX,
        ensures
            final(tree).wf(),
            final(self).wf_in(*final(tree)),
            final(tree).view_nodes() == old(tree).view_nodes().push(
                LayoutTree::fresh(
                    Some(old(self).current_entity),
                    Some(
                        AsciiPosition::Aligned {
                            width: size,
                            height: Value::Percent(100),
                            horizontal: HorizontalAlignment::Left,
                            vertical: VerticalAlignment::Center,
                        },
                    ),
                    None,
                ),
            ),
            final(self).current_entity == old(tree).view_nodes().len(),
    {
        self.push_from_pos(tree, AsciiPosition::left(size));
    }

    /// Pushes a band `size` wide along the right of the current node.
    pub fn right(&mut self, tree: &mut LayoutTree, size: Value)
        requires
            old(self).wf_in(*old(tree)),
            old(tree).wf(),
            old(tree).view_nodes().len() < usize::MAX,
        ensures
            final(tree).wf(),
            final(self).wf_in(*final(tree)),
            final(tree).view_nodes() == old(tree).view_nodes().push(
                LayoutTree::fresh(
                    Some(old(self).current_entity),
                    Some(
                        AsciiPosition::Aligned {
                            width: size,
                            height: Value::Percent(100),
                            horizontal: HorizontalAlignment::Right,
                            vertical: VerticalAlignment::Center,
                        },
                    ),
                    None,
                ),
            ),
            final(self).current_entity == old(tree).view_nodes().len(),
    {
        self.push_from_pos(tree, AsciiPosition::right(size));
    }

    /// Pushes a node at `(x, y)` from the current node's corner, as deep below it
    /// as the stack is high.
    pub fn relative(&mut self, tree: &mut LayoutTree, x: i32, y: i32, width: Value, height: Value)
        requires
            old(self).wf_in(*old(tree)),
            old(tree).wf(),
            old(tree).view_nodes().len() < usize::MAX,
        ensures
            final(tree).wf(),
            final(self).wf_in(*final(tree)),
            final(tree).view_nodes() == old(tree).view_nodes().push(
                LayoutTree::fresh(
                    Some(old(self).current_entity),
                    Some(
                        AsciiPosition::Relative {
                            x,
                            y,
                            width,
                            height,
                            layer: crate::bounds::clamp_u32(old(self).entity_stack@.len() as int),
                        },
                    ),
                    None,
                ),
            ),
            final(self).current_entity == old(tree).view_nodes().len(),
    {
        let depth = self.entity_stack.len();
        let layer: u32 = if depth > u32::MAX as usize {
            u32::MAX
        } else {
            depth as u32
        };
        self.push_from_pos(tree, AsciiPosition::relative(x, y, width, height, layer));
    }

    /// Pushes a node of the given size in the middle of the current node.
    pub fn centered(&mut self, tree: &mut LayoutTree, width: Value, height: Value)
        requires
            old(self).wf_in(*old(tree)),
            old(tree).wf(),
            old(tree).view_nodes().len() < usize::MAX,
        ensures
            final(tree).wf(),
            final(self).wf_in(*final(tree)),
            final(tree).view_nodes() == old(tree).view_nodes().push(
                LayoutTree::fresh(
                    Some(old(self).current_entity),
                    Some(
                        AsciiPosition::Aligned {
                            width,
                            height,
                            horizontal: HorizontalAlignment::Center,
                            vertical: VerticalAlignment::Center,
                        },
                    ),
                    None,
                ),
            ),
            final(self).current_entity == old(tree).view_nodes().len(),
    {
        self.push_from_pos(tree, AsciiPosition::centered(width, height));
    }

    /// Pushes a node that fills the current node.
    pub fn fill(&mut self, tree: &mut LayoutTree)
        requires
            old(self).wf_in(*old(tree)),
            old(tree).wf(),
            old(tree).view_nodes().len() < usize::MAX,
        ensures
            final(tree).wf(),
            final(self).wf_in(*final(tree)),
            final(tree).view_nodes() == old(tree).view_nodes().push(
                LayoutTree::fresh(
                    Some(old(self).current_entity),
                    Some(
                        AsciiPosition::Aligned {
                            width: Value::Percent(100),
                            height: Value::Percent(100),
                            horizontal: HorizontalAlignment::Center,
                            vertical: VerticalAlignment::Center,
                        },
                    ),
                    None,
                ),
            ),
            final(self).current_entity == old(tree).view_nodes().len(),
    {
        self.push_from_pos(tree, AsciiPosition::fill());
    }

    /// Pushes a node of the given size set in the current node by the alignments.
    pub fn aligned(
        &mut self,
        tree: &mut LayoutTree,
        width: Value,
        height: Value,
        ha: HorizontalAlignment,
        va: VerticalAlignment,
    )
        requires
            old(self).wf_in(*old(tree)),
            old(tree).wf(),
            old(tree).view_nodes().len() < usize::MAX,
        ensures
            final(tree).wf(),
            final(self).wf_in(*final(tree)),
            final(tree).view_nodes() == old(tree).view_nodes().push(
                LayoutTree::fresh(
                    Some(old(self).current_entity),
                    Some(
                        AsciiPosition::Aligned { width, height, horizontal: ha, vertical: va },
                    ),
                    None,
                ),
            ),
            final(self).current_entity == old(tree).view_nodes().len(),
    {
        self.push_from_pos(tree, AsciiPosition::aligned(width, height, ha, va));
    }
}

} // verus!
