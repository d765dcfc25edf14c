//! The button: how it is drawn, and how it answers the pointer.
use vstd::prelude::*;

use crate::bounds::{AsciiBounds, HorizontalAlignment, VerticalAlignment};
use crate::buffer::AsciiBuffer;
use crate::character::{AsciiCharacter, Color};
use crate::drawer::{AsciiBoxDrawer, AsciiTextDrawer};
use crate::style::{BorderType, TextOverflow};
use crate::surface::AsciiSurface;
use crate::text::text_lines;
use crate::tree::{shown, AsciiNode, LayoutTree};

verus! {

/// Where the pointer is on the character grid.
#[derive(Clone, Copy, Debug, PartialEq, Eq, Structural, Hash)]
pub enum AsciiCursor {
    At { x: u32, y: u32 },
    Away,
}

/// The pointer came over the node.
#[derive(Clone, Copy, Debug, PartialEq, Eq, Structural, Hash)]
pub struct AsciiComponentHoverEnteredEvent(pub usize);

/// The pointer left the node.
#[derive(Clone, Copy, Debug, PartialEq, Eq, Structural, Hash)]
pub struct AsciiComponentHoverExitedEvent(pub usize);

/// The node was clicked.
#[derive(Clone, Copy, Debug, PartialEq, Eq, Structural, Hash)]
pub struct AsciiComponentButtonClicked(pub usize);

/// The interface must be drawn again.
#[derive(Clone, Copy, Debug, PartialEq, Eq, Structural, Hash)]
pub struct AsciiMarkDirtyEvent;

/// What a button reports after looking at the pointer.
#[derive(Clone, Copy, Debug, PartialEq, Eq, Structural)]
pub struct ButtonEvents {
    pub hover_entered: Option<AsciiComponentHoverEnteredEvent>,
    pub hover_exited: Option<AsciiComponentHoverExitedEvent>,
    pub clicked: Option<AsciiComponentButtonClicked>,
    pub mark_dirty: Option<AsciiMarkDirtyEvent>,
}

impl ButtonEvents {
    /// No event.
    pub open spec fn quiet() -> ButtonEvents {
        ButtonEvents { hover_entered: None, hover_exited: None, clicked: None, mark_dirty: None }
    }

    /// The events of a button of node `entity` whose hover went from `was` to `now`:
    /// entering or leaving when it changed, which asks for a redraw, and a click
    /// when pressed while hovered.
    pub open spec fn between(was: bool, now: bool, just_pressed: bool, entity: usize) -> ButtonEvents {
        ButtonEvents {
            hover_entered: if now && !was {
                Some(AsciiComponentHoverEnteredEvent(entity))
            } else {
                None
            },
            hover_exited: if !now && was {
                Some(AsciiComponentHoverExitedEvent(entity))
            } else {
                None
            },
            clicked: if just_pressed && now {
                Some(AsciiComponentButtonClicked(entity))
            } else {
                None
            },
            mark_dirty: if now != was {
                Some(AsciiMarkDirtyEvent)
            } else {
                None
            },
        }
    }
}

/// A framed label that highlights while the pointer is over it.
pub struct AsciiButton {
    pub bg_color: Color,
    pub border_color: Color,
    pub text_color: Color,
    pub hover_bg_color: Color,
    pub hover_border_color: Color,
    pub hover_text_color: Color,
    pub is_hovering: bool,
    pub button_text: String,
}

impl AsciiButton {
    pub fn from_string(text: &str) -> (r: AsciiButton)
        ensures
            r.bg_color == Color::Black,
            r.border_color == Color::White,
            r.text_color == Color::White,
            r.hover_bg_color == Color::Grey,
            r.hover_border_color == Color::White,
            r.hover_text_color == Color::White,
            !r.is_hovering,
            r.button_text@ == text@,
    {
        AsciiButton {
            bg_color: Color::Black,
            border_color: Color::White,
            text_color: Color::White,
            hover_bg_color: Color::Grey,
            hover_border_color: Color::White,
            hover_text_color: Color::White,
            is_hovering: false,
            button_text: text.to_owned(),
        }
    }

    pub open spec fn current_bg(self) -> Color {
        if self.is_hovering {
            self.hover_bg_color
        } else {
            self.bg_color
        }
    }

    pub open spec fn current_border(self) -> Color {
        if self.is_hovering {
            self.hover_border_color
        } else {
            self.border_color
        }
    }

    pub open spec fn current_text(self) -> Color {
        if self.is_hovering {
            self.hover_text_color
        } else {
            self.text_color
        }
    }

    /// The frame: a full border over the whole buffer.
    pub open spec fn frame(self, buffer: AsciiBuffer) -> AsciiBoxDrawer {
        AsciiBoxDrawer {
            buffer,
            bg_color: self.current_bg(),
            border_color: self.current_border(),
            title_color: Color::Black,
            title_bg_color: None,
            title: None,
            title_alignment: HorizontalAlignment::Left,
            title_overflow: TextOverflow::Hidden,
            border: BorderType::Full,
        }
    }

    /// The label: the button's text centred inside the frame.
    pub open spec fn label(self, inner: AsciiBuffer) -> AsciiTextDrawer {
        AsciiTextDrawer {
            buffer: inner,
            text: self.button_text,
            text_color: self.current_text(),
            bg_color: self.current_bg(),
            horizontal_alignment: HorizontalAlignment::Center,
            vertical_alignment: VerticalAlignment::Center,
            overflow: TextOverflow::Hidden,
            should_wrap: false,
        }
    }

    /// The cells of a grid `columns` wide once the button is drawn over `cells`
    /// through `buffer`: the frame, then the label inside it.
    pub open spec fn rendered(
        self,
        buffer: AsciiBuffer,
        cells: Seq<AsciiCharacter>,
        columns: u32,
    ) -> Seq<AsciiCharacter> {
        let framed = buffer.painted_over(cells, columns, self.frame(buffer).drawing());
        match self.frame(buffer).inner() {
            Some(inner) => inner.painted_over(
                framed,
                columns,
                self.label(inner).drawing_of(text_lines(self.button_text@)),
            ),
            None => framed,
        }
    }

    /// Draws the frame, then the label inside it, in the hover colours while the
    /// pointer is over the button.
    pub fn render(&self, buffer: &AsciiBuffer, surface: &mut AsciiSurface)
        requires
            old(surface).wf(),
        ensures
            final(surface).wf(),
            final(surface).columns() == old(surface).columns(),
            final(surface).rows() == old(surface).rows(),
            final(surface).cells() == self.rendered(
                *buffer,
                old(surface).cells(),
                old(surface).columns(),
            ),
    {
        let bg = if self.is_hovering {
            self.hover_bg_color
        } else {
            self.bg_color
        };
        let border = if self.is_hovering {
            self.hover_border_color
        } else {
            self.border_color
        };
        let text = if self.is_hovering {
            self.hover_text_color
        } else {
            self.text_color
        };
        let frame = buffer.square().border(BorderType::Full).bg_color(bg).border_color(border);
        assert(frame == self.frame(*buffer));
        if let Some(inner) = frame.draw(surface) {
            let label = inner.text(self.button_text.as_str()).vertical_alignment(
                VerticalAlignment::Center,
            ).horizontal_alignment(HorizontalAlignment::Center).text_color(text).bg_color(bg);
            let ghost mid = *surface;
            let ghost drawn_label = label;
            label.draw(surface);
            proof {
                let lines = text_lines(self.button_text@);
                assert(drawn_label.lines() == lines);
                assert forall|x: int, y: int|
                    #[trigger] drawn_label.drawing_of(lines)(x, y) == self.label(inner).drawing_of(
                        lines,
                    )(x, y) by {
                    assert(drawn_label.text_cell(lines, x, y) == self.label(inner).text_cell(
                        lines,
                        x,
                        y,
                    ));
                }
                inner.lemma_paint_over_same(
                    mid.cells(),
                    mid.columns(),
                    drawn_label.drawing_of(lines),
                    self.label(inner).drawing_of(lines),
                );
            }
        }
    }

    /// Whether the pointer is over `bounds`.
    pub open spec fn pointed(cursor: AsciiCursor, bounds: AsciiBounds) -> bool {
        match cursor {
            AsciiCursor::At { x, y } => bounds.contains(x as int, y as int),
            AsciiCursor::Away => false,
        }
    }

    /// Whether the button is hovered once it has seen `cursor`: a pointer on the
    /// grid decides, a pointer away from it changes nothing.
    pub open spec fn hover_after(self, cursor: AsciiCursor, bounds: AsciiBounds) -> bool {
        match cursor {
            AsciiCursor::At { .. } => AsciiButton::pointed(cursor, bounds),
            AsciiCursor::Away => self.is_hovering,
        }
    }

    /// Looks at the pointer: a pointer on the grid sets whether the button is
    /// hovered, reporting when that changes; a press while hovered is a click.
    pub fn update(
        &mut self,
        cursor: &AsciiCursor,
        just_pressed: bool,
        bounds: &AsciiBounds,
        entity: usize,
    ) -> (r: ButtonEvents)
        ensures
            *final(self) == (AsciiButton {
                is_hovering: old(self).hover_after(*cursor, *bounds),
                ..*old(self)
            }),
            r == ButtonEvents::between(
                old(self).is_hovering,
                final(self).is_hovering,
                just_pressed,
                entity,
            ),
    {
        let mut events = ButtonEvents {
            hover_entered: None,
            hover_exited: None,
            clicked: None,
            mark_dirty: None,
        };
        if let AsciiCursor::At { x, y } = cursor {
            let inside = bounds.x as i64 <= *x as i64 && *x as i64 <= bounds.x as i64
                + bounds.width as i64 && bounds.y as i64 <= *y as i64 && *y as i64 <= bounds.y as i64
                + bounds.height as i64;
            if inside {
                if !self.is_hovering {
                    events.hover_entered = Some(AsciiComponentHoverEnteredEvent(entity));
                    events.mark_dirty = Some(AsciiMarkDirtyEvent);
                }
                self.is_hovering = true;
            } else {
                if self.is_hovering {
                    events.hover_exited = Some(AsciiComponentHoverExitedEvent(entity));
                    events.mark_dirty = Some(AsciiMarkDirtyEvent);
                }
                self.is_hovering = false;
            }
        }
        if just_pressed && self.is_hovering {
            events.clicked = Some(AsciiComponentButtonClicked(entity));
        }
        events
    }
}

/// The cells once each component whose node is in the tree and shown is drawn
/// over the buffer of its node's rectangle, in order, the first `k` of them.
pub open spec fn ui_rendered(
    nodes: Seq<AsciiNode>,
    components: Seq<(usize, AsciiButton)>,
    cells: Seq<AsciiCharacter>,
    columns: u32,
    k: int,
) -> Seq<AsciiCharacter>
    decreases k,
{
    if k <= 0 {
        cells
    } else {
        let prev = ui_rendered(nodes, components, cells, columns, k - 1);
        let (id, button) = components[k - 1];
        if id < nodes.len() && shown(nodes, id as int) {
            button.rendered(
                AsciiBuffer { bounds: nodes[id as int].global.bounds, clip_bounds: None },
                prev,
                columns,
            )
        } else {
            prev
        }
    }
}

/// Draws every component whose node is shown into the node's rectangle, in the
/// order given; hidden nodes and nodes not in the tree are left out.
pub fn extract_ascii_ui(
    tree: &LayoutTree,
    surface: &mut AsciiSurface,
    components: &Vec<(usize, AsciiButton)>,
)
    requires
        tree.wf(),
        old(surface).wf(),
    ensures
        final(surface).wf(),
        final(surface).columns() == old(surface).columns(),
        final(surface).rows() == old(surface).rows(),
        final(surface).cells() == ui_rendered(
            tree.view_nodes(),
            components@,
            old(surface).cells(),
            old(surface).columns(),
            components@.len() as int,
        ),
{
    let ghost start = *surface;
    for k in 0..components.len()
        invariant
            tree.wf(),
            surface.wf(),
            surface.columns() == start.columns(),
            surface.rows() == start.rows(),
            surface.cells() == ui_rendered(
                tree.view_nodes(),
                components@,
                start.cells(),
                start.columns(),
                k as int,
            ),
    {
        let (id, button) = &components[k];
        if *id < tree.len() && tree.is_visible(*id) {
            let bounds = tree.bounds(*id).unwrap();
            let buffer = AsciiBuffer::new(&bounds, None);
            button.render(&buffer, surface);
        }
    }
}

/// Lets every component whose node is shown look at the pointer, with its
/// node's rectangle; the others are left as they are and report nothing.
pub fn update_components(
    tree: &LayoutTree,
    components: &mut Vec<(usize, AsciiButton)>,
    cursor: &AsciiCursor,
    just_pressed: bool,
) -> (r: Vec<ButtonEvents>)
    requires
        tree.wf(),
    ensures
        final(components)@.len() == old(components)@.len(),
        r@.len() == old(components)@.len(),
        forall|k: int|
            0 <= k < r@.len() ==> {
                let (id, button) = #[trigger] old(components)@[k];
                if id < tree.view_nodes().len() && shown(tree.view_nodes(), id as int) {
                    let bounds = tree.view_nodes()[id as int].global.bounds;
                    &&& final(components)@[k] == (
                        id,
                        AsciiButton { is_hovering: button.hover_after(*cursor, bounds), ..button },
                    )
                    &&& r@[k] == ButtonEvents::between(
                        button.is_hovering,
                        button.hover_after(*cursor, bounds),
                        just_pressed,
                        id,
                    )
                } else {
                    &&& final(components)@[k] == old(components)@[k]
                    &&& r@[k] == ButtonEvents::quiet()
                }
            },
{
    let mut events: Vec<ButtonEvents> = Vec::new();
    let n = components.len();
    for k in 0..n
        invariant
            tree.wf(),
            n == old(components)@.len(),
            components@.len() == n,
            events@.len() == k,
            forall|j: int| k <= j < n ==> components@[j] == old(components)@[j],
            forall|j: int|
                0 <= j < k ==> {
                    let (id, button) = #[trigger] old(components)@[j];
                    if id < tree.view_nodes().len() && shown(tree.view_nodes(), id as int) {
                        let bounds = tree.view_nodes()[id as int].global.bounds;
                        &&& components@[j] == (
                            id,
                            AsciiButton { is_hovering: button.hover_after(*cursor, bounds), ..button },
                        )
                        &&& events@[j] == ButtonEvents::between(
                            button.is_hovering,
                            button.hover_after(*cursor, bounds),
                            just_pressed,
                            id,
                        )
                    } else {
                        &&& components@[j] == old(components)@[j]
                        &&& events@[j] == ButtonEvents::quiet()
                    }
                },
    {
        let id = components[k].0;
        if id < tree.len() && tree.is_visible(id) {
            let bounds = tree.bounds(id).unwrap();
            let e = components[k].1.update(cursor, just_pressed, &bounds, id);
            events.push(e);
        } else {
            events.push(
                ButtonEvents { hover_entered: None, hover_exited: None, clicked: None, mark_dirty: None },
            );
        }
    }
    events
}

} // verus!
