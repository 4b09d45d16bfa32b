//! A node as one canvas shows it: where it stands, whether it is
//! selected, and how far an unfinished drag has carried it.

use crate::draw::{
    DrawCommand, BLACK, FONT_SIZE, ROUNDED_RECT_BORDER_RADIUS, ROUNDED_RECT_RADIUS,
    WRAPPED_NODE_BORDER_COLOR, WRAPPED_NODE_BORDER_SIZE, WRAPPED_NODE_COLOR, WRAPPED_NODE_PADDING,
    WRAPPED_NODE_SELECTED_COLOR,
};
use crate::geometry::{
    clamp_coord, lemma_ratio_up_bounds, magnitude, project, project_coord, ratio_up, saturate,
    Point, Rect, RoundedRect, Scale,
};
use crate::node::{Node, NodeStore, NodeStoreState};
use vstd::prelude::*;

verus! {

/// A positioned decoration of the node `node_id`. `linked` tells
/// whether that node was found when the wrapper was made or loaded: a
/// wrapper that is not linked is neither shown nor hit. `position` is
/// where the node stands on the canvas; `offset` is added to where it
/// shows while a drag is under way; `cached_bounds` is the text box and
/// scale of the last drawing.
#[derive(Clone, Copy, Debug)]
pub struct NodeWrapper {
    pub node_id: i64,
    pub linked: bool,
    pub position: (i32, i32),
    pub selected: bool,
    pub cached_bounds: (Rect, Scale),
    pub offset: Point,
}

/// The cached bounds of a wrapper that was never drawn.
pub open spec fn spec_default_cached_bounds() -> (Rect, Scale) {
    (
        Rect { top_left: Point { x: 0, y: 0 }, bottom_right: Point { x: 0, y: 0 } },
        Scale { num: 0, den: 1 },
    )
}

/// A rectangle grown by `margin` on all four sides, clamped to the range.
pub open spec fn spec_expanded(anchor: Point, size: Point, margin: int) -> Rect {
    Rect {
        top_left: Point {
            x: clamp_coord(anchor.x - margin) as i32,
            y: clamp_coord(anchor.y - margin) as i32,
        },
        bottom_right: Point {
            x: clamp_coord(anchor.x + size.x + margin) as i32,
            y: clamp_coord(anchor.y + size.y + margin) as i32,
        },
    }
}

/// The rectangle from `anchor` to `anchor + size`, grown by `margin` on
/// all four sides.
pub fn expanded(anchor: Point, size: Point, margin: i32) -> (rect: Rect)
    ensures
        rect == spec_expanded(anchor, size, margin as int),
{
    Rect {
        top_left: Point {
            x: saturate(anchor.x as i128 - margin as i128),
            y: saturate(anchor.y as i128 - margin as i128),
        },
        bottom_right: Point {
            x: saturate(anchor.x as i128 + size.x as i128 + margin as i128),
            y: saturate(anchor.y as i128 + size.y as i128 + margin as i128),
        },
    }
}

impl NodeWrapper {
    /// Where the wrapper's text starts on screen, and the scale of its
    /// content, when the area `from` is shown as `to`. The position is
    /// laid from `from` over `to` on each axis and the drag offset added;
    /// the scale is the ratio of the two heights.
    pub open spec fn spec_translation(self, from: Rect, to: Rect) -> (Point, Scale) {
        (
            Point {
                x: clamp_coord(
                    project(
                        self.position.0 as int,
                        from.top_left.x as int,
                        from.spec_width(),
                        to.top_left.x as int,
                        to.spec_width(),
                    ) + self.offset.x,
                ) as i32,
                y: clamp_coord(
                    project(
                        self.position.1 as int,
                        from.top_left.y as int,
                        from.spec_height(),
                        to.top_left.y as int,
                        to.spec_height(),
                    ) + self.offset.y,
                ) as i32,
            },
            Scale { num: to.spec_height() as i64, den: from.spec_height() as i64 },
        )
    }

    /// The wrapper's bounds on screen for a text of size `text_size`: the
    /// text box grown by the scaled border and padding.
    pub open spec fn spec_bounds(self, from: Rect, to: Rect, text_size: Point) -> Rect {
        let (anchor, scale) = self.spec_translation(from, to);
        spec_expanded(
            anchor,
            text_size,
            scale.spec_apply(WRAPPED_NODE_BORDER_SIZE + WRAPPED_NODE_PADDING),
        )
    }

    /// Whether `point` hits the wrapper: it does where the wrapper is
    /// linked and the point lies in its bounds.
    pub open spec fn spec_hit(self, from: Rect, to: Rect, text_size: Point, point: Point) -> bool {
        self.linked && self.spec_bounds(from, to, text_size).spec_contains(point)
    }

    /// The wrapper after a drawing cached its text box and scale.
    pub open spec fn after_draw(self, from: Rect, to: Rect, text_size: Point) -> NodeWrapper {
        let (anchor, scale) = self.spec_translation(from, to);
        NodeWrapper {
            cached_bounds: (Rect { top_left: anchor, bottom_right: anchor.sum(text_size) }, scale),
            ..self
        }
    }

    /// What the wrapper draws: its border, its background in the colour
    /// that tells whether it is selected, and its text.
    pub open spec fn spec_draw(self, from: Rect, to: Rect, text_size: Point) -> Seq<DrawCommand> {
        let (anchor, scale) = self.spec_translation(from, to);
        seq![
            DrawCommand::RoundedRectangle {
                rect: self.spec_bounds(from, to, text_size),
                radius: scale.spec_apply(ROUNDED_RECT_BORDER_RADIUS as int) as i32,
                color: WRAPPED_NODE_BORDER_COLOR,
            },
            DrawCommand::RoundedRectangle {
                rect: spec_expanded(anchor, text_size, scale.spec_apply(WRAPPED_NODE_PADDING as int)),
                radius: scale.spec_apply(ROUNDED_RECT_RADIUS as int) as i32,
                color: if self.selected {
                    WRAPPED_NODE_SELECTED_COLOR
                } else {
                    WRAPPED_NODE_COLOR
                },
            },
            DrawCommand::Text {
                position: anchor,
                node_id: self.node_id,
                font_size: scale.spec_apply(FONT_SIZE as int) as i32,
                color: BLACK,
            },
        ]
    }

    /// The wrapper after its drag offset was made permanent.
    pub open spec fn merged(self) -> NodeWrapper {
        NodeWrapper {
            position: (
                clamp_coord(self.position.0 + self.offset.x) as i32,
                clamp_coord(self.position.1 + self.offset.y) as i32,
            ),
            offset: Point { x: 0, y: 0 },
            ..self
        }
    }

    /// A wrapper for `node` at `position`: linked, unselected, not
    /// dragged, never drawn.
    pub fn new(node: &Node, position: (i32, i32)) -> (wrapper: NodeWrapper)
        ensures
            wrapper == NodeWrapper::for_id_spec(node@.id as i64, position),
    {
        NodeWrapper::for_id(node.get_id(), position)
    }

    /// A wrapper for the node `node_id` at `position`: linked,
    /// unselected, not dragged, never drawn.
    pub fn for_id(node_id: i64, position: (i32, i32)) -> (wrapper: NodeWrapper)
        ensures
            wrapper == NodeWrapper::for_id_spec(node_id, position),
    {
        NodeWrapper {
            node_id,
            linked: true,
            position,
            selected: false,
            cached_bounds: (Rect::zero(), Scale::none()),
            offset: Point::zero(),
        }
    }

    /// A wrapper for `node` that stands where `position` lands when the
    /// area `from` is shown as `to`.
    pub fn new_from_viewport(node: &Node, position: (i32, i32), from: &Rect, to: &Rect) -> (wrapper:
        NodeWrapper)
        ensures
            wrapper == (NodeWrapper {
                position: (
                    NodeWrapper::for_id_spec(node@.id as i64, position).spec_translation(
                        *from,
                        *to,
                    ).0.x,
                    NodeWrapper::for_id_spec(node@.id as i64, position).spec_translation(
                        *from,
                        *to,
                    ).0.y,
                ),
                ..NodeWrapper::for_id_spec(node@.id as i64, position)
            }),
    {
        let mut wrapper = NodeWrapper::new(node, position);
        let (anchor, _) = wrapper.translation(from, to);
        wrapper.set_position((anchor.x, anchor.y));
        wrapper
    }

    /// The wrapper that `for_id` makes.
    pub open spec fn for_id_spec(node_id: i64, position: (i32, i32)) -> NodeWrapper {
        NodeWrapper {
            node_id,
            linked: true,
            position,
            selected: false,
            cached_bounds: spec_default_cached_bounds(),
            offset: Point { x: 0, y: 0 },
        }
    }

    pub fn set_position(&mut self, position: (i32, i32))
        ensures
            *final(self) == (NodeWrapper { position, ..*old(self) }),
    {
        self.position = position;
    }

    pub fn set_offset(&mut self, offset: Point)
        ensures
            *final(self) == (NodeWrapper { offset, ..*old(self) }),
    {
        self.offset = offset;
    }

    pub fn get_position(&self) -> (position: (i32, i32))
        ensures
            position == self.position,
    {
        self.position
    }

    /// Adds the drag offset to the position and clears it.
    pub fn merge_offset(&mut self)
        ensures
            *final(self) == old(self).merged(),
    {
        self.position = (
            saturate(self.position.0 as i128 + self.offset.x as i128),
            saturate(self.position.1 as i128 + self.offset.y as i128),
        );
        self.offset = Point::zero();
    }

    pub fn toggle_selected(&mut self)
        ensures
            *final(self) == (NodeWrapper { selected: !old(self).selected, ..*old(self) }),
    {
        self.selected = !self.selected;
    }

    /// Links the wrapper to `node`.
    pub fn set_linked_node(&mut self, node: &Node)
        ensures
            *final(self) == (NodeWrapper { node_id: node@.id as i64, linked: true, ..*old(self) }),
    {
        self.node_id = node.get_id();
        self.linked = true;
    }

    /// A wrapper as it is loaded for the stored id `node_id` and
    /// `position`: linked where `store` holds a node of that id.
    pub fn relinked(node_id: i64, position: (i32, i32), store: &NodeStore) -> (wrapper: NodeWrapper)
        ensures
            wrapper == NodeWrapper::relinked_spec(node_id, position, store@),
    {
        let mut wrapper = NodeWrapper::for_id(node_id, position);
        wrapper.linked = store.find(node_id).is_some();
        wrapper
    }

    /// The wrapper that `relinked` makes.
    pub open spec fn relinked_spec(
        node_id: i64,
        position: (i32, i32),
        store: NodeStoreState,
    ) -> NodeWrapper {
        NodeWrapper {
            linked: store.position_of(node_id as int) is Some,
            ..NodeWrapper::for_id_spec(node_id, position)
        }
    }

    /// The wrapper's node: the first node of `store` with its id, and
    /// `None` where the store holds none.
    pub fn get_node<'a>(&self, store: &'a NodeStore) -> (node: Option<&'a Node>)
        ensures
            match node {
                Some(found) => store@.position_of(self.node_id as int) is Some && found@
                    == store@.nodes[store@.position_of(self.node_id as int)->0],
                None => store@.position_of(self.node_id as int) is None,
            },
    {
        match store.find(self.node_id) {
            Some(index) => Some(store.get(index)),
            None => None,
        }
    }

    pub fn get_node_id(&self) -> (id: i64)
        ensures
            id == self.node_id,
    {
        self.node_id
    }

    pub fn get_cached_bounds(&self) -> (bounds: &(Rect, Scale))
        ensures
            *bounds == self.cached_bounds,
    {
        &self.cached_bounds
    }

    /// Where the wrapper's text starts on screen, and the scale of its
    /// content, when the area `from` is shown as `to`.
    pub fn translation(&self, from: &Rect, to: &Rect) -> (placed: (Point, Scale))
        ensures
            placed == self.spec_translation(*from, *to),
    {
        let x: i128 = project_coord(
            self.position.0,
            from.left(),
            from.width(),
            to.left(),
            to.width(),
        );
        let y: i128 = project_coord(
            self.position.1,
            from.top(),
            from.height(),
            to.top(),
            to.height(),
        );
        (
            Point { x: saturate(x + self.offset.x as i128), y: saturate(y + self.offset.y as i128) },
            Scale { num: to.height(), den: from.height() },
        )
    }

    /// The wrapper's bounds on screen for a text that measures
    /// `text_size` at the wrapper's scale.
    pub fn calculate_bounds(&self, from: &Rect, to: &Rect, text_size: Point) -> (bounds:
        RoundedRect)
        ensures
            bounds.rect == self.spec_bounds(*from, *to, text_size),
            bounds.radius == ROUNDED_RECT_BORDER_RADIUS,
    {
        let (anchor, scale) = self.translation(from, to);
        let margin: i32 = scale.apply(WRAPPED_NODE_BORDER_SIZE + WRAPPED_NODE_PADDING);
        RoundedRect { rect: expanded(anchor, text_size, margin), radius: ROUNDED_RECT_BORDER_RADIUS }
    }

    /// Caches the text box and scale, and returns the drawing requests of
    /// the wrapper for a text that measures `text_size` at its scale.
    pub fn draw(&mut self, from: &Rect, to: &Rect, text_size: Point) -> (commands: Vec<DrawCommand>)
        ensures
            *final(self) == old(self).after_draw(*from, *to, text_size),
            commands@ == old(self).spec_draw(*from, *to, text_size),
    {
        let (anchor, scale) = self.translation(from, to);
        let outer = expanded(
            anchor,
            text_size,
            scale.apply(WRAPPED_NODE_BORDER_SIZE + WRAPPED_NODE_PADDING),
        );
        let inner = expanded(anchor, text_size, scale.apply(WRAPPED_NODE_PADDING));
        self.cached_bounds = (Rect { top_left: anchor, bottom_right: anchor.plus(text_size) }, scale);
        let mut commands: Vec<DrawCommand> = Vec::new();
        commands.push(
            DrawCommand::RoundedRectangle {
                rect: outer,
                radius: scale.apply(ROUNDED_RECT_BORDER_RADIUS),
                color: WRAPPED_NODE_BORDER_COLOR,
            },
        );
        commands.push(
            DrawCommand::RoundedRectangle {
                rect: inner,
                radius: scale.apply(ROUNDED_RECT_RADIUS),
                color: if self.selected {
                    WRAPPED_NODE_SELECTED_COLOR
                } else {
                    WRAPPED_NODE_COLOR
                },
            },
        );
        commands.push(
            DrawCommand::Text {
                position: anchor,
                node_id: self.node_id,
                font_size: scale.apply(FONT_SIZE),
                color: BLACK,
            },
        );
        proof {
            assert(commands@ =~= old(self).spec_draw(*from, *to, text_size));
        }
        commands
    }
}

/// The point where a wrapper's text starts on screen lies within the
/// wrapper's bounds, at any scale above zero, for a text of any size that
/// is not negative, unless the point lies on the last coordinate of the
/// range on either axis.
pub proof fn lemma_anchor_within_bounds(wrapper: NodeWrapper, from: Rect, to: Rect, text_size: Point)
    requires
        wrapper.spec_translation(from, to).1.is_positive(),
        text_size.x >= 0,
        text_size.y >= 0,
        wrapper.spec_translation(from, to).0.x < i32::MAX,
        wrapper.spec_translation(from, to).0.y < i32::MAX,
    ensures
        wrapper.spec_bounds(from, to, text_size).spec_contains(wrapper.spec_translation(from, to).0),
        wrapper.linked ==> wrapper.spec_hit(
            from,
            to,
            text_size,
            wrapper.spec_translation(from, to).0,
        ),
{
    let (anchor, scale) = wrapper.spec_translation(from, to);
    let reach = (WRAPPED_NODE_BORDER_SIZE + WRAPPED_NODE_PADDING) * scale.num;
    assert(WRAPPED_NODE_BORDER_SIZE + WRAPPED_NODE_PADDING == 26);
    assert(reach == 26 * scale.num);
    assert(magnitude(reach) >= 1);
    lemma_ratio_up_bounds(magnitude(reach), magnitude(scale.den as int));
    assert((reach >= 0) == (scale.den > 0));
    assert(ratio_up(reach, scale.den as int) >= 1);
}

} // verus!
