//! The node canvas: a list of wrappers under an animated viewport, and
//! the handlers that turn pointer and keyboard events into selection,
//! dragging, panning, zooming, editing, creation and deletion.
//!
//! Text is measured by whoever owns the font. The handlers that need the
//! bounds of the wrappers take `sizes`, the measured size of each
//! wrapper's text at the current content scale, in the order of the
//! wrappers; a wrapper without an entry counts as having no text.
//!
//! A wrapper whose node was not found when it was loaded stays on the
//! canvas, but is neither shown nor hit.

use crate::draw::{DrawCommand, BACKGROUND_COLOR, BLACK, BLUE, SELECTION_RECTANGLE_COLOR};
use crate::generic_node_editor::GenericNodeEditor;
use crate::geometry::{clamp_coord, project, project_coord, saturate, Point, Rect, Scale};
use crate::input::{Key, MouseButton, MousePosition, MouseScrollDistance, DELETE};
use crate::node::{Node, NodeStore, NodeStoreState};
use crate::viewport::{
    lemma_lerp_step, lerp_rect, lerp_repeated, spec_lerp_rect, spec_zoom, zoom,
};
use crate::wrapped_node::NodeWrapper;
use vstd::prelude::*;
use vstd::string::*;

verus! {

/// The canvas. Its sub-states are independent: `drag_vector` is set
/// while the view is panned (where the pan began, and how far it went),
/// `are_we_moving_nodes` while nodes are dragged (where the drag began,
/// and whether the pointer has yet to move), `selection_rectangle` while a
/// rectangle is drawn (its two corners), `node_editor` while a node's text
/// is edited.
#[derive(Debug)]
pub struct GenericNodeContainer {
    pub wrapped_nodes: Vec<NodeWrapper>,
    pub viewport: Rect,
    pub original_viewport: Rect,
    pub pivot: Point,
    pub node_editor: Option<GenericNodeEditor>,
    pub target_viewport: Rect,
    pub drag_vector: Option<(Point, Point)>,
    pub are_we_moving_nodes: Option<(Point, bool)>,
    pub selection_rectangle: Option<(Point, Point)>,
}

/// What a key combination can be bound to.
#[derive(Clone, Copy, Debug, PartialEq, Eq, Structural)]
pub enum BoundAction {
    /// Select every node of the canvas.
    SelectAll,
}

/// A key combination and what pressing it does.
#[derive(Debug)]
pub struct KeyBinding {
    pub keys: Vec<Key>,
    pub action: BoundAction,
}

/// The state of a canvas, as mathematical values.
pub struct ContainerState {
    pub wrapped_nodes: Seq<NodeWrapper>,
    pub viewport: Rect,
    pub original_viewport: Rect,
    pub pivot: Point,
    pub node_editor: Option<GenericNodeEditor>,
    pub target_viewport: Rect,
    pub drag_vector: Option<(Point, Point)>,
    pub are_we_moving_nodes: Option<(Point, bool)>,
    pub selection_rectangle: Option<(Point, Point)>,
}

impl View for GenericNodeContainer {
    type V = ContainerState;

    open spec fn view(&self) -> ContainerState {
        ContainerState {
            wrapped_nodes: self.wrapped_nodes@,
            viewport: self.viewport,
            original_viewport: self.original_viewport,
            pivot: self.pivot,
            node_editor: self.node_editor,
            target_viewport: self.target_viewport,
            drag_vector: self.drag_vector,
            are_we_moving_nodes: self.are_we_moving_nodes,
            selection_rectangle: self.selection_rectangle,
        }
    }
}

/// The measured text size of the wrapper at `index`.
pub open spec fn size_at(sizes: Seq<Point>, index: int) -> Point {
    if 0 <= index < sizes.len() {
        sizes[index]
    } else {
        Point { x: 0, y: 0 }
    }
}

/// A wrapper with its selection flag set to `selected`.
pub open spec fn with_selected(wrapper: NodeWrapper, selected: bool) -> NodeWrapper {
    NodeWrapper { selected, ..wrapper }
}

/// The ids of the nodes of the selected wrappers, in order.
pub open spec fn selected_ids(wrappers: Seq<NodeWrapper>) -> Seq<i64> {
    wrappers.filter(|w: NodeWrapper| w.selected).map_values(|w: NodeWrapper| w.node_id)
}

impl ContainerState {
    /// The selection rectangle as it is being drawn, and the empty
    /// rectangle at the origin where none is.
    pub open spec fn drawn_rectangle(self) -> Rect {
        match self.selection_rectangle {
            Some((start, end)) => Rect { top_left: start, bottom_right: end },
            None => Rect { top_left: Point { x: 0, y: 0 }, bottom_right: Point { x: 0, y: 0 } },
        }
    }

    /// Where the drag of nodes under way began, and the origin where
    /// none is under way.
    pub open spec fn drag_origin(self) -> Point {
        match self.are_we_moving_nodes {
            Some((start, _)) => start,
            None => Point { x: 0, y: 0 },
        }
    }

    /// The bounds on screen of the wrapper at `index`.
    pub open spec fn bounds_of(self, sizes: Seq<Point>, index: int) -> Rect {
        self.wrapped_nodes[index].spec_bounds(
            self.original_viewport,
            self.viewport,
            size_at(sizes, index),
        )
    }

    /// Whether `point` hits the wrapper at `index`: it does where the
    /// wrapper is linked and the point lies in its bounds.
    pub open spec fn hit(self, sizes: Seq<Point>, point: Point, index: int) -> bool {
        self.wrapped_nodes[index].linked && self.bounds_of(sizes, index).spec_contains(point)
    }

    /// Whether the normalized `rectangle` takes in the wrapper at
    /// `index`: it does where the wrapper is linked and both corners of its
    /// bounds lie inside.
    pub open spec fn enclosed_by(self, sizes: Seq<Point>, rectangle: Rect, index: int) -> bool {
        self.wrapped_nodes[index].linked && rectangle.spec_normalized().spec_encloses(
            self.bounds_of(sizes, index),
        )
    }

    /// How many of the first `n` wrappers `point` hits.
    pub open spec fn hit_count(self, sizes: Seq<Point>, point: Point, n: int) -> int
        decreases n,
    {
        if n <= 0 {
            0
        } else {
            self.hit_count(sizes, point, n - 1) + if self.hit(sizes, point, n - 1) {
                1int
            } else {
                0int
            }
        }
    }

    /// The position of the first wrapper from `start` on that `point`
    /// hits, and the number of wrappers where it hits none.
    pub open spec fn first_hit(self, sizes: Seq<Point>, point: Point, start: int) -> int
        decreases self.wrapped_nodes.len() - start,
    {
        if start >= self.wrapped_nodes.len() {
            self.wrapped_nodes.len() as int
        } else if self.hit(sizes, point, start) {
            start
        } else {
            self.first_hit(sizes, point, start + 1)
        }
    }

    /// The content scale: the height of the viewport over the height of
    /// the physical area.
    pub open spec fn content_scale(self) -> Scale {
        Scale {
            num: self.viewport.spec_height() as i64,
            den: self.original_viewport.spec_height() as i64,
        }
    }

    /// The canvas point that shows at the screen point `point`.
    pub open spec fn unprojected(self, point: Point) -> (i32, i32) {
        (
            clamp_coord(
                project(
                    point.x as int,
                    self.viewport.top_left.x as int,
                    self.viewport.spec_width(),
                    self.original_viewport.top_left.x as int,
                    self.original_viewport.spec_width(),
                ),
            ) as i32,
            clamp_coord(
                project(
                    point.y as int,
                    self.viewport.top_left.y as int,
                    self.viewport.spec_height(),
                    self.original_viewport.top_left.y as int,
                    self.original_viewport.spec_height(),
                ),
            ) as i32,
        )
    }

    /// The wrappers after each one that `point` hits had its selection
    /// flag flipped.
    pub open spec fn hits_toggled(self, sizes: Seq<Point>, point: Point) -> Seq<NodeWrapper> {
        Seq::new(
            self.wrapped_nodes.len(),
            |i: int|
                if self.hit(sizes, point, i) {
                    with_selected(self.wrapped_nodes[i], !self.wrapped_nodes[i].selected)
                } else {
                    self.wrapped_nodes[i]
                },
        )
    }

    /// The wrappers after each one that `point` hits was selected.
    pub open spec fn hits_selected(self, sizes: Seq<Point>, point: Point) -> Seq<NodeWrapper> {
        Seq::new(
            self.wrapped_nodes.len(),
            |i: int|
                if self.hit(sizes, point, i) {
                    with_selected(self.wrapped_nodes[i], true)
                } else {
                    self.wrapped_nodes[i]
                },
        )
    }

    /// The canvas and the store after a button went down at `position`.
    ///
    /// The middle button begins a pan. The left button begins a selection
    /// rectangle and ends any editing where it hits nothing, and begins a
    /// drag where it hits a wrapper; then a single click flips the
    /// selection of every wrapper hit. A double click that hits exactly one
    /// wrapper opens the editor on it and selects it; one that hits nothing
    /// creates a node under the pointer, if an id is left; one that hits
    /// several wrappers does no more than begin the drag. Other buttons and
    /// click counts change nothing more.
    pub open spec fn after_mouse_down(
        self,
        store: NodeStoreState,
        sizes: Seq<Point>,
        position: Point,
        click_count: i32,
        button: MouseButton,
        now: u64,
    ) -> (ContainerState, NodeStoreState) {
        let count = self.hit_count(sizes, position, self.wrapped_nodes.len() as int);
        match button {
            MouseButton::Middle => (
                ContainerState { drag_vector: Some((position, Point { x: 0, y: 0 })), ..self },
                store,
            ),
            MouseButton::Left => {
                let begun = if count == 0 {
                    ContainerState {
                        selection_rectangle: Some((position, position)),
                        node_editor: None,
                        ..self
                    }
                } else {
                    ContainerState { are_we_moving_nodes: Some((position, true)), ..self }
                };
                if click_count == 1 {
                    (
                        ContainerState { wrapped_nodes: self.hits_toggled(sizes, position), ..begun },
                        store,
                    )
                } else if click_count == 2 {
                    if count == 1 {
                        let index = self.first_hit(sizes, position, 0);
                        let wrapper = self.wrapped_nodes[index];
                        (
                            ContainerState {
                                wrapped_nodes: self.wrapped_nodes.update(
                                    index,
                                    with_selected(wrapper, true),
                                ),
                                node_editor: Some(
                                    GenericNodeEditor {
                                        node_id: wrapper.node_id,
                                        cursor_index: store.content_of(
                                            wrapper.node_id as int,
                                        ).len() as usize,
                                        selection: None,
                                        last_blink: now,
                                        selecting: false,
                                    },
                                ),
                                ..begun
                            },
                            store,
                        )
                    } else if count != 0 || store.next_id > i64::MAX as int {
                        (begun, store)
                    } else {
                        (
                            ContainerState {
                                wrapped_nodes: self.wrapped_nodes.push(
                                    NodeWrapper::for_id_spec(
                                        store.next_id as i64,
                                        self.unprojected(position),
                                    ),
                                ),
                                ..begun
                            },
                            store.registered("new node"@, "Generic Node Container"@),
                        )
                    }
                } else {
                    (begun, store)
                }
            },
            _ => (self, store),
        }
    }

    /// The wrappers after a rectangle selection over `rectangle`: each
    /// wrapper that the normalized rectangle takes in is selected, the
    /// others keep their flag.
    pub open spec fn rectangle_selected(self, sizes: Seq<Point>, rectangle: Rect) -> Seq<NodeWrapper> {
        Seq::new(
            self.wrapped_nodes.len(),
            |i: int|
                if self.enclosed_by(sizes, rectangle, i) {
                    with_selected(self.wrapped_nodes[i], true)
                } else {
                    self.wrapped_nodes[i]
                },
        )
    }

    /// The canvas after a button went up.
    ///
    /// The middle button ends a pan and moves the target viewport by the
    /// panned vector. The left button ends a selection rectangle, which
    /// selects the wrappers inside it, then makes the drag offset of every
    /// selected wrapper permanent, and ends the drag.
    pub open spec fn after_mouse_up(self, sizes: Seq<Point>, button: MouseButton) -> ContainerState {
        match button {
            MouseButton::Middle => match self.drag_vector {
                Some((_, vector)) => ContainerState {
                    target_viewport: self.target_viewport.spec_translated(vector),
                    drag_vector: None,
                    ..self
                },
                None => self,
            },
            MouseButton::Left => {
                let picked = match self.selection_rectangle {
                    Some((start, end)) => self.rectangle_selected(
                        sizes,
                        Rect { top_left: start, bottom_right: end },
                    ),
                    None => self.wrapped_nodes,
                };
                ContainerState {
                    wrapped_nodes: Seq::new(
                        picked.len(),
                        |i: int|
                            if picked[i].selected {
                                picked[i].merged()
                            } else {
                                picked[i]
                            },
                    ),
                    selection_rectangle: None,
                    are_we_moving_nodes: None,
                    ..self
                }
            },
            _ => self,
        }
    }

    /// The canvas after the pointer moved to `position`.
    ///
    /// The far corner of a selection rectangle follows the pointer. During
    /// a drag, the first move also selects every wrapper under the pointer,
    /// and every selected wrapper is offset by the vector from where the
    /// drag began. During a pan, the panned vector follows the pointer.
    pub open spec fn after_mouse_move(self, sizes: Seq<Point>, position: Point) -> ContainerState {
        let picked = match self.are_we_moving_nodes {
            Some((_, true)) => self.hits_selected(sizes, position),
            _ => self.wrapped_nodes,
        };
        ContainerState {
            pivot: position,
            selection_rectangle: match self.selection_rectangle {
                Some((start, _)) => Some((start, position)),
                None => None,
            },
            wrapped_nodes: match self.are_we_moving_nodes {
                Some((start, _)) => Seq::new(
                    picked.len(),
                    |i: int|
                        if picked[i].selected {
                            NodeWrapper { offset: position.difference(start), ..picked[i] }
                        } else {
                            picked[i]
                        },
                ),
                None => self.wrapped_nodes,
            },
            are_we_moving_nodes: match self.are_we_moving_nodes {
                Some((start, _)) => Some((start, false)),
                None => None,
            },
            drag_vector: match self.drag_vector {
                Some((start, _)) => Some((start, position.difference(start))),
                None => None,
            },
            ..self
        }
    }

    /// The canvas after a scroll at `position`: scrolled lines zoom the
    /// target viewport about the pointer, other distances change nothing.
    pub open spec fn after_drag(self, position: Point, distance: MouseScrollDistance) -> ContainerState {
        match distance {
            MouseScrollDistance::Lines { x, y, z } => ContainerState {
                target_viewport: spec_zoom(self.target_viewport, position, y as int),
                ..self
            },
            _ => self,
        }
    }

    /// The canvas after a frame of `delta_micros` microseconds began over
    /// the physical area `physical`: a target viewport too small to lay
    /// anything out in snaps to the physical area, and each edge of the
    /// viewport moves toward the target, carried along by a pan under way.
    pub open spec fn after_advance(self, physical: Rect, delta_micros: u64) -> ContainerState {
        let target = if self.target_viewport.spec_is_degenerate() {
            physical
        } else {
            self.target_viewport
        };
        let goal = match self.drag_vector {
            Some((_, vector)) => target.spec_translated(vector),
            None => target,
        };
        ContainerState {
            original_viewport: physical,
            target_viewport: target,
            viewport: spec_lerp_rect(self.viewport, goal, delta_micros),
            ..self
        }
    }

    /// The rectangle that the viewport moves toward in a frame over
    /// `physical`: the target viewport, or the physical area where the
    /// target is too small, carried along by a pan under way.
    pub open spec fn frame_goal(self, physical: Rect) -> Rect {
        let target = if self.target_viewport.spec_is_degenerate() {
            physical
        } else {
            self.target_viewport
        };
        match self.drag_vector {
            Some((_, vector)) => target.spec_translated(vector),
            None => target,
        }
    }

    /// The canvas after `frames` frames of the same length began over
    /// the same physical area, nothing else happening in between.
    pub open spec fn after_frames(self, physical: Rect, delta_micros: u64, frames: nat) -> ContainerState
        decreases frames,
    {
        if frames == 0 {
            self
        } else {
            self.after_advance(physical, delta_micros).after_frames(
                physical,
                delta_micros,
                (frames - 1) as nat,
            )
        }
    }

    /// The wrappers after each linked one was drawn and cached its text
    /// box.
    pub open spec fn wrappers_after_draw(self, sizes: Seq<Point>) -> Seq<NodeWrapper> {
        Seq::new(
            self.wrapped_nodes.len(),
            |i: int|
                drawn(self.wrapped_nodes[i], self.original_viewport, self.viewport, size_at(sizes, i)),
        )
    }

    /// The drawing requests of the wrappers, in order.
    pub open spec fn wrapper_commands(self, sizes: Seq<Point>) -> Seq<DrawCommand> {
        commands_of(
            self.wrapped_nodes,
            self.original_viewport,
            self.viewport,
            sizes,
            self.wrapped_nodes.len() as int,
        )
    }

    /// What the canvas draws before its wrappers: the background, the
    /// outline of the viewport, the pivot, and the selection rectangle if
    /// one is being drawn.
    pub open spec fn backdrop_commands(self) -> Seq<DrawCommand> {
        let v = self.viewport;
        let top_right = Point { x: v.bottom_right.x, y: v.top_left.y };
        let bottom_left = Point { x: v.top_left.x, y: v.bottom_right.y };
        seq![
            DrawCommand::Rectangle { rect: self.original_viewport, color: BACKGROUND_COLOR },
            DrawCommand::Line { from: v.top_left, to: top_right, thickness: 2, color: BLACK },
            DrawCommand::Line { from: top_right, to: v.bottom_right, thickness: 2, color: BLACK },
            DrawCommand::Line { from: v.bottom_right, to: bottom_left, thickness: 2, color: BLACK },
            DrawCommand::Line { from: bottom_left, to: v.top_left, thickness: 2, color: BLACK },
            DrawCommand::Circle { center: self.pivot, radius: 5, color: BLUE },
        ] + match self.selection_rectangle {
            Some((start, end)) => seq![
                DrawCommand::Rectangle {
                    rect: Rect { top_left: start, bottom_right: end },
                    color: SELECTION_RECTANGLE_COLOR,
                },
            ],
            None => Seq::<DrawCommand>::empty(),
        }
    }

    /// The position of the first wrapper from `start` on that belongs to
    /// the node `node_id`, and the number of wrappers where none does.
    pub open spec fn wrapper_of(self, node_id: i64, start: int) -> int
        decreases self.wrapped_nodes.len() - start,
    {
        if start >= self.wrapped_nodes.len() {
            self.wrapped_nodes.len() as int
        } else if self.wrapped_nodes[start].node_id == node_id {
            start
        } else {
            self.wrapper_of(node_id, start + 1)
        }
    }

    /// What the editor draws: its marks over the cached text box of the
    /// first wrapper of the edited node, and nothing where no editor is
    /// open or the node has no wrapper.
    pub open spec fn editor_commands(self, caret_offset: i32, selection_offset: i32, now: u64) -> Seq<
        DrawCommand,
    > {
        match self.node_editor {
            Some(editor) => {
                let index = self.wrapper_of(editor.node_id, 0);
                if index < self.wrapped_nodes.len() {
                    editor.spec_draw(
                        self.wrapped_nodes[index].cached_bounds.0,
                        self.wrapped_nodes[index].cached_bounds.1,
                        caret_offset,
                        selection_offset,
                        now,
                    )
                } else {
                    Seq::<DrawCommand>::empty()
                }
            },
            None => Seq::<DrawCommand>::empty(),
        }
    }

    /// Everything the canvas draws in one frame, in order.
    pub open spec fn spec_draw(
        self,
        sizes: Seq<Point>,
        caret_offset: i32,
        selection_offset: i32,
        now: u64,
    ) -> Seq<DrawCommand> {
        self.backdrop_commands() + self.wrapper_commands(sizes)
            + (ContainerState {
            wrapped_nodes: self.wrappers_after_draw(sizes),
            ..self
        }).editor_commands(caret_offset, selection_offset, now)
    }

    /// The canvas after a bound action was carried out.
    pub open spec fn after_action(self, action: BoundAction) -> ContainerState {
        match action {
            BoundAction::SelectAll => ContainerState {
                wrapped_nodes: Seq::new(
                    self.wrapped_nodes.len(),
                    |i: int| with_selected(self.wrapped_nodes[i], true),
                ),
                ..self
            },
        }
    }

    /// The canvas after a key went down at time `now`: an open editor
    /// handles it.
    pub open spec fn after_key_down(
        self,
        key: Option<Key>,
        store: NodeStoreState,
        now: u64,
    ) -> ContainerState {
        match (self.node_editor, key) {
            (Some(editor), Some(key)) => ContainerState {
                node_editor: Some(
                    editor.after_key_down(
                        key,
                        store.content_of(editor.node_id as int).len() as int,
                        now,
                    ),
                ),
                ..self
            },
            _ => self,
        }
    }

    /// The canvas after a key went up: an open editor handles it.
    pub open spec fn after_key_up(self, key: Option<Key>) -> ContainerState {
        match (self.node_editor, key) {
            (Some(editor), Some(key)) => ContainerState {
                node_editor: Some(editor.after_key_up(key)),
                ..self
            },
            _ => self,
        }
    }

    /// The canvas and the store after a character arrived. An open editor
    /// handles it first and the edited node takes the new content. Then the
    /// delete character removes every selected wrapper, and from the store
    /// every node that a selected wrapper belongs to.
    pub open spec fn after_char(self, store: NodeStoreState, character: char) -> (
        ContainerState,
        NodeStoreState,
    ) {
        let edited = match self.node_editor {
            Some(editor) => ContainerState {
                node_editor: Some(
                    editor.editor_after_insert(character, store.content_of(editor.node_id as int)),
                ),
                ..self
            },
            None => self,
        };
        let written = match self.node_editor {
            Some(editor) => store.with_content(
                editor.node_id as int,
                editor.content_after_insert(character, store.content_of(editor.node_id as int)),
            ),
            None => store,
        };
        if character == DELETE {
            (
                ContainerState {
                    wrapped_nodes: self.wrapped_nodes.filter(|w: NodeWrapper| !w.selected),
                    ..edited
                },
                written.without_all(selected_ids(self.wrapped_nodes)),
            )
        } else {
            (edited, written)
        }
    }
}

impl GenericNodeContainer {
    /// An empty canvas at rest, with nothing laid out yet.
    pub fn new() -> (container: GenericNodeContainer)
        ensures
            container@.wrapped_nodes == Seq::<NodeWrapper>::empty(),
            container@.viewport == (Rect {
                top_left: Point { x: 0, y: 0 },
                bottom_right: Point { x: 0, y: 0 },
            }),
            container@.original_viewport == container@.viewport,
            container@.target_viewport == container@.viewport,
            container@.pivot == (Point { x: 0, y: 0 }),
            container@.node_editor is None,
            container@.drag_vector is None,
            container@.are_we_moving_nodes is None,
            container@.selection_rectangle is None,
    {
        GenericNodeContainer {
            wrapped_nodes: Vec::new(),
            viewport: Rect::zero(),
            original_viewport: Rect::zero(),
            pivot: Point::zero(),
            node_editor: None,
            target_viewport: Rect::zero(),
            drag_vector: None,
            are_we_moving_nodes: None,
            selection_rectangle: None,
        }
    }

    pub fn get_name(&self) -> (name: String)
        ensures
            name@ == "Generic Node Container"@,
    {
        String::from_str("Generic Node Container")
    }

    /// The bindings that hold while the canvas is the active module:
    /// the left control key with A selects everything.
    pub fn get_active_key_bindings(&self) -> (bindings: Vec<KeyBinding>)
        ensures
            bindings@.len() == 1,
            bindings@[0].keys@ == seq![Key::LControl, Key::A],
            bindings@[0].action == BoundAction::SelectAll,
    {
        let mut keys: Vec<Key> = Vec::new();
        keys.push(Key::LControl);
        keys.push(Key::A);
        proof {
            assert(keys@ =~= seq![Key::LControl, Key::A]);
        }
        let mut bindings: Vec<KeyBinding> = Vec::new();
        bindings.push(KeyBinding { keys, action: BoundAction::SelectAll });
        bindings
    }

    /// The bindings that hold whether or not the canvas is the active
    /// module: there are none.
    pub fn get_persistent_key_bindings(&self) -> (bindings: Vec<KeyBinding>)
        ensures
            bindings@.len() == 0,
    {
        Vec::new()
    }

    /// Carries out a bound action.
    pub fn perform(&mut self, action: BoundAction)
        ensures
            final(self)@ == old(self)@.after_action(action),
    {
        match action {
            BoundAction::SelectAll => {
                let mut flags: Vec<bool> = Vec::new();
                let mut i: usize = 0;
                while i < self.wrapped_nodes.len()
                    invariant
                        i <= self.wrapped_nodes@.len(),
                        flags@.len() == i,
                        forall|j: int| 0 <= j < i ==> flags@[j],
                    decreases self.wrapped_nodes.len() - i,
                {
                    flags.push(true);
                    i += 1;
                }
                select_flagged(&mut self.wrapped_nodes, &flags);
                proof {
                    assert(self.wrapped_nodes@ =~= old(self)@.after_action(action).wrapped_nodes);
                }
            },
        }
    }

    /// The selected wrappers, in the order of the canvas.
    pub fn get_selected_nodes(&self) -> (selected: Vec<NodeWrapper>)
        ensures
            selected@ == self@.wrapped_nodes.filter(|w: NodeWrapper| w.selected),
    {
        let ghost keep = |w: NodeWrapper| w.selected;
        let mut selected: Vec<NodeWrapper> = Vec::new();
        let mut i: usize = 0;
        while i < self.wrapped_nodes.len()
            invariant
                i <= self.wrapped_nodes@.len(),
                keep == |w: NodeWrapper| w.selected,
                selected@ == self.wrapped_nodes@.take(i as int).filter(keep),
            decreases self.wrapped_nodes.len() - i,
        {
            proof {
                assert(self.wrapped_nodes@.take(i + 1).drop_last() =~= self.wrapped_nodes@.take(
                    i as int,
                ));
                reveal(Seq::filter);
            }
            if self.wrapped_nodes[i].selected {
                selected.push(self.wrapped_nodes[i]);
            }
            i += 1;
        }
        proof {
            assert(self.wrapped_nodes@.take(i as int) =~= self.wrapped_nodes@);
        }
        selected
    }

    /// Replaces the wrappers by those of the stored records, each the id
    /// of a node and a position. Every wrapper whose node `store` holds is
    /// linked to it; the others stay on the canvas without being shown, and
    /// are stored again with it.
    pub fn load(&mut self, records: &Vec<(i64, (i32, i32))>, store: &NodeStore)
        ensures
            final(self)@ == (ContainerState {
                wrapped_nodes: Seq::new(
                    records@.len(),
                    |i: int| NodeWrapper::relinked_spec(records@[i].0, records@[i].1, store@),
                ),
                ..old(self)@
            }),
    {
        let mut nodes: Vec<NodeWrapper> = Vec::new();
        let mut i: usize = 0;
        while i < records.len()
            invariant
                i <= records@.len(),
                nodes@ == Seq::new(
                    i as nat,
                    |k: int| NodeWrapper::relinked_spec(records@[k].0, records@[k].1, store@),
                ),
            decreases records.len() - i,
        {
            nodes.push(NodeWrapper::relinked(records[i].0, records[i].1, store));
            i += 1;
            proof {
                assert(nodes@ =~= Seq::new(
                    i as nat,
                    |k: int| NodeWrapper::relinked_spec(records@[k].0, records@[k].1, store@),
                ));
            }
        }
        self.wrapped_nodes = nodes;
    }

    /// The records to store: the node id and the position of each wrapper.
    pub fn unload(&self) -> (records: Vec<(i64, (i32, i32))>)
        ensures
            records@ == Seq::new(
                self@.wrapped_nodes.len(),
                |i: int| (self@.wrapped_nodes[i].node_id, self@.wrapped_nodes[i].position),
            ),
    {
        let mut records: Vec<(i64, (i32, i32))> = Vec::new();
        let mut i: usize = 0;
        while i < self.wrapped_nodes.len()
            invariant
                i <= self.wrapped_nodes@.len(),
                records@ == Seq::new(
                    i as nat,
                    |k: int| (self@.wrapped_nodes[k].node_id, self@.wrapped_nodes[k].position),
                ),
            decreases self.wrapped_nodes.len() - i,
        {
            records.push((self.wrapped_nodes[i].node_id, self.wrapped_nodes[i].position));
            i += 1;
            proof {
                assert(records@ =~= Seq::new(
                    i as nat,
                    |k: int| (self@.wrapped_nodes[k].node_id, self@.wrapped_nodes[k].position),
                ));
            }
        }
        records
    }

    /// The scale at which text is to be measured for this frame.
    pub fn content_scale(&self) -> (scale: Scale)
        ensures
            scale == self@.content_scale(),
    {
        Scale { num: self.viewport.height(), den: self.original_viewport.height() }
    }

    /// The canvas point that shows at the screen point `point`.
    pub fn unproject(&self, point: Point) -> (place: (i32, i32))
        ensures
            place == self@.unprojected(point),
    {
        let x: i128 = project_coord(
            point.x,
            self.viewport.left(),
            self.viewport.width(),
            self.original_viewport.left(),
            self.original_viewport.width(),
        );
        let y: i128 = project_coord(
            point.y,
            self.viewport.top(),
            self.viewport.height(),
            self.original_viewport.top(),
            self.original_viewport.height(),
        );
        (saturate(x), saturate(y))
    }

    /// For each wrapper whether `point` hits it, how many it hits, and
    /// the position of the first it hits.
    pub fn collisions(&self, sizes: &Vec<Point>, point: Point) -> (found: (Vec<bool>, usize, usize))
        ensures
            found.0@.len() == self@.wrapped_nodes.len(),
            forall|i: int|
                0 <= i < self@.wrapped_nodes.len() ==> found.0@[i] == self@.hit(sizes@, point, i),
            found.1 as int == self@.hit_count(sizes@, point, self@.wrapped_nodes.len() as int),
            found.2 as int == self@.first_hit(sizes@, point, 0),
            found.1 == 0 <==> found.2 == self@.wrapped_nodes.len(),
            found.2 <= self@.wrapped_nodes.len(),
    {
        let total: usize = self.wrapped_nodes.len();
        let mut flags: Vec<bool> = Vec::new();
        let mut count: usize = 0;
        let mut first: usize = total;
        let mut i: usize = 0;
        while i < total
            invariant
                total == self.wrapped_nodes@.len(),
                i <= total,
                flags@.len() == i,
                forall|j: int| 0 <= j < i ==> flags@[j] == self@.hit(sizes@, point, j),
                count <= i,
                count as int == self@.hit_count(sizes@, point, i as int),
                count == 0 <==> first == total,
                first <= total,
                first == total ==> self@.first_hit(sizes@, point, 0) == self@.first_hit(
                    sizes@,
                    point,
                    i as int,
                ),
                first < total ==> first < i && self@.first_hit(sizes@, point, 0) == first,
            decreases total - i,
        {
            let bounds = self.wrapped_nodes[i].calculate_bounds(
                &self.original_viewport,
                &self.viewport,
                size_of(sizes, i),
            );
            let inside = self.wrapped_nodes[i].linked && bounds.contains(point);
            flags.push(inside);
            if inside {
                count += 1;
                if first == total {
                    first = i;
                }
            }
            i += 1;
        }
        proof {
            assert(self@.first_hit(sizes@, point, total as int) == total);
        }
        (flags, count, first)
    }

    /// Handles a button that went down at `mouse_position`, at time
    /// `now`, as the `click_count`-th click of its gesture.
    pub fn handle_mouse_down(
        &mut self,
        store: &mut NodeStore,
        sizes: &Vec<Point>,
        mouse_position: MousePosition,
        click_count: i32,
        button: MouseButton,
        now: u64,
    )
        ensures
            (final(self)@, final(store)@) == old(self)@.after_mouse_down(
                old(store)@,
                sizes@,
                mouse_position.viewport_position,
                click_count,
                button,
                now,
            ),
    {
        let position = mouse_position.viewport();
        let (flags, count, first) = self.collisions(sizes, position);
        match button {
            MouseButton::Middle => {
                self.drag_vector = Some((position, Point::zero()));
            },
            MouseButton::Left => {
                let place = self.unproject(position);
                if count == 0 {
                    self.selection_rectangle = Some((position, position));
                    self.node_editor = None;
                } else {
                    self.are_we_moving_nodes = Some((position, true));
                }
                if click_count == 1 {
                    toggle_flagged(&mut self.wrapped_nodes, &flags);
                    proof {
                        assert(final(self)@.wrapped_nodes =~= old(self)@.hits_toggled(
                            sizes@,
                            position,
                        ));
                    }
                } else if click_count == 2 {
                    if count == 1 {
                        let mut wrapper = self.wrapped_nodes[first];
                        wrapper.selected = true;
                        self.wrapped_nodes.set(first, wrapper);
                        self.node_editor = Some(
                            GenericNodeEditor {
                                node_id: wrapper.node_id,
                                cursor_index: store.content_length(wrapper.node_id),
                                selection: None,
                                last_blink: now,
                                selecting: false,
                            },
                        );
                    } else if count == 0 {
                        let created = Node::create_and_register(
                            String::from_str("new node"),
                            self.get_name(),
                            store,
                        );
                        match created {
                            Some(id) => {
                                self.wrapped_nodes.push(NodeWrapper::for_id(id, place));
                            },
                            None => {},
                        }
                    }
                }
            },
            _ => {},
        }
    }

    /// Handles a button that went up.
    pub fn handle_mouse_up(
        &mut self,
        sizes: &Vec<Point>,
        _position: MousePosition,
        _click_count: i32,
        button: MouseButton,
    )
        ensures
            final(self)@ == old(self)@.after_mouse_up(sizes@, button),
    {
        match button {
            MouseButton::Middle => {
                match self.drag_vector {
                    Some((_, vector)) => {
                        self.target_viewport = self.target_viewport.translated(vector);
                        self.drag_vector = None;
                    },
                    None => {},
                }
            },
            MouseButton::Left => {
                match self.selection_rectangle {
                    Some((start, end)) => {
                        let flags = self.enclosed(sizes, &Rect { top_left: start, bottom_right: end });
                        select_flagged(&mut self.wrapped_nodes, &flags);
                        self.selection_rectangle = None;
                        proof {
                            assert(self.wrapped_nodes@ =~= old(self)@.rectangle_selected(
                                sizes@,
                                Rect { top_left: start, bottom_right: end },
                            ));
                        }
                    },
                    None => {},
                }
                merge_selected(&mut self.wrapped_nodes);
                self.are_we_moving_nodes = None;
            },
            _ => {},
        }
    }

    /// For each wrapper whether both corners of its bounds lie inside the
    /// normalized `rectangle`.
    fn enclosed(&self, sizes: &Vec<Point>, rectangle: &Rect) -> (flags: Vec<bool>)
        ensures
            flags@.len() == self@.wrapped_nodes.len(),
            forall|i: int|
                0 <= i < self@.wrapped_nodes.len() ==> flags@[i] == self@.enclosed_by(
                    sizes@,
                    *rectangle,
                    i,
                ),
    {
        let area = rectangle.normalized();
        let mut flags: Vec<bool> = Vec::new();
        let mut i: usize = 0;
        while i < self.wrapped_nodes.len()
            invariant
                i <= self.wrapped_nodes@.len(),
                flags@.len() == i,
                area == rectangle.spec_normalized(),
                forall|j: int| 0 <= j < i ==> flags@[j] == self@.enclosed_by(sizes@, *rectangle, j),
            decreases self.wrapped_nodes.len() - i,
        {
            let bounds = self.wrapped_nodes[i].calculate_bounds(
                &self.original_viewport,
                &self.viewport,
                size_of(sizes, i),
            );
            flags.push(self.wrapped_nodes[i].linked && area.encloses(&bounds.rect));
            i += 1;
        }
        flags
    }

    /// Handles a move of the pointer to `position`.
    pub fn handle_mouse_move(&mut self, sizes: &Vec<Point>, position: MousePosition)
        ensures
            final(self)@ == old(self)@.after_mouse_move(sizes@, position.viewport_position),
    {
        let point = position.viewport();
        self.pivot = point;
        match self.selection_rectangle {
            Some((start, _)) => {
                self.selection_rectangle = Some((start, point));
            },
            None => {},
        }
        match self.are_we_moving_nodes {
            Some((start, just_started)) => {
                if just_started {
                    let (flags, _, _) = self.collisions(sizes, point);
                    select_flagged(&mut self.wrapped_nodes, &flags);
                    self.are_we_moving_nodes = Some((start, false));
                    proof {
                        assert(self.wrapped_nodes@ =~= old(self)@.hits_selected(
                            sizes@,
                            point,
                        ));
                    }
                }
                offset_selected(&mut self.wrapped_nodes, point.minus(start));
            },
            None => {},
        }
        match self.drag_vector {
            Some((start, _)) => {
                self.drag_vector = Some((start, point.minus(start)));
            },
            None => {},
        }
    }

    /// Handles a scroll at `position`.
    pub fn handle_drag(&mut self, position: MousePosition, distance: MouseScrollDistance)
        ensures
            final(self)@ == old(self)@.after_drag(position.viewport_position, distance),
    {
        match distance {
            MouseScrollDistance::Lines { x, y, z } => {
                self.target_viewport = zoom(&self.target_viewport, position.viewport(), y);
            },
            _ => {},
        }
    }

    /// Begins a frame of `delta_micros` microseconds over the physical
    /// area `physical`, and moves the viewport one step toward its target.
    pub fn advance(&mut self, physical: Rect, delta_micros: u64)
        ensures
            final(self)@ == old(self)@.after_advance(physical, delta_micros),
    {
        self.original_viewport = physical;
        if self.target_viewport.is_degenerate() {
            self.target_viewport = physical;
        }
        let goal = match self.drag_vector {
            Some((_, vector)) => self.target_viewport.translated(vector),
            None => self.target_viewport,
        };
        self.viewport = lerp_rect(&self.viewport, &goal, delta_micros);
    }

    /// The position of the first wrapper of the node `node_id`, and the
    /// number of wrappers where it has none.
    pub fn wrapper_position(&self, node_id: i64) -> (index: usize)
        ensures
            index as int == self@.wrapper_of(node_id, 0),
            index <= self@.wrapped_nodes.len(),
    {
        let mut i: usize = 0;
        while i < self.wrapped_nodes.len()
            invariant
                i <= self.wrapped_nodes@.len(),
                self@.wrapper_of(node_id, 0) == self@.wrapper_of(node_id, i as int),
            decreases self.wrapped_nodes.len() - i,
        {
            if self.wrapped_nodes[i].node_id == node_id {
                return i;
            }
            i += 1;
        }
        i
    }

    /// Draws the frame that `advance` began: returns the drawing requests
    /// in order, and caches in each wrapper the text box it was drawn with.
    /// The two offsets are the measured widths of the text before the caret
    /// and before the selection of an open editor.
    pub fn draw(
        &mut self,
        sizes: &Vec<Point>,
        caret_offset: i32,
        selection_offset: i32,
        now: u64,
    ) -> (commands: Vec<DrawCommand>)
        ensures
            final(self)@ == (ContainerState {
                wrapped_nodes: old(self)@.wrappers_after_draw(sizes@),
                ..old(self)@
            }),
            commands@ == old(self)@.spec_draw(sizes@, caret_offset, selection_offset, now),
    {
        let v = self.viewport;
        let top_right = Point { x: v.bottom_right.x, y: v.top_left.y };
        let bottom_left = Point { x: v.top_left.x, y: v.bottom_right.y };
        let mut commands: Vec<DrawCommand> = Vec::new();
        commands.push(
            DrawCommand::Rectangle { rect: self.original_viewport, color: BACKGROUND_COLOR },
        );
        commands.push(
            DrawCommand::Line { from: v.top_left, to: top_right, thickness: 2, color: BLACK },
        );
        commands.push(
            DrawCommand::Line { from: top_right, to: v.bottom_right, thickness: 2, color: BLACK },
        );
        commands.push(
            DrawCommand::Line { from: v.bottom_right, to: bottom_left, thickness: 2, color: BLACK },
        );
        commands.push(
            DrawCommand::Line { from: bottom_left, to: v.top_left, thickness: 2, color: BLACK },
        );
        commands.push(DrawCommand::Circle { center: self.pivot, radius: 5, color: BLUE });
        match self.selection_rectangle {
            Some((start, end)) => {
                commands.push(
                    DrawCommand::Rectangle {
                        rect: Rect { top_left: start, bottom_right: end },
                        color: SELECTION_RECTANGLE_COLOR,
                    },
                );
            },
            None => {},
        }
        proof {
            assert(commands@ =~= old(self)@.backdrop_commands());
        }
        let from = self.original_viewport;
        draw_wrappers(&mut self.wrapped_nodes, &from, &v, sizes, &mut commands);
        proof {
            assert(self.wrapped_nodes@ =~= old(self)@.wrappers_after_draw(sizes@));
        }
        match self.node_editor {
            Some(editor) => {
                let index = self.wrapper_position(editor.node_id);
                if index < self.wrapped_nodes.len() {
                    let mut marks = editor.draw(
                        self.wrapped_nodes[index].get_cached_bounds(),
                        caret_offset,
                        selection_offset,
                        now,
                    );
                    commands.append(&mut marks);
                }
            },
            None => {},
        }
        proof {
            assert(commands@ =~= old(self)@.spec_draw(sizes@, caret_offset, selection_offset, now));
        }
        commands
    }

    /// Handles a key that went down at time `now`.
    pub fn handle_key_down(&mut self, key: Option<Key>, store: &NodeStore, now: u64)
        ensures
            final(self)@ == old(self)@.after_key_down(key, store@, now),
    {
        match (self.node_editor, key) {
            (Some(editor), Some(key)) => {
                let mut editor = editor;
                match store.find(editor.node_id) {
                    Some(index) => {
                        editor.handle_key_down(key, store.get(index).get_content(), now);
                    },
                    None => {
                        editor.handle_key_down(key, &String::new(), now);
                    },
                }
                self.node_editor = Some(editor);
            },
            _ => {},
        }
    }

    /// Handles a key that went up.
    pub fn handle_key_up(&mut self, key: Option<Key>)
        ensures
            final(self)@ == old(self)@.after_key_up(key),
    {
        match (self.node_editor, key) {
            (Some(editor), Some(key)) => {
                let mut editor = editor;
                editor.handle_key_up(key);
                self.node_editor = Some(editor);
            },
            _ => {},
        }
    }

    /// Handles a character that arrived.
    pub fn handle_char(&mut self, store: &mut NodeStore, character: char)
        ensures
            (final(self)@, final(store)@) == old(self)@.after_char(old(store)@, character),
    {
        match self.node_editor {
            Some(editor) => {
                let mut editor = editor;
                match store.find(editor.node_id) {
                    Some(index) => {
                        let updated = editor.insert(character, store.get(index).get_content());
                        store.set_content_at(index, updated);
                    },
                    None => {
                        let _ = editor.insert(character, &String::new());
                    },
                }
                self.node_editor = Some(editor);
            },
            None => {},
        }
        if character == DELETE {
            let ids = remove_selected(&mut self.wrapped_nodes);
            store.remove_all(&ids);
        }
    }
}

/// A single left click flips the selection of every wrapper under the
/// pointer and of no other: an unselected one becomes selected, a
/// selected one unselected. A second single click at the same place
/// restores the selection of every wrapper. Neither click touches the
/// store.
pub proof fn lemma_click_toggles_selection(
    state: ContainerState,
    store: NodeStoreState,
    sizes: Seq<Point>,
    position: Point,
    first_time: u64,
    second_time: u64,
)
    ensures
        ({
            let once = state.after_mouse_down(
                store,
                sizes,
                position,
                1,
                MouseButton::Left,
                first_time,
            );
            let twice = once.0.after_mouse_down(
                once.1,
                sizes,
                position,
                1,
                MouseButton::Left,
                second_time,
            );
            &&& once.1 == store
            &&& twice.1 == store
            &&& once.0.wrapped_nodes.len() == state.wrapped_nodes.len()
            &&& forall|i: int|
                0 <= i < state.wrapped_nodes.len() ==> #[trigger] once.0.wrapped_nodes[i]
                    == if state.hit(sizes, position, i) {
                    with_selected(state.wrapped_nodes[i], !state.wrapped_nodes[i].selected)
                } else {
                    state.wrapped_nodes[i]
                }
            &&& twice.0.wrapped_nodes == state.wrapped_nodes
        }),
{
    let once = state.after_mouse_down(store, sizes, position, 1, MouseButton::Left, first_time);
    let twice = once.0.after_mouse_down(
        once.1,
        sizes,
        position,
        1,
        MouseButton::Left,
        second_time,
    );
    assert forall|i: int| 0 <= i < state.wrapped_nodes.len() implies once.0.hit(sizes, position, i)
        == state.hit(sizes, position, i) by {}
    assert(twice.0.wrapped_nodes =~= state.wrapped_nodes);
}

/// While frames of one length follow one another over the same physical
/// area, with no event in between, the goal of the viewport stays where it
/// is and each edge of the viewport is where the easing of `lerp_repeated`
/// puts it. What `lemma_lerp_approaches`, `lemma_lerp_converges`,
/// `lemma_lerp_converges_geometrically` and `lemma_lerp_arrives` say of an
/// edge therefore holds of each edge of the viewport.
pub proof fn lemma_frames_ease_the_viewport(
    state: ContainerState,
    physical: Rect,
    delta_micros: u64,
    frames: nat,
)
    ensures
        ({
            let after = state.after_frames(physical, delta_micros, frames);
            let goal = state.frame_goal(physical);
            &&& after.frame_goal(physical) == goal
            &&& after.viewport.top_left.x == lerp_repeated(
                state.viewport.top_left.x as int,
                goal.top_left.x as int,
                delta_micros,
                frames,
            )
            &&& after.viewport.top_left.y == lerp_repeated(
                state.viewport.top_left.y as int,
                goal.top_left.y as int,
                delta_micros,
                frames,
            )
            &&& after.viewport.bottom_right.x == lerp_repeated(
                state.viewport.bottom_right.x as int,
                goal.bottom_right.x as int,
                delta_micros,
                frames,
            )
            &&& after.viewport.bottom_right.y == lerp_repeated(
                state.viewport.bottom_right.y as int,
                goal.bottom_right.y as int,
                delta_micros,
                frames,
            )
        }),
    decreases frames,
{
    if frames > 0 {
        let goal = state.frame_goal(physical);
        let next = state.after_advance(physical, delta_micros);
        lemma_lerp_step(state.viewport.top_left.x as int, goal.top_left.x as int, delta_micros);
        lemma_lerp_step(state.viewport.top_left.y as int, goal.top_left.y as int, delta_micros);
        lemma_lerp_step(
            state.viewport.bottom_right.x as int,
            goal.bottom_right.x as int,
            delta_micros,
        );
        lemma_lerp_step(
            state.viewport.bottom_right.y as int,
            goal.bottom_right.y as int,
            delta_micros,
        );
        assert(next.frame_goal(physical) == goal);
        lemma_frames_ease_the_viewport(next, physical, delta_micros, (frames - 1) as nat);
    }
}

/// A double click with the left button creates a node and its wrapper
/// only in empty space, and only while an id is left. Over two or more
/// wrappers it leaves the wrappers, the editor and the store as they were,
/// and begins the drag as any press on a wrapper does.
pub proof fn lemma_double_click_creates_only_in_empty_space(
    state: ContainerState,
    store: NodeStoreState,
    sizes: Seq<Point>,
    position: Point,
    now: u64,
)
    ensures
        ({
            let count = state.hit_count(sizes, position, state.wrapped_nodes.len() as int);
            let after = state.after_mouse_down(store, sizes, position, 2, MouseButton::Left, now);
            &&& count == 0 && store.next_id <= i64::MAX ==> after.0.wrapped_nodes
                == state.wrapped_nodes.push(
                NodeWrapper::for_id_spec(store.next_id as i64, state.unprojected(position)),
            ) && after.1 == store.registered("new node"@, "Generic Node Container"@)
            &&& count != 0 || store.next_id > i64::MAX ==> after.1 == store
            &&& count == 0 && store.next_id > i64::MAX ==> after.0.wrapped_nodes
                == state.wrapped_nodes
            &&& count >= 2 ==> after.0.wrapped_nodes == state.wrapped_nodes && after.0.node_editor
                == state.node_editor && after.0.are_we_moving_nodes == Some((position, true))
                && after.0.selection_rectangle == state.selection_rectangle
        }),
{
}

/// When the left button goes up over a selection rectangle, a linked
/// wrapper that was not selected becomes selected if and only if both
/// corners of its bounds lie inside the normalized rectangle; a wrapper
/// that was selected stays selected, and one that is not linked keeps its
/// flag.
pub proof fn lemma_rectangle_selects_enclosed(state: ContainerState, sizes: Seq<Point>, index: int)
    requires
        state.selection_rectangle is Some,
        0 <= index < state.wrapped_nodes.len(),
    ensures
        state.after_mouse_up(sizes, MouseButton::Left).wrapped_nodes.len()
            == state.wrapped_nodes.len(),
        state.after_mouse_up(sizes, MouseButton::Left).wrapped_nodes[index].selected == (
        state.wrapped_nodes[index].selected || (state.wrapped_nodes[index].linked
            && state.drawn_rectangle().spec_normalized().spec_encloses(
            state.bounds_of(sizes, index),
        ))),
        state.after_mouse_up(sizes, MouseButton::Left).selection_rectangle is None,
{
}

/// After the pointer moved during a drag and the left button went up,
/// every wrapper that was selected during the move stands further by
/// exactly the vector from where the drag began to where the pointer
/// went, and its drag offset is zero again. All such wrappers move by
/// the same vector. This holds where neither the vector nor the new
/// position leaves the coordinate range.
pub proof fn lemma_drag_commits(
    state: ContainerState,
    sizes: Seq<Point>,
    position: Point,
    index: int,
)
    requires
        state.are_we_moving_nodes is Some,
        0 <= index < state.wrapped_nodes.len(),
        state.after_mouse_move(sizes, position).wrapped_nodes[index].selected,
        i32::MIN <= position.x - state.drag_origin().x <= i32::MAX,
        i32::MIN <= position.y - state.drag_origin().y <= i32::MAX,
        i32::MIN <= state.wrapped_nodes[index].position.0 + (position.x
            - state.drag_origin().x) <= i32::MAX,
        i32::MIN <= state.wrapped_nodes[index].position.1 + (position.y
            - state.drag_origin().y) <= i32::MAX,
    ensures
        ({
            let start = state.drag_origin();
            let released = state.after_mouse_move(sizes, position).after_mouse_up(
                sizes,
                MouseButton::Left,
            );
            &&& released.wrapped_nodes.len() == state.wrapped_nodes.len()
            &&& released.wrapped_nodes[index].position.0 == state.wrapped_nodes[index].position.0 + (
            position.x - start.x)
            &&& released.wrapped_nodes[index].position.1 == state.wrapped_nodes[index].position.1 + (
            position.y - start.y)
            &&& released.wrapped_nodes[index].offset == (Point { x: 0, y: 0 })
            &&& released.are_we_moving_nodes is None
        }),
{
    let moved = state.after_mouse_move(sizes, position);
    let start = state.drag_origin();
    assert(moved.wrapped_nodes[index].offset == position.difference(start));
    assert(moved.wrapped_nodes[index].position == state.wrapped_nodes[index].position);
}

/// A wrapper after a frame: a linked one was drawn and cached its text
/// box, another one is as it was.
pub open spec fn drawn(wrapper: NodeWrapper, from: Rect, to: Rect, size: Point) -> NodeWrapper {
    if wrapper.linked {
        wrapper.after_draw(from, to, size)
    } else {
        wrapper
    }
}

/// The drawing requests of the linked ones among the first `n` of
/// `wrappers`, in order, when the area `from` is shown as `to`.
pub open spec fn commands_of(
    wrappers: Seq<NodeWrapper>,
    from: Rect,
    to: Rect,
    sizes: Seq<Point>,
    n: int,
) -> Seq<DrawCommand>
    decreases n,
{
    if n <= 0 {
        Seq::<DrawCommand>::empty()
    } else {
        commands_of(wrappers, from, to, sizes, n - 1) + if wrappers[n - 1].linked {
            wrappers[n - 1].spec_draw(from, to, size_at(sizes, n - 1))
        } else {
            Seq::<DrawCommand>::empty()
        }
    }
}

/// The measured text size of the wrapper at `index`.
fn size_of(sizes: &Vec<Point>, index: usize) -> (size: Point)
    ensures
        size == size_at(sizes@, index as int),
{
    if index < sizes.len() {
        sizes[index]
    } else {
        Point::zero()
    }
}

/// Flips the selection of each wrapper whose flag is set.
fn toggle_flagged(nodes: &mut Vec<NodeWrapper>, flags: &Vec<bool>)
    requires
        flags@.len() == old(nodes)@.len(),
    ensures
        final(nodes)@ == Seq::new(
            old(nodes)@.len(),
            |i: int|
                if flags@[i] {
                    with_selected(old(nodes)@[i], !old(nodes)@[i].selected)
                } else {
                    old(nodes)@[i]
                },
        ),
{
    let mut i: usize = 0;
    while i < nodes.len()
        invariant
            i <= nodes@.len(),
            nodes@.len() == old(nodes)@.len(),
            flags@.len() == nodes@.len(),
            forall|j: int|
                0 <= j < i ==> nodes@[j] == if flags@[j] {
                    with_selected(old(nodes)@[j], !old(nodes)@[j].selected)
                } else {
                    old(nodes)@[j]
                },
            forall|j: int| i <= j < nodes@.len() ==> nodes@[j] == old(nodes)@[j],
        decreases nodes.len() - i,
    {
        if flags[i] {
            let mut wrapper = nodes[i];
            wrapper.toggle_selected();
            nodes.set(i, wrapper);
        }
        i += 1;
    }
    proof {
        assert(nodes@ =~= Seq::new(
            old(nodes)@.len(),
            |i: int|
                if flags@[i] {
                    with_selected(old(nodes)@[i], !old(nodes)@[i].selected)
                } else {
                    old(nodes)@[i]
                },
        ));
    }
}

/// Selects each wrapper whose flag is set.
fn select_flagged(nodes: &mut Vec<NodeWrapper>, flags: &Vec<bool>)
    requires
        flags@.len() == old(nodes)@.len(),
    ensures
        final(nodes)@ == Seq::new(
            old(nodes)@.len(),
            |i: int|
                if flags@[i] {
                    with_selected(old(nodes)@[i], true)
                } else {
                    old(nodes)@[i]
                },
        ),
{
    let mut i: usize = 0;
    while i < nodes.len()
        invariant
            i <= nodes@.len(),
            nodes@.len() == old(nodes)@.len(),
            flags@.len() == nodes@.len(),
            forall|j: int|
                0 <= j < i ==> nodes@[j] == if flags@[j] {
                    with_selected(old(nodes)@[j], true)
                } else {
                    old(nodes)@[j]
                },
            forall|j: int| i <= j < nodes@.len() ==> nodes@[j] == old(nodes)@[j],
        decreases nodes.len() - i,
    {
        if flags[i] {
            let mut wrapper = nodes[i];
            wrapper.selected = true;
            nodes.set(i, wrapper);
        }
        i += 1;
    }
    proof {
        assert(nodes@ =~= Seq::new(
            old(nodes)@.len(),
            |i: int|
                if flags@[i] {
                    with_selected(old(nodes)@[i], true)
                } else {
                    old(nodes)@[i]
                },
        ));
    }
}

/// Makes the drag offset of each selected wrapper permanent.
fn merge_selected(nodes: &mut Vec<NodeWrapper>)
    ensures
        final(nodes)@ == Seq::new(
            old(nodes)@.len(),
            |i: int|
                if old(nodes)@[i].selected {
                    old(nodes)@[i].merged()
                } else {
                    old(nodes)@[i]
                },
        ),
{
    let mut i: usize = 0;
    while i < nodes.len()
        invariant
            i <= nodes@.len(),
            nodes@.len() == old(nodes)@.len(),
            forall|j: int|
                0 <= j < i ==> nodes@[j] == if old(nodes)@[j].selected {
                    old(nodes)@[j].merged()
                } else {
                    old(nodes)@[j]
                },
            forall|j: int| i <= j < nodes@.len() ==> nodes@[j] == old(nodes)@[j],
        decreases nodes.len() - i,
    {
        if nodes[i].selected {
            let mut wrapper = nodes[i];
            wrapper.merge_offset();
            nodes.set(i, wrapper);
        }
        i += 1;
    }
    proof {
        assert(nodes@ =~= Seq::new(
            old(nodes)@.len(),
            |i: int|
                if old(nodes)@[i].selected {
                    old(nodes)@[i].merged()
                } else {
                    old(nodes)@[i]
                },
        ));
    }
}

/// Gives each selected wrapper the drag offset `offset`.
fn offset_selected(nodes: &mut Vec<NodeWrapper>, offset: Point)
    ensures
        final(nodes)@ == Seq::new(
            old(nodes)@.len(),
            |i: int|
                if old(nodes)@[i].selected {
                    NodeWrapper { offset, ..old(nodes)@[i] }
                } else {
                    old(nodes)@[i]
                },
        ),
{
    let mut i: usize = 0;
    while i < nodes.len()
        invariant
            i <= nodes@.len(),
            nodes@.len() == old(nodes)@.len(),
            forall|j: int|
                0 <= j < i ==> nodes@[j] == if old(nodes)@[j].selected {
                    NodeWrapper { offset, ..old(nodes)@[j] }
                } else {
                    old(nodes)@[j]
                },
            forall|j: int| i <= j < nodes@.len() ==> nodes@[j] == old(nodes)@[j],
        decreases nodes.len() - i,
    {
        if nodes[i].selected {
            let mut wrapper = nodes[i];
            wrapper.set_offset(offset);
            nodes.set(i, wrapper);
        }
        i += 1;
    }
    proof {
        assert(nodes@ =~= Seq::new(
            old(nodes)@.len(),
            |i: int|
                if old(nodes)@[i].selected {
                    NodeWrapper { offset, ..old(nodes)@[i] }
                } else {
                    old(nodes)@[i]
                },
        ));
    }
}

/// Removes the selected wrappers, and returns the ids of their nodes.
fn remove_selected(nodes: &mut Vec<NodeWrapper>) -> (ids: Vec<i64>)
    ensures
        final(nodes)@ == old(nodes)@.filter(|w: NodeWrapper| !w.selected),
        ids@ == selected_ids(old(nodes)@),
{
    let ghost keep = |w: NodeWrapper| !w.selected;
    let ghost gone = |w: NodeWrapper| w.selected;
    let ghost id_of = |w: NodeWrapper| w.node_id;
    let mut ids: Vec<i64> = Vec::new();
    let mut kept: Vec<NodeWrapper> = Vec::new();
    let mut i: usize = 0;
    while i < nodes.len()
        invariant
            i <= nodes@.len(),
            nodes@ == old(nodes)@,
            keep == |w: NodeWrapper| !w.selected,
            gone == |w: NodeWrapper| w.selected,
            id_of == |w: NodeWrapper| w.node_id,
            kept@ == nodes@.take(i as int).filter(keep),
            ids@ == nodes@.take(i as int).filter(gone).map_values(id_of),
        decreases nodes.len() - i,
    {
        proof {
            assert(nodes@.take(i + 1).drop_last() =~= nodes@.take(i as int));
            reveal(Seq::filter);
        }
        let wrapper = nodes[i];
        if wrapper.selected {
            ids.push(wrapper.node_id);
            proof {
                assert(ids@ =~= nodes@.take(i + 1).filter(gone).map_values(id_of));
            }
        } else {
            kept.push(wrapper);
        }
        i += 1;
    }
    proof {
        assert(nodes@.take(i as int) =~= nodes@);
    }
    *nodes = kept;
    ids
}

/// Draws each wrapper in turn, appending its requests to `commands`.
fn draw_wrappers(
    nodes: &mut Vec<NodeWrapper>,
    from: &Rect,
    to: &Rect,
    sizes: &Vec<Point>,
    commands: &mut Vec<DrawCommand>,
)
    ensures
        final(nodes)@ == Seq::new(
            old(nodes)@.len(),
            |i: int| drawn(old(nodes)@[i], *from, *to, size_at(sizes@, i)),
        ),
        final(commands)@ == old(commands)@ + commands_of(
            old(nodes)@,
            *from,
            *to,
            sizes@,
            old(nodes)@.len() as int,
        ),
{
    let mut i: usize = 0;
    while i < nodes.len()
        invariant
            i <= nodes@.len(),
            nodes@.len() == old(nodes)@.len(),
            forall|j: int|
                0 <= j < i ==> nodes@[j] == drawn(old(nodes)@[j], *from, *to, size_at(sizes@, j)),
            forall|j: int| i <= j < nodes@.len() ==> nodes@[j] == old(nodes)@[j],
            commands@ == old(commands)@ + commands_of(old(nodes)@, *from, *to, sizes@, i as int),
        decreases nodes.len() - i,
    {
        if nodes[i].linked {
            let mut wrapper = nodes[i];
            let mut part = wrapper.draw(from, to, size_of(sizes, i));
            nodes.set(i, wrapper);
            commands.append(&mut part);
        }
        i += 1;
    }
    proof {
        assert(nodes@ =~= Seq::new(
            old(nodes)@.len(),
            |i: int| drawn(old(nodes)@[i], *from, *to, size_at(sizes@, i)),
        ));
    }
}

} // verus!
