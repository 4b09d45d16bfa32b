//! The modules behind one interface, and the workspace that owns them
//! and hands every call to the active one.
//!
//! Every module can be asked for its name and drawn. Whatever else a
//! module does not take up leaves it as it was: the cursor module only
//! heeds keys, the dummy module heeds nothing.

use crate::draw::{DrawCommand, BLUE, RED};
use crate::dummy::DummyModule;
use crate::generic_node_container::{ContainerState, GenericNodeContainer};
use crate::geometry::{Point, Rect};
use crate::input::{Key, MouseButton, MousePosition, MouseScrollDistance};
use crate::module::{ModuleCall, ModuleRegistry, RegistryState};
use crate::node::{NodeStore, NodeStoreState};
use crate::node_container::NodeContainer;
use vstd::prelude::*;
use vstd::string::*;

verus! {

/// A module of any kind.
#[derive(Debug)]
pub enum AnyModule {
    Canvas(GenericNodeContainer),
    Cursor(NodeContainer),
    Dummy(DummyModule),
}

/// The state of a module of any kind, as mathematical values.
pub enum ModuleState {
    Canvas(ContainerState),
    Cursor(NodeContainer),
    Dummy,
}

impl View for AnyModule {
    type V = ModuleState;

    open spec fn view(&self) -> ModuleState {
        match self {
            AnyModule::Canvas(canvas) => ModuleState::Canvas(canvas@),
            AnyModule::Cursor(cursor) => ModuleState::Cursor(*cursor),
            AnyModule::Dummy(_) => ModuleState::Dummy,
        }
    }
}

/// What a frame is drawn with: the physical area, the length of the
/// frame in microseconds, the measured sizes of the texts of the wrappers,
/// the measured widths of the text before the caret and before the
/// selection of an open editor, and the time in whole seconds.
#[derive(Debug)]
pub struct Frame {
    pub viewport: Rect,
    pub delta_micros: u64,
    pub sizes: Vec<Point>,
    pub caret_offset: i32,
    pub selection_offset: i32,
    pub now: u64,
}

impl ModuleState {
    /// The name of the module.
    pub open spec fn name(self) -> Seq<char> {
        match self {
            ModuleState::Canvas(_) => "Generic Node Container"@,
            ModuleState::Cursor(_) => "NodeContainer"@,
            ModuleState::Dummy => "Dummy Module"@,
        }
    }

    /// The module after a frame began: the canvas moves its viewport.
    pub open spec fn after_advance(self, viewport: Rect, delta_micros: u64) -> ModuleState {
        match self {
            ModuleState::Canvas(canvas) => ModuleState::Canvas(
                canvas.after_advance(viewport, delta_micros),
            ),
            _ => self,
        }
    }

    /// The module after it was drawn.
    pub open spec fn after_draw(self, frame: Frame) -> ModuleState {
        match self {
            ModuleState::Canvas(canvas) => ModuleState::Canvas(
                ContainerState { wrapped_nodes: canvas.wrappers_after_draw(frame.sizes@), ..canvas },
            ),
            ModuleState::Cursor(cursor) => ModuleState::Cursor(
                cursor.after_draw(frame.viewport, frame.delta_micros),
            ),
            ModuleState::Dummy => self,
        }
    }

    /// What the module draws.
    pub open spec fn draw_commands(self, frame: Frame) -> Seq<DrawCommand> {
        match self {
            ModuleState::Canvas(canvas) => canvas.spec_draw(
                frame.sizes@,
                frame.caret_offset,
                frame.selection_offset,
                frame.now,
            ),
            ModuleState::Cursor(cursor) => seq![
                DrawCommand::Circle {
                    center: cursor.after_draw(frame.viewport, frame.delta_micros).cursor_point(),
                    radius: 10,
                    color: RED,
                },
            ],
            ModuleState::Dummy => seq![DrawCommand::Rectangle { rect: frame.viewport, color: BLUE }],
        }
    }

    /// The module and the store after a button went down.
    pub open spec fn after_mouse_down(
        self,
        store: NodeStoreState,
        sizes: Seq<Point>,
        position: Point,
        click_count: i32,
        button: MouseButton,
        now: u64,
    ) -> (ModuleState, NodeStoreState) {
        match self {
            ModuleState::Canvas(canvas) => {
                let (after, stored) = canvas.after_mouse_down(
                    store,
                    sizes,
                    position,
                    click_count,
                    button,
                    now,
                );
                (ModuleState::Canvas(after), stored)
            },
            _ => (self, store),
        }
    }

    /// The module after a button went up.
    pub open spec fn after_mouse_up(self, sizes: Seq<Point>, button: MouseButton) -> ModuleState {
        match self {
            ModuleState::Canvas(canvas) => ModuleState::Canvas(canvas.after_mouse_up(sizes, button)),
            _ => self,
        }
    }

    /// The module after the pointer moved.
    pub open spec fn after_mouse_move(self, sizes: Seq<Point>, position: Point) -> ModuleState {
        match self {
            ModuleState::Canvas(canvas) => ModuleState::Canvas(
                canvas.after_mouse_move(sizes, position),
            ),
            _ => self,
        }
    }

    /// The module after a scroll.
    pub open spec fn after_drag(self, position: Point, distance: MouseScrollDistance) -> ModuleState {
        match self {
            ModuleState::Canvas(canvas) => ModuleState::Canvas(canvas.after_drag(position, distance)),
            _ => self,
        }
    }

    /// The module after a key went down.
    pub open spec fn after_key_down(
        self,
        key: Option<Key>,
        store: NodeStoreState,
        now: u64,
    ) -> ModuleState {
        match self {
            ModuleState::Canvas(canvas) => ModuleState::Canvas(
                canvas.after_key_down(key, store, now),
            ),
            ModuleState::Cursor(cursor) => ModuleState::Cursor(cursor.after_key_down(key)),
            ModuleState::Dummy => self,
        }
    }

    /// The module after a key went up.
    pub open spec fn after_key_up(self, key: Option<Key>) -> ModuleState {
        match self {
            ModuleState::Canvas(canvas) => ModuleState::Canvas(canvas.after_key_up(key)),
            ModuleState::Cursor(cursor) => ModuleState::Cursor(cursor.after_key_up(key)),
            ModuleState::Dummy => self,
        }
    }

    /// The module and the store after a character arrived.
    pub open spec fn after_char(self, store: NodeStoreState, character: char) -> (
        ModuleState,
        NodeStoreState,
    ) {
        match self {
            ModuleState::Canvas(canvas) => {
                let (after, stored) = canvas.after_char(store, character);
                (ModuleState::Canvas(after), stored)
            },
            _ => (self, store),
        }
    }
}

impl AnyModule {
    pub fn get_name(&self) -> (name: String)
        ensures
            name@ == self@.name(),
    {
        match self {
            AnyModule::Canvas(canvas) => canvas.get_name(),
            AnyModule::Cursor(cursor) => cursor.get_name(),
            AnyModule::Dummy(dummy) => dummy.get_name(),
        }
    }

    /// Begins a frame. Text is measured for the frame after this and
    /// before `draw`.
    pub fn advance(&mut self, viewport: Rect, delta_micros: u64)
        ensures
            final(self)@ == old(self)@.after_advance(viewport, delta_micros),
    {
        match self {
            AnyModule::Canvas(canvas) => {
                canvas.advance(viewport, delta_micros);
            },
            _ => {},
        }
    }

    /// Draws the module.
    pub fn draw(&mut self, frame: &Frame) -> (commands: Vec<DrawCommand>)
        ensures
            final(self)@ == old(self)@.after_draw(*frame),
            commands@ == old(self)@.draw_commands(*frame),
    {
        match self {
            AnyModule::Canvas(canvas) => canvas.draw(
                &frame.sizes,
                frame.caret_offset,
                frame.selection_offset,
                frame.now,
            ),
            AnyModule::Cursor(cursor) => cursor.draw(frame.viewport, frame.delta_micros),
            AnyModule::Dummy(dummy) => dummy.draw(frame.viewport, frame.delta_micros),
        }
    }

    /// Tells the module that it becomes the active one. Returns the
    /// notice that it wants shown, if any.
    pub fn open(&mut self) -> (notice: Option<String>)
        ensures
            final(self)@ == old(self)@,
            notice is Some <==> old(self)@ is Dummy,
            notice is Some ==> notice->0@ == "loaded dummy module"@,
    {
        match self {
            AnyModule::Dummy(dummy) => Some(dummy.open()),
            _ => None,
        }
    }

    /// Tells the module that it stops being the active one. Returns the
    /// notice that it wants shown, if any.
    pub fn close(&mut self) -> (notice: Option<String>)
        ensures
            final(self)@ == old(self)@,
            notice is Some <==> old(self)@ is Dummy,
            notice is Some ==> notice->0@ == "unloaded dummy module"@,
    {
        match self {
            AnyModule::Dummy(dummy) => Some(dummy.close()),
            _ => None,
        }
    }

    pub fn handle_mouse_down(
        &mut self,
        store: &mut NodeStore,
        sizes: &Vec<Point>,
        position: MousePosition,
        click_count: i32,
        button: MouseButton,
        now: u64,
    )
        ensures
            (final(self)@, final(store)@) == old(self)@.after_mouse_down(
                old(store)@,
                sizes@,
                position.viewport_position,
                click_count,
                button,
                now,
            ),
    {
        match self {
            AnyModule::Canvas(canvas) => {
                canvas.handle_mouse_down(store, sizes, position, click_count, button, now);
            },
            _ => {},
        }
    }

    pub fn handle_mouse_up(
        &mut self,
        sizes: &Vec<Point>,
        position: MousePosition,
        click_count: i32,
        button: MouseButton,
    )
        ensures
            final(self)@ == old(self)@.after_mouse_up(sizes@, button),
    {
        match self {
            AnyModule::Canvas(canvas) => {
                canvas.handle_mouse_up(sizes, position, click_count, button);
            },
            _ => {},
        }
    }

    pub fn handle_mouse_move(&mut self, sizes: &Vec<Point>, position: MousePosition)
        ensures
            final(self)@ == old(self)@.after_mouse_move(sizes@, position.viewport_position),
    {
        match self {
            AnyModule::Canvas(canvas) => {
                canvas.handle_mouse_move(sizes, position);
            },
            _ => {},
        }
    }

    pub fn handle_drag(&mut self, position: MousePosition, distance: MouseScrollDistance)
        ensures
            final(self)@ == old(self)@.after_drag(position.viewport_position, distance),
    {
        match self {
            AnyModule::Canvas(canvas) => {
                canvas.handle_drag(position, distance);
            },
            _ => {},
        }
    }

    pub fn handle_key_down(&mut self, key: Option<Key>, store: &NodeStore, now: u64)
        ensures
            final(self)@ == old(self)@.after_key_down(key, store@, now),
    {
        match self {
            AnyModule::Canvas(canvas) => {
                canvas.handle_key_down(key, store, now);
            },
            AnyModule::Cursor(cursor) => {
                cursor.handle_key_down(key);
            },
            AnyModule::Dummy(_) => {},
        }
    }

    pub fn handle_key_up(&mut self, key: Option<Key>)
        ensures
            final(self)@ == old(self)@.after_key_up(key),
    {
        match self {
            AnyModule::Canvas(canvas) => {
                canvas.handle_key_up(key);
            },
            AnyModule::Cursor(cursor) => {
                cursor.handle_key_up(key);
            },
            AnyModule::Dummy(_) => {},
        }
    }

    pub fn handle_char(&mut self, store: &mut NodeStore, character: char)
        ensures
            (final(self)@, final(store)@) == old(self)@.after_char(old(store)@, character),
    {
        match self {
            AnyModule::Canvas(canvas) => {
                canvas.handle_char(store, character);
            },
            _ => {},
        }
    }
}

/// The modules in the order of their registration, and the registry
/// that knows which of them is active.
#[derive(Debug)]
pub struct Workspace {
    pub modules: Vec<AnyModule>,
    pub registry: ModuleRegistry,
}

/// The state of a workspace, as mathematical values.
pub struct WorkspaceState {
    pub modules: Seq<ModuleState>,
    pub registry: RegistryState,
}

impl View for Workspace {
    type V = WorkspaceState;

    open spec fn view(&self) -> WorkspaceState {
        WorkspaceState {
            modules: Seq::new(self.modules@.len(), |i: int| self.modules@[i]@),
            registry: self.registry@,
        }
    }
}

impl WorkspaceState {
    /// Whether there is a module at the active position.
    pub open spec fn routed(self) -> bool {
        self.registry.active < self.modules.len()
    }

    /// The module that calls are handed to.
    pub open spec fn active_module(self) -> ModuleState
        recommends
            self.routed(),
    {
        self.modules[self.registry.active as int]
    }

    /// The workspace with `module` in the place of the active module,
    /// and the workspace itself where there is none.
    pub open spec fn with_active(self, module: ModuleState) -> WorkspaceState {
        if self.routed() {
            WorkspaceState {
                modules: self.modules.update(self.registry.active as int, module),
                ..self
            }
        } else {
            self
        }
    }

    /// The workspace after a switch to the module at `target`: only the
    /// registry changes.
    pub open spec fn after_switch(self, target: nat) -> WorkspaceState {
        WorkspaceState { registry: self.registry.after_switch(target), ..self }
    }

    /// What the workspace draws: what its active module draws.
    pub open spec fn draw_commands(self, frame: Frame) -> Seq<DrawCommand> {
        if self.routed() {
            self.active_module().draw_commands(frame)
        } else {
            Seq::<DrawCommand>::empty()
        }
    }
}

impl Workspace {
    /// A workspace of the given modules with the first one active, and
    /// `None` where there is no module.
    pub fn new(modules: Vec<AnyModule>) -> (workspace: Option<Workspace>)
        ensures
            workspace is Some <==> modules@.len() > 0,
            workspace is Some ==> workspace->0.modules == modules && workspace->0@.registry == (
            RegistryState { count: modules@.len(), active: 0 }),
    {
        match ModuleRegistry::new(modules.len()) {
            Some(registry) => Some(Workspace { modules, registry }),
            None => None,
        }
    }

    /// The names of the modules, in the order of their registration.
    pub fn names(&self) -> (names: Vec<String>)
        ensures
            names@.len() == self@.modules.len(),
            forall|i: int| 0 <= i < names@.len() ==> (#[trigger] names@[i])@ == self@.modules[i].name(),
    {
        let mut names: Vec<String> = Vec::new();
        let mut i: usize = 0;
        while i < self.modules.len()
            invariant
                i <= self.modules@.len(),
                names@.len() == i,
                forall|k: int| 0 <= k < i ==> (#[trigger] names@[k])@ == self@.modules[k].name(),
            decreases self.modules.len() - i,
        {
            names.push(self.modules[i].get_name());
            i += 1;
        }
        names
    }

    /// Makes the module at `target` the active one, and returns the
    /// lifecycle calls that are due before the next draw.
    pub fn switch_to(&mut self, target: usize) -> (calls: Vec<ModuleCall>)
        ensures
            final(self)@ == old(self)@.after_switch(target as nat),
            calls@ == old(self)@.registry.switch_calls(target as nat),
    {
        self.registry.switch_to(target)
    }

    /// Begins a frame of the active module.
    pub fn advance(&mut self, viewport: Rect, delta_micros: u64)
        ensures
            final(self)@ == old(self)@.with_active(
                old(self)@.active_module().after_advance(viewport, delta_micros),
            ),
    {
        let index = self.registry.active();
        if index < self.modules.len() {
            self.modules[index].advance(viewport, delta_micros);
            proof {
                assert(self@.modules =~= old(self)@.with_active(
                    old(self)@.active_module().after_advance(viewport, delta_micros),
                ).modules);
            }
        }
    }

    /// Draws the active module.
    pub fn draw(&mut self, frame: &Frame) -> (commands: Vec<DrawCommand>)
        ensures
            final(self)@ == old(self)@.with_active(old(self)@.active_module().after_draw(*frame)),
            commands@ == old(self)@.draw_commands(*frame),
    {
        let index = self.registry.active();
        if index < self.modules.len() {
            let commands = self.modules[index].draw(frame);
            proof {
                assert(self@.modules =~= old(self)@.with_active(
                    old(self)@.active_module().after_draw(*frame),
                ).modules);
            }
            commands
        } else {
            Vec::new()
        }
    }

    /// Hands a button that went down to the active module.
    pub fn handle_mouse_down(
        &mut self,
        store: &mut NodeStore,
        sizes: &Vec<Point>,
        position: MousePosition,
        click_count: i32,
        button: MouseButton,
        now: u64,
    )
        ensures
            old(self)@.routed() ==> final(self)@ == old(self)@.with_active(
                old(self)@.active_module().after_mouse_down(
                    old(store)@,
                    sizes@,
                    position.viewport_position,
                    click_count,
                    button,
                    now,
                ).0,
            ) && final(store)@ == old(self)@.active_module().after_mouse_down(
                old(store)@,
                sizes@,
                position.viewport_position,
                click_count,
                button,
                now,
            ).1,
            !old(self)@.routed() ==> final(self)@ == old(self)@ && final(store)@ == old(store)@,
    {
        let index = self.registry.active();
        if index < self.modules.len() {
            self.modules[index].handle_mouse_down(store, sizes, position, click_count, button, now);
            proof {
                assert(self@.modules =~= old(self)@.with_active(
                    old(self)@.active_module().after_mouse_down(
                        old(store)@,
                        sizes@,
                        position.viewport_position,
                        click_count,
                        button,
                        now,
                    ).0,
                ).modules);
            }
        }
    }

    /// Hands a button that went up to the active module.
    pub fn handle_mouse_up(
        &mut self,
        sizes: &Vec<Point>,
        position: MousePosition,
        click_count: i32,
        button: MouseButton,
    )
        ensures
            final(self)@ == old(self)@.with_active(
                old(self)@.active_module().after_mouse_up(sizes@, button),
            ),
    {
        let index = self.registry.active();
        if index < self.modules.len() {
            self.modules[index].handle_mouse_up(sizes, position, click_count, button);
            proof {
                assert(self@.modules =~= old(self)@.with_active(
                    old(self)@.active_module().after_mouse_up(sizes@, button),
                ).modules);
            }
        }
    }

    /// Hands a move of the pointer to the active module.
    pub fn handle_mouse_move(&mut self, sizes: &Vec<Point>, position: MousePosition)
        ensures
            final(self)@ == old(self)@.with_active(
                old(self)@.active_module().after_mouse_move(sizes@, position.viewport_position),
            ),
    {
        let index = self.registry.active();
        if index < self.modules.len() {
            self.modules[index].handle_mouse_move(sizes, position);
            proof {
                assert(self@.modules =~= old(self)@.with_active(
                    old(self)@.active_module().after_mouse_move(
                        sizes@,
                        position.viewport_position,
                    ),
                ).modules);
            }
        }
    }

    /// Hands a scroll to the active module.
    pub fn handle_drag(&mut self, position: MousePosition, distance: MouseScrollDistance)
        ensures
            final(self)@ == old(self)@.with_active(
                old(self)@.active_module().after_drag(position.viewport_position, distance),
            ),
    {
        let index = self.registry.active();
        if index < self.modules.len() {
            self.modules[index].handle_drag(position, distance);
            proof {
                assert(self@.modules =~= old(self)@.with_active(
                    old(self)@.active_module().after_drag(position.viewport_position, distance),
                ).modules);
            }
        }
    }

    /// Hands a key that went down to the active module.
    pub fn handle_key_down(&mut self, key: Option<Key>, store: &NodeStore, now: u64)
        ensures
            final(self)@ == old(self)@.with_active(
                old(self)@.active_module().after_key_down(key, store@, now),
            ),
    {
        let index = self.registry.active();
        if index < self.modules.len() {
            self.modules[index].handle_key_down(key, store, now);
            proof {
                assert(self@.modules =~= old(self)@.with_active(
                    old(self)@.active_module().after_key_down(key, store@, now),
                ).modules);
            }
        }
    }

    /// Hands a key that went up to the active module.
    pub fn handle_key_up(&mut self, key: Option<Key>)
        ensures
            final(self)@ == old(self)@.with_active(old(self)@.active_module().after_key_up(key)),
    {
        let index = self.registry.active();
        if index < self.modules.len() {
            self.modules[index].handle_key_up(key);
            proof {
                assert(self@.modules =~= old(self)@.with_active(
                    old(self)@.active_module().after_key_up(key),
                ).modules);
            }
        }
    }

    /// Hands a character to the active module.
    pub fn handle_char(&mut self, store: &mut NodeStore, character: char)
        ensures
            old(self)@.routed() ==> final(self)@ == old(self)@.with_active(
                old(self)@.active_module().after_char(old(store)@, character).0,
            ) && final(store)@ == old(self)@.active_module().after_char(old(store)@, character).1,
            !old(self)@.routed() ==> final(self)@ == old(self)@ && final(store)@ == old(store)@,
    {
        let index = self.registry.active();
        if index < self.modules.len() {
            self.modules[index].handle_char(store, character);
            proof {
                assert(self@.modules =~= old(self)@.with_active(
                    old(self)@.active_module().after_char(old(store)@, character).0,
                ).modules);
            }
        }
    }
}

/// After a switch from one module to another, the next draw is that of
/// the module switched to, in the state it was left in. Before it exactly
/// two lifecycle calls are due, in this order: the module that was active
/// is closed, and the one switched to is opened. The switch itself changes
/// no module.
pub proof fn lemma_switch_reroutes_draw(workspace: WorkspaceState, target: nat, frame: Frame)
    requires
        workspace.registry.count == workspace.modules.len(),
        target < workspace.registry.count,
    ensures
        workspace.after_switch(target).draw_commands(frame)
            == workspace.modules[target as int].draw_commands(frame),
        workspace.after_switch(target).modules == workspace.modules,
        workspace.registry.switch_calls(target) == seq![
            ModuleCall::Close(workspace.registry.active as usize),
            ModuleCall::Open(target as usize),
        ],
{
}

} // verus!
