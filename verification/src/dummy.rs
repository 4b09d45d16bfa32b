//! A module that shows nothing but a blue area.

use crate::draw::{DrawCommand, BLUE};
use crate::geometry::Rect;
use vstd::prelude::*;
use vstd::string::*;

verus! {

/// The module without behaviour: it ignores all input.
#[derive(Debug)]
pub struct DummyModule {}

impl DummyModule {
    pub fn new() -> (module: DummyModule) {
        DummyModule {  }
    }

    pub fn get_name(&self) -> (name: String)
        ensures
            name@ == "Dummy Module"@,
    {
        String::from_str("Dummy Module")
    }

    /// Fills the module's area with blue.
    pub fn draw(&mut self, viewport: Rect, _delta_micros: u64) -> (commands: Vec<DrawCommand>)
        ensures
            commands@ == seq![DrawCommand::Rectangle { rect: viewport, color: BLUE }],
    {
        let mut commands: Vec<DrawCommand> = Vec::new();
        commands.push(DrawCommand::Rectangle { rect: viewport, color: BLUE });
        commands
    }

    /// The notice to show when the module becomes the active one.
    pub fn open(&mut self) -> (notice: String)
        ensures
            notice@ == "loaded dummy module"@,
    {
        String::from_str("loaded dummy module")
    }

    /// The notice to show when the module stops being the active one.
    pub fn close(&mut self) -> (notice: String)
        ensures
            notice@ == "unloaded dummy module"@,
    {
        String::from_str("unloaded dummy module")
    }
}

} // verus!
