//! The registry of modules and the choice of the active one.
//!
//! The registry knows its modules by their position in the order of
//! registration. It decides which lifecycle calls are due and in what
//! order; whoever owns the modules makes them, and routes every draw and
//! input call to the module at `active`.

use crate::geometry::{Point, Rect};
use vstd::prelude::*;

verus! {

/// A lifecycle call that is due on the module at the given position.
#[derive(Clone, Copy, Debug, PartialEq, Eq, Structural)]
pub enum ModuleCall {
    Load(usize),
    Unload(usize),
    Open(usize),
    Close(usize),
}

/// What a registry holds, as mathematical values.
pub struct RegistryState {
    pub count: nat,
    pub active: nat,
}

impl RegistryState {
    /// The registry after a switch to `target`: the module there becomes
    /// the active one, unless there is none.
    pub open spec fn after_switch(self, target: nat) -> RegistryState {
        if target < self.count {
            RegistryState { active: target, ..self }
        } else {
            self
        }
    }

    /// The calls that a switch to `target` makes due: the active module
    /// is closed, then the new one opened; none where there is no module at
    /// `target`.
    pub open spec fn switch_calls(self, target: nat) -> Seq<ModuleCall> {
        if target < self.count {
            seq![ModuleCall::Close(self.active as usize), ModuleCall::Open(target as usize)]
        } else {
            Seq::<ModuleCall>::empty()
        }
    }

    /// The registry after a click at `position` over the first `n` menu
    /// entries: each entry that the click hits switches to its module, in
    /// the order of the entries.
    pub open spec fn after_click(self, hitboxes: Seq<Rect>, position: Point, n: int) -> RegistryState
        decreases n,
    {
        if n <= 0 {
            self
        } else {
            let before = self.after_click(hitboxes, position, n - 1);
            if hitboxes[n - 1].spec_contains(position) {
                before.after_switch((n - 1) as nat)
            } else {
                before
            }
        }
    }

    /// The calls that a click at `position` over the first `n` menu
    /// entries makes due.
    pub open spec fn click_calls(self, hitboxes: Seq<Rect>, position: Point, n: int) -> Seq<
        ModuleCall,
    >
        decreases n,
    {
        if n <= 0 {
            Seq::<ModuleCall>::empty()
        } else {
            let before = self.after_click(hitboxes, position, n - 1);
            self.click_calls(hitboxes, position, n - 1) + if hitboxes[n - 1].spec_contains(
                position,
            ) {
                before.switch_calls((n - 1) as nat)
            } else {
                Seq::<ModuleCall>::empty()
            }
        }
    }
}

/// A fixed list of modules, one of which is active.
#[derive(Debug)]
pub struct ModuleRegistry {
    count: usize,
    active: usize,
}

impl View for ModuleRegistry {
    type V = RegistryState;

    closed spec fn view(&self) -> RegistryState {
        RegistryState { count: self.count as nat, active: self.active as nat }
    }
}

impl ModuleRegistry {
    #[verifier::type_invariant]
    closed spec fn active_exists(&self) -> bool {
        self.active < self.count
    }

    /// A registry of `count` modules with the first one active, and
    /// `None` where there is no module to be active.
    pub fn new(count: usize) -> (registry: Option<ModuleRegistry>)
        ensures
            registry is Some <==> count > 0,
            registry is Some ==> registry->0@ == (RegistryState { count: count as nat, active: 0 }),
    {
        if count == 0 {
            None
        } else {
            Some(ModuleRegistry { count, active: 0 })
        }
    }

    pub fn count(&self) -> (count: usize)
        ensures
            count == self@.count,
            count > 0,
    {
        proof {
            use_type_invariant(self);
        }
        self.count
    }

    /// The position of the module that draw and input calls go to.
    pub fn active(&self) -> (active: usize)
        ensures
            active == self@.active,
            active < self@.count,
    {
        proof {
            use_type_invariant(self);
        }
        self.active
    }

    /// The calls due at start: each module is loaded once, in the order
    /// of registration.
    pub fn load_calls(&self) -> (calls: Vec<ModuleCall>)
        ensures
            calls@ == Seq::new(self@.count, |i: int| ModuleCall::Load(i as usize)),
    {
        let mut calls: Vec<ModuleCall> = Vec::new();
        let mut i: usize = 0;
        while i < self.count
            invariant
                i <= self.count,
                calls@ == Seq::new(i as nat, |k: int| ModuleCall::Load(k as usize)),
            decreases self.count - i,
        {
            calls.push(ModuleCall::Load(i));
            i += 1;
            proof {
                assert(calls@ =~= Seq::new(i as nat, |k: int| ModuleCall::Load(k as usize)));
            }
        }
        calls
    }

    /// The calls due at shutdown: each module is unloaded once, in the
    /// order of registration.
    pub fn unload_calls(&self) -> (calls: Vec<ModuleCall>)
        ensures
            calls@ == Seq::new(self@.count, |i: int| ModuleCall::Unload(i as usize)),
    {
        let mut calls: Vec<ModuleCall> = Vec::new();
        let mut i: usize = 0;
        while i < self.count
            invariant
                i <= self.count,
                calls@ == Seq::new(i as nat, |k: int| ModuleCall::Unload(k as usize)),
            decreases self.count - i,
        {
            calls.push(ModuleCall::Unload(i));
            i += 1;
            proof {
                assert(calls@ =~= Seq::new(i as nat, |k: int| ModuleCall::Unload(k as usize)));
            }
        }
        calls
    }

    /// Makes the module at `target` the active one and returns the calls
    /// that are due before the next draw: close the module that was active,
    /// then open the new one. Without a module at `target` nothing changes
    /// and nothing is due.
    pub fn switch_to(&mut self, target: usize) -> (calls: Vec<ModuleCall>)
        ensures
            final(self)@ == old(self)@.after_switch(target as nat),
            calls@ == old(self)@.switch_calls(target as nat),
    {
        proof {
            use_type_invariant(&*self);
        }
        let mut calls: Vec<ModuleCall> = Vec::new();
        if target < self.count {
            calls.push(ModuleCall::Close(self.active));
            calls.push(ModuleCall::Open(target));
            self.active = target;
            proof {
                assert(calls@ =~= old(self)@.switch_calls(target as nat));
            }
        }
        calls
    }

    /// Handles a click at `position` on the menu whose entries occupy
    /// `hitboxes`, the entry at each position standing for the module at
    /// that position: every entry hit switches to its module.
    pub fn handle_click(&mut self, hitboxes: &Vec<Rect>, position: Point) -> (calls: Vec<ModuleCall>)
        ensures
            final(self)@ == old(self)@.after_click(hitboxes@, position, hitboxes@.len() as int),
            calls@ == old(self)@.click_calls(hitboxes@, position, hitboxes@.len() as int),
    {
        let mut calls: Vec<ModuleCall> = Vec::new();
        let mut i: usize = 0;
        while i < hitboxes.len()
            invariant
                i <= hitboxes@.len(),
                self@ == old(self)@.after_click(hitboxes@, position, i as int),
                calls@ == old(self)@.click_calls(hitboxes@, position, i as int),
            decreases hitboxes.len() - i,
        {
            if hitboxes[i].contains(position) {
                let mut due = self.switch_to(i);
                calls.append(&mut due);
            }
            proof {
                assert(calls@ =~= old(self)@.click_calls(hitboxes@, position, i + 1));
            }
            i += 1;
        }
        calls
    }
}

/// After a switch to a module that exists, that module is the one that
/// the next call is routed to, and exactly two lifecycle calls are due
/// before it, in this order: the module that was active is closed, and the
/// new one is opened.
pub proof fn lemma_switch_is_atomic(registry: RegistryState, target: nat)
    requires
        target < registry.count,
    ensures
        registry.after_switch(target).active == target,
        registry.after_switch(target).count == registry.count,
        registry.switch_calls(target) == seq![
            ModuleCall::Close(registry.active as usize),
            ModuleCall::Open(target as usize),
        ],
{
}

} // verus!
