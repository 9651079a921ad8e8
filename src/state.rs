use vstd::prelude::*;
use crate::entity::Entity;

verus! {

/// What a widget's state sees while it runs: the entity it belongs to.
pub struct Context {
    entity: Entity,
}

impl Context {
    pub closed spec fn spec_entity(self) -> Entity {
        self.entity
    }

    pub fn new(entity: Entity) -> (r: Context)
        ensures
            r.spec_entity() == entity,
    {
        Context { entity }
    }

    pub fn entity(&self) -> (r: Entity)
        ensures
            r == self.spec_entity(),
    {
        self.entity
    }

    /// Points the context at `new` and returns the entity it pointed at; point
    /// it back once the changes are made.
    pub fn change_into(&mut self, new: Entity) -> (r: Entity)
        ensures
            r == old(self).spec_entity(),
            final(self).spec_entity() == new,
    {
        let old_ctx = self.entity;
        self.entity = new;
        old_ctx
    }
}

/// The lifecycle of a stateful widget: `init` once when it is registered,
/// `update` on each later tick, and `message`, reserved for messages between
/// widgets.
pub trait State {
    fn init(&mut self, ctx: &mut Context);

    fn message(&mut self, ctx: &mut Context);

    fn update(&mut self, ctx: &mut Context);
}

/// The state of a button.
pub struct ButtonState {
    enabled: bool,
}

impl ButtonState {
    pub closed spec fn is_enabled(self) -> bool {
        self.enabled
    }

    pub fn new() -> (r: ButtonState)
        ensures
            r.is_enabled(),
    {
        ButtonState { enabled: true }
    }
}

impl State for ButtonState {
    fn init(&mut self, _ctx: &mut Context) {
    }

    fn message(&mut self, _ctx: &mut Context) {
    }

    fn update(&mut self, _ctx: &mut Context) {
    }
}

} // verus!
