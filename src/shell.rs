use vstd::prelude::*;
use orbclient::{ButtonEvent, MouseEvent, ResizeEvent};
use crate::components::WindowComponent;
use crate::constraints::Constraints;
use crate::entity::Entity;
use crate::layout::{Layout, LayoutComponent, WindowLayout};
use crate::mouse::{hits_upto, mouse_system};
use crate::render::spec_frame_size;
use crate::world::World;

verus! {

#[verifier::external_type_specification]
pub struct ExResizeEvent(ResizeEvent);

/// The layout component of `l` once the window is `width` by `height`.
pub open spec fn resized_layout(l: LayoutComponent, width: u32, height: u32) -> LayoutComponent {
    LayoutComponent {
        constraints: Constraints { max_width: width, max_height: height, ..l.constraints },
        ..l
    }
}

/// `after` is `before` with the window entity's size and maximum constraints set
/// to the new window size, where it has those components.
pub open spec fn resized(before: World, after: World, window_id: Entity, width: u32, height: u32) -> bool {
    &&& after.wf()
    &&& after.same_entities(before)
    &&& after.same_positions(before)
    &&& after.same_sizes(before)
    &&& after.same_renders(before)
    &&& after.same_texts(before)
    &&& after.same_clickables(before)
    &&& match before.layout_of(window_id) {
        Some(l) => after.layout_of(window_id) == Some(resized_layout(l, width, height)),
        None => after.layout_of(window_id) is None,
    }
    &&& match before.window_of(window_id) {
        Some(w) => after.window_of(window_id) == Some(WindowComponent { width, height, ..w }),
        None => after.window_of(window_id) is None,
    }
    &&& forall|x: Entity| x != window_id ==> #[trigger] after.layout_of(x) == before.layout_of(x)
    &&& forall|x: Entity| x != window_id ==> #[trigger] after.window_of(x) == before.window_of(x)
}

/// Keeps the window entity in step with the host window after a resize: its
/// window component takes the new size, and so do its maximum constraints.
/// A component that is missing is left missing.
pub fn sync_window_size(window_id: Entity, world: &mut World, event: ResizeEvent)
    requires
        old(world).wf(),
    ensures
        resized(*old(world), *final(world), window_id, event.width, event.height),
{
    match world.layout(window_id) {
        Some(l) => {
            proof {
                world.lemma_live_if_positioned(window_id);
            }
            let mut l = l;
            l.constraints.max_width = event.width;
            l.constraints.max_height = event.height;
            world.set_layout(window_id, l);
        },
        None => {},
    }
    world.set_window_size(window_id, event.width, event.height);
}

/// Creates the entity that stands for the host window: its geometry, and a
/// window layout under the given constraints. It becomes the root of the tree.
pub fn entity_for_window(world: &mut World, window: WindowComponent, constraints: Constraints) -> (r:
    Entity)
    requires
        old(world).wf(),
        old(world).slots() < u32::MAX,
    ensures
        final(world).wf(),
        final(world).is_alive(r),
        final(world).window_of(r) == Some(window),
        final(world).layout_of(r) == Some(
            LayoutComponent { constraints, object: Layout::Window(WindowLayout {}) },
        ),
        !old(world).is_alive(r),
        final(world).slots() == old(world).slots() + 1,
        final(world).same_except(*old(world), r),
        final(world).position_of(r) is None,
        final(world).size_of(r) is None,
        final(world).render_of(r) is None,
        final(world).text_of(r) is None,
        !final(world).is_clickable(r),
        final(world).spec_tree().spec_root() == Some(r),
        !old(world).spec_tree().contains(r),
        final(world).spec_tree().spec_parent(r) is None,
        final(world).spec_tree().spec_children(r).len() == 0,
        forall|x: Entity|
            old(world).spec_tree().contains(x) ==> final(world).spec_tree().contains(x)
                && final(world).spec_tree().spec_parent(x) == old(world).spec_tree().spec_parent(x)
                && final(world).spec_tree().spec_children(x) == old(world).spec_tree().spec_children(x),
{
    let e = world.create_entity();
    world.set_window(e, window);
    world.set_layout(e, LayoutComponent { constraints, object: Layout::Window(WindowLayout {}) });
    proof {
        world.spec_tree().lemma_unregistered(e);
    }
    world.set_root(e);
    e
}

/// The host events the frame loop reacts to.
pub enum ShellEvent {
    Quit,
    Resize(ResizeEvent),
    Button(ButtonEvent),
    Mouse(MouseEvent),
    /// Keys, clipboard, drag and drop, focus and the rest: not handled.
    Other,
}

/// What the frame loop does after an event.
pub enum ShellAction {
    /// Leave the loop.
    Quit,
    /// Go on with the next event.
    Continue,
    /// Call the click handler of each of these widgets with the button event.
    Click(Vec<Entity>, ButtonEvent),
}

/// The state the frame loop keeps between events: the window entity and the
/// last known pointer position.
pub struct Shell {
    pub window_id: Entity,
    pub mouse_pos: MouseEvent,
}

impl Shell {
    pub fn new(window_id: Entity) -> (r: Shell)
        ensures
            r.window_id == window_id,
            r.mouse_pos.x == 0,
            r.mouse_pos.y == 0,
    {
        Shell { window_id, mouse_pos: MouseEvent { x: 0, y: 0 } }
    }

    /// Decides what one host event does. A resize updates the window entity; a
    /// pointer move is remembered; a button event hits the widgets under the
    /// last known pointer position.
    pub fn on_event(&mut self, world: &mut World, event: ShellEvent) -> (r: ShellAction)
        requires
            old(world).wf(),
        ensures
            final(self).window_id == old(self).window_id,
            match event {
                ShellEvent::Quit => r is Quit && *final(world) == *old(world) && final(self).mouse_pos == old(self).mouse_pos,
                ShellEvent::Resize(e) => r is Continue && resized(
                    *old(world),
                    *final(world),
                    old(self).window_id,
                    e.width,
                    e.height,
                ) && final(self).mouse_pos == old(self).mouse_pos,
                ShellEvent::Button(b) => *final(world) == *old(world) && final(self).mouse_pos == old(self).mouse_pos
                    && match r {
                    ShellAction::Click(hits, be) => hits@ == hits_upto(
                        *old(world),
                        old(self).mouse_pos,
                        old(world).slots(),
                    ) && be == b,
                    _ => false,
                },
                ShellEvent::Mouse(m) => r is Continue && *final(world) == *old(world) && final(self).mouse_pos == m,
                ShellEvent::Other => r is Continue && *final(world) == *old(world) && final(self).mouse_pos == old(self).mouse_pos,
            },
    {
        match event {
            ShellEvent::Quit => ShellAction::Quit,
            ShellEvent::Resize(e) => {
                sync_window_size(self.window_id, world, e);
                ShellAction::Continue
            },
            ShellEvent::Button(b) => ShellAction::Click(mouse_system(world, &self.mouse_pos), b),
            ShellEvent::Mouse(m) => {
                self.mouse_pos = m;
                ShellAction::Continue
            },
            ShellEvent::Other => ShellAction::Continue,
        }
    }
}


/// After the root window is resized, its window component and its maximum
/// constraints hold the new size, and the next frame is painted on a surface of
/// exactly that size.
pub proof fn lemma_resize_sync(before: World, after: World, root: Entity, width: u32, height: u32)
    requires
        before.wf(),
        before.spec_tree().spec_root() == Some(root),
        before.window_of(root) is Some,
        before.layout_of(root) is Some,
        resized(before, after, root, width, height),
    ensures
        after.window_of(root)->0.width == width,
        after.window_of(root)->0.height == height,
        after.layout_of(root)->0.constraints.max_width == width,
        after.layout_of(root)->0.constraints.max_height == height,
        spec_frame_size(after) == Some((width, height)),
{
}

} // verus!
