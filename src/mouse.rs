use vstd::prelude::*;
use orbclient::{ButtonEvent, MouseEvent};
use crate::components::{PositionComponent, SizeComponent};
use crate::entity::Entity;
use crate::world::World;

verus! {

#[verifier::external_type_specification]
pub struct ExButtonEvent(ButtonEvent);

#[verifier::external_type_specification]
pub struct ExMouseEvent(MouseEvent);

/// The button of a pressed mouse click; `NoButton` when the click is a release.
#[derive(Clone, Copy, Debug, PartialEq, Eq, Structural)]
pub enum MouseButton {
    Left,
    Middle,
    Right,
    NoButton,
}

/// Whether the buttons went down or came up.
#[derive(Clone, Copy, Debug, PartialEq, Eq, Structural)]
pub enum MouseButtonState {
    Pressed,
    Released,
}

/// A mouse click, read from the host's button event. The host sends one event
/// when a button goes down and one when all are up again.
#[derive(Clone, Copy, Debug, PartialEq, Eq, Structural)]
pub struct MouseClickEvent {
    pub button: MouseButton,
    pub state: MouseButtonState,
}

/// The click a button event stands for: pressed while any button is down, and
/// then the first of left, middle, right that is down.
pub open spec fn spec_click_of(e: ButtonEvent) -> MouseClickEvent {
    if e.left || e.middle || e.right {
        MouseClickEvent {
            button: if e.left {
                MouseButton::Left
            } else if e.middle {
                MouseButton::Middle
            } else {
                MouseButton::Right
            },
            state: MouseButtonState::Pressed,
        }
    } else {
        MouseClickEvent { button: MouseButton::NoButton, state: MouseButtonState::Released }
    }
}

impl From<ButtonEvent> for MouseClickEvent {
    fn from(button_event: ButtonEvent) -> (r: MouseClickEvent)
        ensures
            r == spec_click_of(button_event),
    {
        if button_event.left || button_event.middle || button_event.right {
            let button = if button_event.left {
                MouseButton::Left
            } else if button_event.middle {
                MouseButton::Middle
            } else {
                MouseButton::Right
            };
            MouseClickEvent { button, state: MouseButtonState::Pressed }
        } else {
            MouseClickEvent { button: MouseButton::NoButton, state: MouseButtonState::Released }
        }
    }
}

impl vstd::std_specs::convert::FromSpecImpl<ButtonEvent> for MouseClickEvent {
    open spec fn obeys_from_spec() -> bool {
        true
    }

    open spec fn from_spec(v: ButtonEvent) -> MouseClickEvent {
        spec_click_of(v)
    }
}

/// The pointer lies strictly inside the widget's box: its edges do not count.
pub open spec fn spec_intersects(p: PositionComponent, s: SizeComponent, m: MouseEvent) -> bool {
    p.x < m.x && m.x < p.x + s.width && p.y < m.y && m.y < p.y + s.height
}

pub fn intersects(position: &PositionComponent, size: &SizeComponent, mouse_pos: &MouseEvent) -> (r:
    bool)
    ensures
        r == spec_intersects(*position, *size, *mouse_pos),
{
    let px = position.x as i128;
    let py = position.y as i128;
    let mx = mouse_pos.x as i128;
    let my = mouse_pos.y as i128;
    px < mx && mx < px + size.width as i128 && py < my && my < py + size.height as i128
}

/// Slot `i` holds a live, clickable widget with a position and a size that the
/// pointer lies inside.
pub open spec fn hit(w: World, m: MouseEvent, i: int) -> bool {
    let e = w.entity_at(i);
    &&& w.is_alive(e)
    &&& w.is_clickable(e)
    &&& w.position_of(e) is Some
    &&& w.size_of(e) is Some
    &&& spec_intersects(w.position_of(e)->0, w.size_of(e)->0, m)
}

/// The widgets hit among the first `n` slots, in slot order.
pub open spec fn hits_upto(w: World, m: MouseEvent, n: nat) -> Seq<Entity>
    decreases n,
{
    if n == 0 {
        Seq::empty()
    } else if hit(w, m, n - 1) {
        hits_upto(w, m, (n - 1) as nat).push(w.entity_at(n - 1))
    } else {
        hits_upto(w, m, (n - 1) as nat)
    }
}

/// The widgets whose click handlers a click at `mouse_pos` fires: every live
/// widget with a position, a size and a click handler that the pointer lies
/// strictly inside, in slot order. Overlapping widgets are all hit.
pub fn mouse_system(world: &World, mouse_pos: &MouseEvent) -> (r: Vec<Entity>)
    requires
        world.wf(),
    ensures
        r@ == hits_upto(*world, *mouse_pos, world.slots()),
{
    let n = world.slot_count();
    let mut r: Vec<Entity> = Vec::new();
    let mut i: usize = 0;
    while i < n
        invariant
            world.wf(),
            n == world.slots(),
            0 <= i <= n,
            r@ == hits_upto(*world, *mouse_pos, i as nat),
        decreases n - i,
    {
        if let Some(e) = world.entity_in_slot(i) {
            if world.clickable(e) {
                if let (Some(pos), Some(size)) = (world.position(e), world.size(e)) {
                    if intersects(&pos, &size, mouse_pos) {
                        r.push(e);
                    }
                }
            }
        }
        i = i + 1;
    }
    r
}

} // verus!
