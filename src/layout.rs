use vstd::prelude::*;
use crate::components::{PositionComponent, WindowComponent};
use crate::constraints::Constraints;
use crate::entity::Entity;
use crate::world::World;

verus! {

/// The size a widget asks for once measured. `dirty` is reserved for an
/// incremental layout and is always `false`.
#[derive(Clone, Copy, Debug, PartialEq, Eq, Structural)]
pub struct DesiredSize {
    pub dirty: bool,
    pub width: usize,
    pub height: usize,
}

/// Layout of the root window: it hands its size on to its single child.
#[derive(Clone, Copy, Debug, PartialEq, Eq, Structural)]
pub struct WindowLayout {}

/// Layout that claims all the space it is offered and centers its child in it.
#[derive(Clone, Copy, Debug, PartialEq, Eq, Structural)]
pub struct CenterLayout {}

/// Layout of a leaf that keeps its own size.
#[derive(Clone, Copy, Debug, PartialEq, Eq, Structural)]
pub struct TextLayout {}

/// Layout that asks for no space and places nothing.
#[derive(Clone, Copy, Debug, PartialEq, Eq, Structural)]
pub struct NoopLayout {}

/// Layout of a horizontal box; it does not measure or place its children yet.
#[derive(Clone, Copy, Debug, PartialEq, Eq, Structural)]
pub struct HBoxLayout {}

/// The layout behaviours a widget can have.
#[derive(Clone, Copy, Debug, PartialEq, Eq, Structural)]
pub enum Layout {
    Window(WindowLayout),
    Center(CenterLayout),
    Text(TextLayout),
    Noop(NoopLayout),
    HBox(HBoxLayout),
}

/// Attached to every entity that takes part in layout.
#[derive(Clone, Copy, Debug, PartialEq, Eq, Structural)]
pub struct LayoutComponent {
    pub constraints: Constraints,
    pub object: Layout,
}


/// What a widget that claims all it is offered asks for: the maximum of its constraints.
pub open spec fn claim_all(c: Constraints) -> DesiredSize {
    DesiredSize { dirty: false, width: c.max_width as usize, height: c.max_height as usize }
}

pub open spec fn zero_size() -> DesiredSize {
    DesiredSize { dirty: false, width: 0, height: 0 }
}

/// The offset that centers a length `child` in a length `available`; zero when
/// the child does not fit, and no more than the largest `u32`.
pub open spec fn spec_center_offset(available: usize, child: usize) -> u32 {
    if available <= child {
        0
    } else if (available - child) / 2 > u32::MAX {
        u32::MAX
    } else {
        ((available - child) / 2) as u32
    }
}

/// The offset that centers a length `child` in a length `available`.
pub fn center_offset(available: usize, child: usize) -> (r: u32)
    ensures
        r == spec_center_offset(available, child),
{
    if available <= child {
        0
    } else {
        let half = (available - child) / 2;
        if half > u32::MAX as usize {
            u32::MAX
        } else {
            half as u32
        }
    }
}

/// Where centering within `desired` moves the first child of `widget`: the child
/// and its new position, when the child has a position and a size.
pub open spec fn spec_center_target(w: World, widget: Entity, desired: DesiredSize) -> Option<
    (Entity, PositionComponent),
> {
    match w.spec_tree().spec_child_of(widget) {
        Some(c) => if w.position_of(c) is Some && w.size_of(c) is Some {
            Some(
                (
                    c,
                    PositionComponent {
                        x: spec_center_offset(desired.width, w.size_of(c)->0.width),
                        y: spec_center_offset(desired.height, w.size_of(c)->0.height),
                    },
                ),
            )
        } else {
            None
        },
        None => None,
    }
}

/// `after` is `before` with the position that `target` names, if any, written in.
pub open spec fn placed(before: World, after: World, target: Option<(Entity, PositionComponent)>) -> bool {
    &&& after.wf()
    &&& after.same_but_positions(before)
    &&& match target {
        Some((c, p)) => after.position_of(c) == Some(p) && forall|x: Entity|
            x != c ==> #[trigger] after.position_of(x) == before.position_of(x),
        None => after.same_positions(before),
    }
}

/// Writes the position that `target` names, if any.
fn place(world: &mut World, target: Option<(Entity, PositionComponent)>)
    requires
        old(world).wf(),
        target matches Some((c, p)) ==> old(world).is_alive(c),
    ensures
        placed(*old(world), *final(world), target),
{
    match target {
        Some((c, p)) => world.set_position(c, p),
        None => {},
    }
}

impl CenterLayout {
    /// A center widget claims all the space it is offered.
    pub fn measure(&self, _entity: Entity, constraints: &Constraints, _world: &World) -> (r:
        DesiredSize)
        ensures
            r == claim_all(*constraints),
    {
        DesiredSize {
            dirty: false,
            width: constraints.max_width as usize,
            height: constraints.max_height as usize,
        }
    }

    /// Centers the first child of `widget` within `desired_size`.
    pub fn arrange(&self, widget: Entity, desired_size: &DesiredSize, world: &mut World)
        requires
            old(world).wf(),
        ensures
            placed(*old(world), *final(world), spec_center_target(*old(world), widget, *desired_size)),
    {
        let target = match world.tree().child_of(widget) {
            Some(child) => match (world.position(child), world.size(child)) {
                (Some(_), Some(size)) => Some(
                    (
                        child,
                        PositionComponent {
                            x: center_offset(desired_size.width, size.width),
                            y: center_offset(desired_size.height, size.height),
                        },
                    ),
                ),
                _ => None,
            },
            None => None,
        };
        proof {
            if let Some((c, _)) = target {
                world.lemma_live_if_positioned(c);
            }
        }
        place(world, target);
    }
}

impl TextLayout {
    /// A leaf asks for its own size, whatever it is offered; none when it has no size.
    pub fn measure(&self, entity: Entity, _constraints: &Constraints, world: &World) -> (r:
        DesiredSize)
        requires
            world.wf(),
        ensures
            r == (match world.size_of(entity) {
                Some(s) => DesiredSize { dirty: false, width: s.width, height: s.height },
                None => zero_size(),
            }),
    {
        match world.size(entity) {
            Some(s) => DesiredSize { dirty: false, width: s.width, height: s.height },
            None => DesiredSize { dirty: false, width: 0, height: 0 },
        }
    }

    /// A leaf places nothing.
    pub fn arrange(&self, _widget: Entity, _desired_size: &DesiredSize, _world: &World) {
    }
}

impl NoopLayout {
    pub fn new() -> (r: NoopLayout)
        ensures
            r == (NoopLayout {}),
    {
        NoopLayout {}
    }

    pub fn measure(&self, _entity: Entity, _constraints: &Constraints, _world: &World) -> (r:
        DesiredSize)
        ensures
            r == zero_size(),
    {
        DesiredSize { dirty: false, width: 0, height: 0 }
    }

    pub fn arrange(&self, _widget: Entity, _desired_size: &DesiredSize, _world: &World) {
    }
}

impl HBoxLayout {
    pub fn new() -> (r: HBoxLayout)
        ensures
            r == (HBoxLayout {}),
    {
        HBoxLayout {}
    }

    pub fn measure(&self, _entity: Entity, _constraints: &Constraints, _world: &World) -> (r:
        DesiredSize)
        ensures
            r == zero_size(),
    {
        DesiredSize { dirty: false, width: 0, height: 0 }
    }

    pub fn arrange(&self, _widget: Entity, _desired_size: &DesiredSize, _world: &World) {
    }
}

impl Layout {
    /// What a widget below the root asks for. A window layout belongs to the
    /// root alone and is never measured as a child; it then stands for nothing.
    pub open spec fn spec_measure_child(self, e: Entity, c: Constraints, w: World) -> DesiredSize {
        match self {
            Layout::Window(_) => zero_size(),
            Layout::Center(_) => claim_all(c),
            Layout::Text(_) => match w.size_of(e) {
                Some(s) => DesiredSize { dirty: false, width: s.width, height: s.height },
                None => zero_size(),
            },
            Layout::Noop(_) => zero_size(),
            Layout::HBox(_) => zero_size(),
        }
    }

    /// The position that arranging a widget below the root writes, if any.
    pub open spec fn spec_arrange_child(self, e: Entity, d: DesiredSize, w: World) -> Option<
        (Entity, PositionComponent),
    > {
        match self {
            Layout::Center(_) => spec_center_target(w, e, d),
            _ => None,
        }
    }

    pub fn measure_child(&self, e: Entity, c: &Constraints, w: &World) -> (r: DesiredSize)
        requires
            w.wf(),
            !(self is Window),
        ensures
            r == self.spec_measure_child(e, *c, *w),
    {
        match self {
            Layout::Window(_) => DesiredSize { dirty: false, width: 0, height: 0 },
            Layout::Center(l) => l.measure(e, c, w),
            Layout::Text(l) => l.measure(e, c, w),
            Layout::Noop(l) => l.measure(e, c, w),
            Layout::HBox(l) => l.measure(e, c, w),
        }
    }

    pub fn arrange_child(&self, e: Entity, d: &DesiredSize, w: &mut World)
        requires
            old(w).wf(),
            !(self is Window),
        ensures
            placed(*old(w), *final(w), self.spec_arrange_child(e, *d, *old(w))),
    {
        match self {
            Layout::Center(l) => l.arrange(e, d, w),
            _ => place(w, None),
        }
    }
}


/// The constraints a window hands its child: the minimum of the root's
/// constraints and, as maximum, the window's current size.
pub open spec fn spec_child_constraints(root_constraints: Constraints, window: WindowComponent) -> Constraints {
    Constraints {
        min_width: root_constraints.min_width,
        max_width: window.width,
        min_height: root_constraints.min_height,
        max_height: window.height,
    }
}

/// The child of `root` that takes part in layout, if its first child does.
pub open spec fn laid_out_child(w: World, root: Entity) -> Option<Entity> {
    match w.spec_tree().spec_child_of(root) {
        Some(c) => if w.layout_of(c) is Some {
            Some(c)
        } else {
            None
        },
        None => None,
    }
}

/// What a window layout needs: a window component when it has a child to
/// measure, its own layout component when it has none.
pub open spec fn window_ready(w: World, root: Entity) -> bool {
    &&& child_not_window(w, root)
    &&& match laid_out_child(w, root) {
        Some(_) => w.window_of(root) is Some,
        None => w.layout_of(root) is Some,
    }
}

/// The window layout belongs to the root alone: the child it lays out has
/// another kind of layout.
pub open spec fn child_not_window(w: World, root: Entity) -> bool {
    match laid_out_child(w, root) {
        Some(c) => !(w.layout_of(c)->0.object is Window),
        None => true,
    }
}

impl WindowLayout {
    pub open spec fn spec_measure(root: Entity, rc: Constraints, w: World) -> DesiredSize {
        match laid_out_child(w, root) {
            Some(c) => w.layout_of(c)->0.object.spec_measure_child(
                c,
                spec_child_constraints(rc, w.window_of(root)->0),
                w,
            ),
            None => claim_all(w.layout_of(root)->0.constraints),
        }
    }

    pub open spec fn spec_arrange(root: Entity, d: DesiredSize, w: World) -> Option<
        (Entity, PositionComponent),
    > {
        match laid_out_child(w, root) {
            Some(c) => w.layout_of(c)->0.object.spec_arrange_child(c, d, w),
            None => None,
        }
    }

    pub fn child_constraints(root_constraints: &Constraints, window: &WindowComponent) -> (r:
        Constraints)
        ensures
            r == spec_child_constraints(*root_constraints, *window),
    {
        Constraints {
            min_width: root_constraints.min_width,
            max_width: window.width,
            min_height: root_constraints.min_height,
            max_height: window.height,
        }
    }

    fn child_to_lay_out(root: Entity, world: &World) -> (r: Option<(Entity, LayoutComponent)>)
        requires
            world.wf(),
        ensures
            match laid_out_child(*world, root) {
                Some(c) => r == Some((c, world.layout_of(c)->0)),
                None => r is None,
            },
    {
        match world.tree().child_of(root) {
            Some(child) => match world.layout(child) {
                Some(l) => Some((child, l)),
                None => None,
            },
            None => None,
        }
    }

    /// Measures the root's child with the window's size as its maximum; with no
    /// child to measure, the root asks for the maximum of its own constraints.
    pub fn measure(&self, root: Entity, root_constraints: &Constraints, world: &World) -> (r:
        DesiredSize)
        requires
            world.wf(),
            window_ready(*world, root),
        ensures
            r == WindowLayout::spec_measure(root, *root_constraints, *world),
    {
        match WindowLayout::child_to_lay_out(root, world) {
            Some((child, child_layout)) => {
                let window = world.window(root).unwrap();
                let constraints = WindowLayout::child_constraints(root_constraints, window);
                child_layout.object.measure_child(child, &constraints, world)
            },
            None => {
                let root_layout = world.layout(root).unwrap();
                DesiredSize {
                    dirty: false,
                    width: root_layout.constraints.max_width as usize,
                    height: root_layout.constraints.max_height as usize,
                }
            },
        }
    }

    /// Hands the whole desired size to the root's child to arrange itself in.
    pub fn arrange(&self, root: Entity, desired_size: &DesiredSize, world: &mut World)
        requires
            old(world).wf(),
            child_not_window(*old(world), root),
        ensures
            placed(*old(world), *final(world), WindowLayout::spec_arrange(root, *desired_size, *old(world))),
    {
        match WindowLayout::child_to_lay_out(root, world) {
            Some((child, child_layout)) => child_layout.object.arrange_child(child, desired_size, world),
            None => place(world, None),
        }
    }
}

impl Layout {
    pub open spec fn spec_measure(self, e: Entity, c: Constraints, w: World) -> DesiredSize {
        match self {
            Layout::Window(_) => WindowLayout::spec_measure(e, c, w),
            _ => self.spec_measure_child(e, c, w),
        }
    }

    pub open spec fn spec_arrange(self, e: Entity, d: DesiredSize, w: World) -> Option<
        (Entity, PositionComponent),
    > {
        match self {
            Layout::Window(_) => WindowLayout::spec_arrange(e, d, w),
            _ => self.spec_arrange_child(e, d, w),
        }
    }

    /// What measuring `e` needs from the world.
    pub open spec fn ready(self, e: Entity, w: World) -> bool {
        self is Window ==> window_ready(w, e)
    }

    pub fn measure(&self, e: Entity, c: &Constraints, w: &World) -> (r: DesiredSize)
        requires
            w.wf(),
            self.ready(e, *w),
        ensures
            r == self.spec_measure(e, *c, *w),
    {
        match self {
            Layout::Window(l) => l.measure(e, c, w),
            _ => self.measure_child(e, c, w),
        }
    }

    pub fn arrange(&self, e: Entity, d: &DesiredSize, w: &mut World)
        requires
            old(w).wf(),
            self is Window ==> child_not_window(*old(w), e),
        ensures
            placed(*old(w), *final(w), self.spec_arrange(e, *d, *old(w))),
    {
        match self {
            Layout::Window(l) => l.arrange(e, d, w),
            _ => self.arrange_child(e, d, w),
        }
    }
}

/// The root exists with a layout component, and that layout can be measured.
pub open spec fn layout_ready(w: World) -> bool {
    match w.spec_tree().spec_root() {
        Some(r) => w.layout_of(r) is Some && w.layout_of(r)->0.object.ready(r, w),
        None => true,
    }
}

/// What the root asks for when measured with its own constraints.
pub open spec fn spec_layout_desired(w: World) -> Option<DesiredSize> {
    match w.spec_tree().spec_root() {
        Some(r) => Some(
            w.layout_of(r)->0.object.spec_measure(r, w.layout_of(r)->0.constraints, w),
        ),
        None => None,
    }
}

/// The position that a layout pass writes, if any.
pub open spec fn spec_layout_target(w: World) -> Option<(Entity, PositionComponent)> {
    match w.spec_tree().spec_root() {
        Some(r) => w.layout_of(r)->0.object.spec_arrange(r, spec_layout_desired(w)->0, w),
        None => None,
    }
}

/// `after` is what one layout pass makes of `before`.
pub open spec fn laid_out(before: World, after: World) -> bool {
    placed(before, after, spec_layout_target(before))
}

/// Measures the root with its own constraints.
pub fn measure_root(world: &World) -> (r: Option<DesiredSize>)
    requires
        world.wf(),
        layout_ready(*world),
    ensures
        r == spec_layout_desired(*world),
{
    match world.tree().root() {
        Some(root) => {
            let root_layout = world.layout(root).unwrap();
            Some(root_layout.object.measure(root, &root_layout.constraints, world))
        },
        None => None,
    }
}

/// One layout pass from the root of the tree: measure, then arrange.
pub fn layout_system(world: &mut World)
    requires
        old(world).wf(),
        layout_ready(*old(world)),
    ensures
        laid_out(*old(world), *final(world)),
{
    match world.tree().root() {
        Some(root) => {
            let root_layout = world.layout(root).unwrap();
            let desired = root_layout.object.measure(root, &root_layout.constraints, world);
            root_layout.object.arrange(root, &desired, world);
        },
        None => place(world, None),
    }
}

/// A second layout pass on an unchanged tree asks for the same size as the
/// first and leaves every position where the first put it.
pub proof fn lemma_layout_idempotent(w0: World, w1: World, w2: World)
    requires
        w0.wf(),
        layout_ready(w0),
        laid_out(w0, w1),
        laid_out(w1, w2),
    ensures
        layout_ready(w1),
        spec_layout_desired(w1) == spec_layout_desired(w0),
        spec_layout_target(w1) == spec_layout_target(w0),
        w2.same_positions(w1),
        w2.same_but_positions(w0),
{
    assert(spec_layout_desired(w1) == spec_layout_desired(w0));
    if let Some((c, p)) = spec_layout_target(w0) {
        assert(w1.position_of(c) is Some);
    }
    assert(spec_layout_target(w1) == spec_layout_target(w0));
}

} // verus!
