use vstd::prelude::*;
use crate::components::{
    PositionComponent, RenderComponent, SizeComponent, TextComponent, WindowComponent,
};
use crate::entity::Entity;
use crate::layout::LayoutComponent;
use crate::tree::EntityTree;

verus! {

/// The entity/component store: a dense array of slots, each with a generation,
/// and one optional component of each kind per slot. The widget tree is held
/// beside the components.
pub struct World {
    generations: Vec<u32>,
    alive: Vec<bool>,
    positions: Vec<Option<PositionComponent>>,
    sizes: Vec<Option<SizeComponent>>,
    renders: Vec<Option<RenderComponent>>,
    texts: Vec<Option<TextComponent>>,
    windows: Vec<Option<WindowComponent>>,
    layouts: Vec<Option<LayoutComponent>>,
    clickables: Vec<bool>,
    tree: EntityTree,
}

impl World {
    /// The number of slots handed out so far.
    pub closed spec fn slots(self) -> nat {
        self.generations@.len()
    }

    pub closed spec fn is_alive(self, e: Entity) -> bool {
        e.index < self.generations@.len() && self.alive@[e.index as int]
            && self.generations@[e.index as int] == e.generation
    }

    pub closed spec fn position_of(self, e: Entity) -> Option<PositionComponent> {
        if self.is_alive(e) {
            self.positions@[e.index as int]
        } else {
            None
        }
    }

    pub closed spec fn size_of(self, e: Entity) -> Option<SizeComponent> {
        if self.is_alive(e) {
            self.sizes@[e.index as int]
        } else {
            None
        }
    }

    pub closed spec fn render_of(self, e: Entity) -> Option<RenderComponent> {
        if self.is_alive(e) {
            self.renders@[e.index as int]
        } else {
            None
        }
    }

    pub closed spec fn text_of(self, e: Entity) -> Option<TextComponent> {
        if self.is_alive(e) {
            self.texts@[e.index as int]
        } else {
            None
        }
    }

    pub closed spec fn window_of(self, e: Entity) -> Option<WindowComponent> {
        if self.is_alive(e) {
            self.windows@[e.index as int]
        } else {
            None
        }
    }

    pub closed spec fn layout_of(self, e: Entity) -> Option<LayoutComponent> {
        if self.is_alive(e) {
            self.layouts@[e.index as int]
        } else {
            None
        }
    }

    pub closed spec fn is_clickable(self, e: Entity) -> bool {
        self.is_alive(e) && self.clickables@[e.index as int]
    }

    pub closed spec fn spec_tree(self) -> EntityTree {
        self.tree
    }

    /// The entity that occupies slot `i` in its current generation.
    pub closed spec fn entity_at(self, i: int) -> Entity {
        Entity { index: i as u32, generation: self.generations@[i] }
    }

    pub closed spec fn wf(self) -> bool {
        &&& self.generations@.len() <= u32::MAX
        &&& self.alive@.len() == self.generations@.len()
        &&& self.positions@.len() == self.generations@.len()
        &&& self.sizes@.len() == self.generations@.len()
        &&& self.renders@.len() == self.generations@.len()
        &&& self.texts@.len() == self.generations@.len()
        &&& self.windows@.len() == self.generations@.len()
        &&& self.layouts@.len() == self.generations@.len()
        &&& self.clickables@.len() == self.generations@.len()
        &&& self.tree.wf()
        &&& forall|e: Entity| #[trigger] self.tree.contains(e) ==> e.index < self.generations@.len()
    }

    /// The same slots, generations and live entities as `o`.
    pub open spec fn same_slots(self, o: World) -> bool {
        &&& self.slots() == o.slots()
        &&& forall|e: Entity| #[trigger] self.is_alive(e) == o.is_alive(e)
        &&& forall|i: int| 0 <= i < self.slots() ==> #[trigger] self.entity_at(i) == o.entity_at(i)
    }

    /// The same slots and the same widget tree as `o`.
    pub open spec fn same_entities(self, o: World) -> bool {
        &&& self.same_slots(o)
        &&& self.spec_tree() == o.spec_tree()
    }

    pub open spec fn same_components(self, o: World) -> bool {
        &&& self.same_positions(o)
        &&& self.same_sizes(o)
        &&& self.same_renders(o)
        &&& self.same_texts(o)
        &&& self.same_windows(o)
        &&& self.same_layouts(o)
        &&& self.same_clickables(o)
    }

    pub open spec fn same_positions(self, o: World) -> bool {
        forall|e: Entity| #[trigger] self.position_of(e) == o.position_of(e)
    }

    pub open spec fn same_sizes(self, o: World) -> bool {
        forall|e: Entity| #[trigger] self.size_of(e) == o.size_of(e)
    }

    pub open spec fn same_renders(self, o: World) -> bool {
        forall|e: Entity| #[trigger] self.render_of(e) == o.render_of(e)
    }

    pub open spec fn same_texts(self, o: World) -> bool {
        forall|e: Entity| #[trigger] self.text_of(e) == o.text_of(e)
    }

    pub open spec fn same_windows(self, o: World) -> bool {
        forall|e: Entity| #[trigger] self.window_of(e) == o.window_of(e)
    }

    pub open spec fn same_layouts(self, o: World) -> bool {
        forall|e: Entity| #[trigger] self.layout_of(e) == o.layout_of(e)
    }

    pub open spec fn same_clickables(self, o: World) -> bool {
        forall|e: Entity| #[trigger] self.is_clickable(e) == o.is_clickable(e)
    }

    /// Every entity but `r` is live exactly when it is in `o`, with the same components.
    pub open spec fn same_except(self, o: World, r: Entity) -> bool {
        forall|x: Entity|
            x != r ==> {
                &&& #[trigger] self.is_alive(x) == o.is_alive(x)
                &&& self.position_of(x) == o.position_of(x)
                &&& self.size_of(x) == o.size_of(x)
                &&& self.render_of(x) == o.render_of(x)
                &&& self.text_of(x) == o.text_of(x)
                &&& self.window_of(x) == o.window_of(x)
                &&& self.layout_of(x) == o.layout_of(x)
                &&& self.is_clickable(x) == o.is_clickable(x)
            }
    }

    /// All components but the positions are those of `o`, and so are the entities.
    pub open spec fn same_but_positions(self, o: World) -> bool {
        &&& self.same_entities(o)
        &&& self.same_sizes(o)
        &&& self.same_renders(o)
        &&& self.same_texts(o)
        &&& self.same_windows(o)
        &&& self.same_layouts(o)
        &&& self.same_clickables(o)
    }

    pub fn new() -> (r: World)
        ensures
            r.wf(),
            r.slots() == 0,
            forall|e: Entity| !r.is_alive(e),
            r.spec_tree().entities() == Seq::<Entity>::empty(),
            r.spec_tree().spec_root() is None,
    {
        World {
            generations: Vec::new(),
            alive: Vec::new(),
            positions: Vec::new(),
            sizes: Vec::new(),
            renders: Vec::new(),
            texts: Vec::new(),
            windows: Vec::new(),
            layouts: Vec::new(),
            clickables: Vec::new(),
            tree: EntityTree::new(),
        }
    }

    /// Creates an entity in a new slot, with no component.
    pub fn create_entity(&mut self) -> (r: Entity)
        requires
            old(self).wf(),
            old(self).slots() < u32::MAX,
        ensures
            final(self).wf(),
            final(self).slots() == old(self).slots() + 1,
            r.index == old(self).slots(),
            r.generation == 0,
            final(self).is_alive(r),
            !old(self).is_alive(r),
            !old(self).spec_tree().contains(r),
            forall|e: Entity| e != r ==> final(self).is_alive(e) == old(self).is_alive(e),
            forall|i: int| 0 <= i < old(self).slots() ==> #[trigger] final(self).entity_at(i) == old(self).entity_at(i),
            final(self).entity_at(r.index as int) == r,
            final(self).spec_tree() == old(self).spec_tree(),
            final(self).position_of(r) is None,
            final(self).size_of(r) is None,
            final(self).render_of(r) is None,
            final(self).text_of(r) is None,
            final(self).window_of(r) is None,
            final(self).layout_of(r) is None,
            !final(self).is_clickable(r),
            forall|e: Entity| e != r ==> {
                &&& final(self).position_of(e) == old(self).position_of(e)
                &&& final(self).size_of(e) == old(self).size_of(e)
                &&& final(self).render_of(e) == old(self).render_of(e)
                &&& final(self).text_of(e) == old(self).text_of(e)
                &&& final(self).window_of(e) == old(self).window_of(e)
                &&& final(self).layout_of(e) == old(self).layout_of(e)
                &&& final(self).is_clickable(e) == old(self).is_clickable(e)
            },
    {
        let index = self.generations.len() as u32;
        self.generations.push(0);
        self.alive.push(true);
        self.positions.push(None);
        self.sizes.push(None);
        self.renders.push(None);
        self.texts.push(None);
        self.windows.push(None);
        self.layouts.push(None);
        self.clickables.push(false);
        Entity { index, generation: 0 }
    }

    /// Destroys a live entity: its components go, and its slot moves to the next
    /// generation so that the old identifier is no longer live. Slots are not
    /// handed out again, and the widget tree keeps its node.
    pub fn delete_entity(&mut self, e: Entity)
        requires
            old(self).wf(),
        ensures
            final(self).wf(),
            final(self).slots() == old(self).slots(),
            !final(self).is_alive(e),
            forall|x: Entity| x != e ==> final(self).is_alive(x) == old(self).is_alive(x),
            final(self).spec_tree() == old(self).spec_tree(),
            forall|x: Entity| x != e ==> {
                &&& final(self).position_of(x) == old(self).position_of(x)
                &&& final(self).size_of(x) == old(self).size_of(x)
                &&& final(self).render_of(x) == old(self).render_of(x)
                &&& final(self).text_of(x) == old(self).text_of(x)
                &&& final(self).window_of(x) == old(self).window_of(x)
                &&& final(self).layout_of(x) == old(self).layout_of(x)
                &&& final(self).is_clickable(x) == old(self).is_clickable(x)
            },
    {
        let i = e.index as usize;
        if i < self.generations.len() && self.alive[i] && self.generations[i] == e.generation {
            self.alive.set(i, false);
            if self.generations[i] < u32::MAX {
                let g = self.generations[i] + 1;
                self.generations.set(i, g);
            }
            self.positions.set(i, None);
            self.sizes.set(i, None);
            self.renders.set(i, None);
            self.texts.set(i, None);
            self.windows.set(i, None);
            self.layouts.set(i, None);
            self.clickables.set(i, false);
        }
    }

    pub fn is_live(&self, e: Entity) -> (r: bool)
        requires
            self.wf(),
        ensures
            r == self.is_alive(e),
    {
        let i = e.index as usize;
        i < self.generations.len() && self.alive[i] && self.generations[i] == e.generation
    }

    /// The number of slots handed out so far.
    pub fn slot_count(&self) -> (r: usize)
        requires
            self.wf(),
        ensures
            r == self.slots(),
    {
        self.generations.len()
    }

    /// The live entity in slot `i`, if there is one.
    pub fn entity_in_slot(&self, i: usize) -> (r: Option<Entity>)
        requires
            self.wf(),
        ensures
            r == (if i < self.slots() && self.is_alive(self.entity_at(i as int)) {
                Some(self.entity_at(i as int))
            } else {
                None::<Entity>
            }),
    {
        if i < self.generations.len() && self.alive[i] {
            Some(Entity { index: i as u32, generation: self.generations[i] })
        } else {
            None
        }
    }

    pub fn tree(&self) -> (r: &EntityTree)
        ensures
            *r == self.spec_tree(),
            self.wf() ==> r.wf(),
    {
        &self.tree
    }

    pub fn position(&self, e: Entity) -> (r: Option<PositionComponent>)
        requires
            self.wf(),
        ensures
            r == self.position_of(e),
    {
        if self.is_live(e) {
            self.positions[e.index as usize]
        } else {
            None
        }
    }

    /// Attaches a position component to a live entity, replacing any former one.
    pub fn set_position(&mut self, e: Entity, value: PositionComponent)
        requires
            old(self).wf(),
            old(self).is_alive(e),
        ensures
            final(self).wf(),
            final(self).position_of(e) == Some(value),
            forall|x: Entity| x != e ==> final(self).position_of(x) == old(self).position_of(x),
            final(self).same_entities(*old(self)),
            final(self).same_sizes(*old(self)),
            final(self).same_renders(*old(self)),
            final(self).same_texts(*old(self)),
            final(self).same_windows(*old(self)),
            final(self).same_layouts(*old(self)),
            final(self).same_clickables(*old(self)),
    {
        self.positions.set(e.index as usize, Some(value));
    }

    pub fn size(&self, e: Entity) -> (r: Option<SizeComponent>)
        requires
            self.wf(),
        ensures
            r == self.size_of(e),
    {
        if self.is_live(e) {
            self.sizes[e.index as usize]
        } else {
            None
        }
    }

    /// Attaches a size component to a live entity, replacing any former one.
    pub fn set_size(&mut self, e: Entity, value: SizeComponent)
        requires
            old(self).wf(),
            old(self).is_alive(e),
        ensures
            final(self).wf(),
            final(self).size_of(e) == Some(value),
            forall|x: Entity| x != e ==> final(self).size_of(x) == old(self).size_of(x),
            final(self).same_entities(*old(self)),
            final(self).same_positions(*old(self)),
            final(self).same_renders(*old(self)),
            final(self).same_texts(*old(self)),
            final(self).same_windows(*old(self)),
            final(self).same_layouts(*old(self)),
            final(self).same_clickables(*old(self)),
    {
        self.sizes.set(e.index as usize, Some(value));
    }

    pub fn render(&self, e: Entity) -> (r: Option<RenderComponent>)
        requires
            self.wf(),
        ensures
            r == self.render_of(e),
    {
        if self.is_live(e) {
            self.renders[e.index as usize]
        } else {
            None
        }
    }

    /// Attaches a render component to a live entity, replacing any former one.
    pub fn set_render(&mut self, e: Entity, value: RenderComponent)
        requires
            old(self).wf(),
            old(self).is_alive(e),
        ensures
            final(self).wf(),
            final(self).render_of(e) == Some(value),
            forall|x: Entity| x != e ==> final(self).render_of(x) == old(self).render_of(x),
            final(self).same_entities(*old(self)),
            final(self).same_positions(*old(self)),
            final(self).same_sizes(*old(self)),
            final(self).same_texts(*old(self)),
            final(self).same_windows(*old(self)),
            final(self).same_layouts(*old(self)),
            final(self).same_clickables(*old(self)),
    {
        self.renders.set(e.index as usize, Some(value));
    }

    pub fn text(&self, e: Entity) -> (r: Option<&TextComponent>)
        requires
            self.wf(),
        ensures
            match r {
                Some(v) => self.text_of(e) == Some(*v),
                None => self.text_of(e) is None,
            },
    {
        if self.is_live(e) {
            self.texts[e.index as usize].as_ref()
        } else {
            None
        }
    }

    /// Attaches a text component to a live entity, replacing any former one.
    pub fn set_text(&mut self, e: Entity, value: TextComponent)
        requires
            old(self).wf(),
            old(self).is_alive(e),
        ensures
            final(self).wf(),
            final(self).text_of(e) == Some(value),
            forall|x: Entity| x != e ==> final(self).text_of(x) == old(self).text_of(x),
            final(self).same_entities(*old(self)),
            final(self).same_positions(*old(self)),
            final(self).same_sizes(*old(self)),
            final(self).same_renders(*old(self)),
            final(self).same_windows(*old(self)),
            final(self).same_layouts(*old(self)),
            final(self).same_clickables(*old(self)),
    {
        self.texts.set(e.index as usize, Some(value));
    }

    pub fn window(&self, e: Entity) -> (r: Option<&WindowComponent>)
        requires
            self.wf(),
        ensures
            match r {
                Some(v) => self.window_of(e) == Some(*v),
                None => self.window_of(e) is None,
            },
    {
        if self.is_live(e) {
            self.windows[e.index as usize].as_ref()
        } else {
            None
        }
    }

    /// Attaches a window component to a live entity, replacing any former one.
    pub fn set_window(&mut self, e: Entity, value: WindowComponent)
        requires
            old(self).wf(),
            old(self).is_alive(e),
        ensures
            final(self).wf(),
            final(self).window_of(e) == Some(value),
            forall|x: Entity| x != e ==> final(self).window_of(x) == old(self).window_of(x),
            final(self).same_entities(*old(self)),
            final(self).same_positions(*old(self)),
            final(self).same_sizes(*old(self)),
            final(self).same_renders(*old(self)),
            final(self).same_texts(*old(self)),
            final(self).same_layouts(*old(self)),
            final(self).same_clickables(*old(self)),
    {
        self.windows.set(e.index as usize, Some(value));
    }

    pub fn layout(&self, e: Entity) -> (r: Option<LayoutComponent>)
        requires
            self.wf(),
        ensures
            r == self.layout_of(e),
    {
        if self.is_live(e) {
            self.layouts[e.index as usize]
        } else {
            None
        }
    }

    /// Attaches a layout component to a live entity, replacing any former one.
    pub fn set_layout(&mut self, e: Entity, value: LayoutComponent)
        requires
            old(self).wf(),
            old(self).is_alive(e),
        ensures
            final(self).wf(),
            final(self).layout_of(e) == Some(value),
            forall|x: Entity| x != e ==> final(self).layout_of(x) == old(self).layout_of(x),
            final(self).same_entities(*old(self)),
            final(self).same_positions(*old(self)),
            final(self).same_sizes(*old(self)),
            final(self).same_renders(*old(self)),
            final(self).same_texts(*old(self)),
            final(self).same_windows(*old(self)),
            final(self).same_clickables(*old(self)),
    {
        self.layouts.set(e.index as usize, Some(value));
    }

    /// Marks a live entity as one that takes mouse clicks.
    pub fn set_clickable(&mut self, e: Entity)
        requires
            old(self).wf(),
            old(self).is_alive(e),
        ensures
            final(self).wf(),
            final(self).is_clickable(e),
            forall|x: Entity| x != e ==> final(self).is_clickable(x) == old(self).is_clickable(x),
            final(self).same_entities(*old(self)),
            final(self).same_positions(*old(self)),
            final(self).same_sizes(*old(self)),
            final(self).same_renders(*old(self)),
            final(self).same_texts(*old(self)),
            final(self).same_windows(*old(self)),
            final(self).same_layouts(*old(self)),
    {
        self.clickables.set(e.index as usize, true);
    }

    pub fn clickable(&self, e: Entity) -> (r: bool)
        requires
            self.wf(),
        ensures
            r == self.is_clickable(e),
    {
        self.is_live(e) && self.clickables[e.index as usize]
    }

    /// Registers a live entity in the widget tree.
    pub fn add_to_tree(&mut self, e: Entity)
        requires
            old(self).wf(),
            old(self).is_alive(e),
        ensures
            final(self).wf(),
            final(self).same_slots(*old(self)),
            final(self).same_components(*old(self)),
            final(self).spec_tree().contains(e),
            final(self).spec_tree().spec_root() == old(self).spec_tree().spec_root(),
            final(self).spec_tree().spec_parent(e) == old(self).spec_tree().spec_parent(e),
            final(self).spec_tree().spec_children(e) == old(self).spec_tree().spec_children(e),
            forall|x: Entity|
                old(self).spec_tree().contains(x) ==> final(self).spec_tree().contains(x)
                    && final(self).spec_tree().spec_parent(x) == old(self).spec_tree().spec_parent(x)
                    && final(self).spec_tree().spec_children(x) == old(self).spec_tree().spec_children(x),
            forall|x: Entity|
                #[trigger] final(self).spec_tree().contains(x) ==> old(self).spec_tree().contains(x)
                    || x == e,
    {
        self.tree.add_node(e);
        proof {
            assert(self.tree.entities().contains(e) || self.tree.entities().last() == e);
            assert forall|x: Entity| self.tree.contains(x) implies x.index < self.generations@.len() by {
                if !old(self).tree.contains(x) {
                    let k = self.tree.entities().index_of(x);
                    assert(self.tree.entities()[k] == x);
                    if k < old(self).tree.entities().len() {
                        assert(old(self).tree.entities()[k] == x);
                    }
                }
            }
            assert forall|x: Entity| old(self).tree.contains(x) implies self.tree.contains(x) by {
                let k = old(self).tree.entities().index_of(x);
                assert(self.tree.entities()[k] == x);
            }
            assert forall|x: Entity| #[trigger] self.tree.contains(x) implies old(self).tree.contains(x)
                || x == e by {
                let k = self.tree.entities().index_of(x);
                if k < old(self).tree.entities().len() {
                    assert(old(self).tree.entities()[k] == x);
                }
            }
        }
    }

    /// Registers a live entity in the widget tree and makes it the root.
    pub fn set_root(&mut self, e: Entity)
        requires
            old(self).wf(),
            old(self).is_alive(e),
        ensures
            final(self).wf(),
            final(self).same_slots(*old(self)),
            final(self).same_components(*old(self)),
            final(self).spec_tree().spec_root() == Some(e),
            final(self).spec_tree().contains(e),
            final(self).spec_tree().spec_parent(e) == old(self).spec_tree().spec_parent(e),
            final(self).spec_tree().spec_children(e) == old(self).spec_tree().spec_children(e),
            forall|x: Entity|
                old(self).spec_tree().contains(x) ==> final(self).spec_tree().contains(x)
                    && final(self).spec_tree().spec_parent(x) == old(self).spec_tree().spec_parent(x)
                    && final(self).spec_tree().spec_children(x) == old(self).spec_tree().spec_children(x),
    {
        self.tree.set_root(e);
        proof {
            assert forall|x: Entity| self.tree.contains(x) implies x.index < self.generations@.len() by {
                if !old(self).tree.contains(x) {
                    let k = self.tree.entities().index_of(x);
                    assert(self.tree.entities()[k] == x);
                    if k < old(self).tree.entities().len() {
                        assert(old(self).tree.entities()[k] == x);
                    }
                }
            }
            assert forall|x: Entity| old(self).tree.contains(x) implies self.tree.contains(x) by {
                let k = old(self).tree.entities().index_of(x);
                assert(self.tree.entities()[k] == x);
            }
        }
    }

    /// Makes `child` the last child of `parent` in the widget tree.
    pub fn append_child(&mut self, parent: Entity, child: Entity)
        requires
            old(self).wf(),
            old(self).spec_tree().contains(parent),
            old(self).spec_tree().contains(child),
            parent != child,
            !old(self).spec_tree().is_ancestor_of(child, parent),
        ensures
            final(self).wf(),
            final(self).same_slots(*old(self)),
            final(self).same_components(*old(self)),
            old(self).spec_tree().appended(parent, child, final(self).spec_tree()),
            final(self).spec_tree().entities() == old(self).spec_tree().entities(),
            final(self).spec_tree().spec_root() == old(self).spec_tree().spec_root(),
            final(self).spec_tree().spec_parent(child) == Some(parent),
            final(self).spec_tree().spec_children(parent).contains(child),
            old(self).spec_tree().spec_children(parent).len() == 0 ==> final(self).spec_tree().spec_children(parent)
                == seq![child],
            forall|e: Entity|
                e != child ==> #[trigger] final(self).spec_tree().spec_parent(e) == old(self).spec_tree().spec_parent(e),
    {
        self.tree.append_child(parent, child);
        assert forall|x: Entity| self.tree.contains(x) implies x.index < self.generations@.len() by {
            assert(old(self).tree.contains(x));
        }
    }

    /// A well-formed world holds a well-formed tree.
    pub proof fn lemma_tree_wf(self)
        requires
            self.wf(),
        ensures
            self.spec_tree().wf(),
    {
    }

    /// An entity that has a component is live.
    pub proof fn lemma_live_if_positioned(self, e: Entity)
        requires
            self.position_of(e) is Some || self.size_of(e) is Some || self.layout_of(e) is Some
                || self.window_of(e) is Some,
        ensures
            self.is_alive(e),
    {
    }

    /// Sets the width and height of a live entity's window component, if it has one.
    pub fn set_window_size(&mut self, e: Entity, width: u32, height: u32)
        requires
            old(self).wf(),
        ensures
            final(self).wf(),
            match old(self).window_of(e) {
                Some(w) => final(self).window_of(e) == Some(WindowComponent { width, height, ..w }),
                None => final(self).window_of(e) is None,
            },
            forall|x: Entity| x != e ==> final(self).window_of(x) == old(self).window_of(x),
            final(self).same_entities(*old(self)),
            final(self).same_positions(*old(self)),
            final(self).same_sizes(*old(self)),
            final(self).same_renders(*old(self)),
            final(self).same_texts(*old(self)),
            final(self).same_layouts(*old(self)),
            final(self).same_clickables(*old(self)),
    {
        if self.is_live(e) {
            let i = e.index as usize;
            self.windows.push(None);
            let taken = self.windows.swap_remove(i);
            match taken {
                Some(w) => {
                    let mut w = w;
                    w.width = width;
                    w.height = height;
                    self.windows.set(i, Some(w));
                },
                None => {},
            }
        }
    }
}

} // verus!
