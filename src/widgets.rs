use vstd::prelude::*;
use orbclient::Color;
use crate::components::{
    argb, Border, PositionComponent, RenderComponent, Shape, SizeComponent, TextComponent,
    DEFAULT_FONT_FAMILY_NAME,
};
use crate::constraints::Constraints;
use crate::entity::Entity;
use crate::layout::{CenterLayout, Layout, LayoutComponent};
use crate::world::World;

verus! {

/// A widget that stands for one entity.
pub trait Widget {
    fn entity() -> Entity;
}

pub const LABEL_DEFAULT_WIDTH: usize = 150;

pub const LABEL_DEFAULT_HEIGHT: usize = 55;

/// A text on a painted rectangle.
pub struct Label {}

impl Label {
    pub fn new(text: String) -> (r: LabelBuilder)
        ensures
            r.spec_text().text == text,
            r.spec_text().font_family@ == DEFAULT_FONT_FAMILY_NAME@,
            r.spec_text().font_size == 12,
            r.spec_text().text_color.data == argb(255, 255, 255, 255),
            r.spec_render() == (RenderComponent {
                shape: Shape::Rectangle,
                background: None,
                border: None,
            }),
            r.spec_position() == (PositionComponent { x: 0, y: 0 }),
            r.spec_size() == (SizeComponent {
                width: LABEL_DEFAULT_WIDTH,
                height: LABEL_DEFAULT_HEIGHT,
            }),
    {
        LabelBuilder::new().text(text)
    }
}

/// Builds a label one property at a time.
pub struct LabelBuilder {
    background: Option<Color>,
    border: Option<Border>,
    font_family: String,
    font_size: usize,
    position: PositionComponent,
    size: SizeComponent,
    text: String,
    text_color: Color,
}

impl LabelBuilder {
    pub closed spec fn spec_render(self) -> RenderComponent {
        RenderComponent { shape: Shape::Rectangle, background: self.background, border: self.border }
    }

    pub closed spec fn spec_text(self) -> TextComponent {
        TextComponent {
            font_family: self.font_family,
            font_size: self.font_size,
            text: self.text,
            text_color: self.text_color,
        }
    }

    pub closed spec fn spec_position(self) -> PositionComponent {
        self.position
    }

    pub closed spec fn spec_size(self) -> SizeComponent {
        self.size
    }

    pub fn new() -> (r: LabelBuilder)
        ensures
            r.spec_text().text@.len() == 0,
            r.spec_text().font_family@ == DEFAULT_FONT_FAMILY_NAME@,
            r.spec_text().font_size == 12,
            r.spec_text().text_color.data == argb(255, 255, 255, 255),
            r.spec_render() == (RenderComponent {
                shape: Shape::Rectangle,
                background: None,
                border: None,
            }),
            r.spec_position() == (PositionComponent { x: 0, y: 0 }),
            r.spec_size() == (SizeComponent {
                width: LABEL_DEFAULT_WIDTH,
                height: LABEL_DEFAULT_HEIGHT,
            }),
    {
        LabelBuilder {
            background: None,
            border: None,
            font_family: DEFAULT_FONT_FAMILY_NAME.to_owned(),
            font_size: 12,
            position: PositionComponent { x: 0, y: 0 },
            size: SizeComponent { width: LABEL_DEFAULT_WIDTH, height: LABEL_DEFAULT_HEIGHT },
            text: String::new(),
            text_color: Color::rgba(255, 255, 255, 255),
        }
    }

    pub fn background(self, bg_color: Color) -> (r: LabelBuilder)
        ensures
            r.spec_render() == (RenderComponent { background: Some(bg_color), ..self.spec_render() }),
            r.spec_text() == self.spec_text(),
            r.spec_position() == self.spec_position(),
            r.spec_size() == self.spec_size(),
    {
        LabelBuilder { background: Some(bg_color), ..self }
    }

    pub fn border(self, border: Border) -> (r: LabelBuilder)
        ensures
            r.spec_render() == (RenderComponent { border: Some(border), ..self.spec_render() }),
            r.spec_text() == self.spec_text(),
            r.spec_position() == self.spec_position(),
            r.spec_size() == self.spec_size(),
    {
        LabelBuilder { border: Some(border), ..self }
    }

    pub fn font_family(self, font: String) -> (r: LabelBuilder)
        ensures
            r.spec_text() == (TextComponent { font_family: font, ..self.spec_text() }),
            r.spec_render() == self.spec_render(),
            r.spec_position() == self.spec_position(),
            r.spec_size() == self.spec_size(),
    {
        LabelBuilder { font_family: font, ..self }
    }

    pub fn font_size(self, font_size: usize) -> (r: LabelBuilder)
        ensures
            r.spec_text() == (TextComponent { font_size, ..self.spec_text() }),
            r.spec_render() == self.spec_render(),
            r.spec_position() == self.spec_position(),
            r.spec_size() == self.spec_size(),
    {
        LabelBuilder { font_size, ..self }
    }

    pub fn position(self, x: u32, y: u32) -> (r: LabelBuilder)
        ensures
            r.spec_position() == (PositionComponent { x, y }),
            r.spec_text() == self.spec_text(),
            r.spec_render() == self.spec_render(),
            r.spec_size() == self.spec_size(),
    {
        LabelBuilder { position: PositionComponent { x, y }, ..self }
    }

    pub fn size(self, width: usize, height: usize) -> (r: LabelBuilder)
        ensures
            r.spec_size() == (SizeComponent { width, height }),
            r.spec_text() == self.spec_text(),
            r.spec_render() == self.spec_render(),
            r.spec_position() == self.spec_position(),
    {
        LabelBuilder { size: SizeComponent { width, height }, ..self }
    }

    pub fn text(self, text: String) -> (r: LabelBuilder)
        ensures
            r.spec_text() == (TextComponent { text, ..self.spec_text() }),
            r.spec_render() == self.spec_render(),
            r.spec_position() == self.spec_position(),
            r.spec_size() == self.spec_size(),
    {
        LabelBuilder { text, ..self }
    }

    pub fn text_color(self, color: Color) -> (r: LabelBuilder)
        ensures
            r.spec_text() == (TextComponent { text_color: color, ..self.spec_text() }),
            r.spec_render() == self.spec_render(),
            r.spec_position() == self.spec_position(),
            r.spec_size() == self.spec_size(),
    {
        LabelBuilder { text_color: color, ..self }
    }

    /// Creates the label's entity with its position, size, painted rectangle and text.
    pub fn build(self, world: &mut World) -> (r: Entity)
        requires
            old(world).wf(),
            old(world).slots() < u32::MAX,
        ensures
            final(world).wf(),
            final(world).is_alive(r),
            !old(world).is_alive(r),
            final(world).position_of(r) == Some(self.spec_position()),
            final(world).size_of(r) == Some(self.spec_size()),
            final(world).render_of(r) == Some(self.spec_render()),
            final(world).text_of(r) == Some(self.spec_text()),
            final(world).layout_of(r) is None,
            final(world).window_of(r) is None,
            !final(world).is_clickable(r),
            final(world).spec_tree() == old(world).spec_tree(),
            final(world).slots() == old(world).slots() + 1,
            final(world).same_except(*old(world), r),
    {
        let render = RenderComponent {
            shape: Shape::Rectangle,
            background: self.background,
            border: self.border,
        };
        let text = TextComponent {
            font_family: self.font_family,
            font_size: self.font_size,
            text: self.text,
            text_color: self.text_color,
        };
        let e = world.create_entity();
        world.set_position(e, self.position);
        world.set_render(e, render);
        world.set_size(e, self.size);
        world.set_text(e, text);
        e
    }
}

/// A clickable painted rectangle with a title.
pub struct Button;

impl Button {
    pub fn new() -> (r: ButtonBuilder)
        ensures
            r.is_enabled(),
            r.spec_text().text@.len() == 0,
            r.spec_text().font_family@ == DEFAULT_FONT_FAMILY_NAME@,
            r.spec_text().font_size == 12,
            r.spec_text().text_color.data == argb(0, 0, 0, 255),
    {
        ButtonBuilder::new()
    }
}

/// The fill of every button.
pub open spec fn button_render() -> RenderComponent {
    RenderComponent {
        shape: Shape::Rectangle,
        background: Some(Color { data: argb(255, 255, 255, 255) as u32 }),
        border: None,
    }
}

/// Builds a button one property at a time. Its click handler is attached apart
/// from the world, to the entity that `build` returns.
pub struct ButtonBuilder {
    enabled: bool,
    font_family: String,
    font_size: usize,
    text_color: Color,
    title: String,
}

impl ButtonBuilder {
    pub closed spec fn is_enabled(self) -> bool {
        self.enabled
    }

    pub closed spec fn spec_text(self) -> TextComponent {
        TextComponent {
            font_family: self.font_family,
            font_size: self.font_size,
            text: self.title,
            text_color: self.text_color,
        }
    }

    pub fn new() -> (r: ButtonBuilder)
        ensures
            r.is_enabled(),
            r.spec_text().text@.len() == 0,
            r.spec_text().font_family@ == DEFAULT_FONT_FAMILY_NAME@,
            r.spec_text().font_size == 12,
            r.spec_text().text_color.data == argb(0, 0, 0, 255),
    {
        ButtonBuilder {
            enabled: true,
            font_family: DEFAULT_FONT_FAMILY_NAME.to_owned(),
            font_size: 12,
            text_color: Color::rgba(0, 0, 0, 255),
            title: String::new(),
        }
    }

    pub fn enabled(self, enabled: bool) -> (r: ButtonBuilder)
        ensures
            r.is_enabled() == enabled,
            r.spec_text() == self.spec_text(),
    {
        ButtonBuilder { enabled, ..self }
    }

    pub fn title(self, title: String) -> (r: ButtonBuilder)
        ensures
            r.is_enabled() == self.is_enabled(),
            r.spec_text() == (TextComponent { text: title, ..self.spec_text() }),
    {
        ButtonBuilder { title, ..self }
    }

    /// Whether the button starts enabled.
    pub fn get_enabled(&self) -> (r: bool)
        ensures
            r == self.is_enabled(),
    {
        self.enabled
    }

    /// Creates the button's entity: a white rectangle at (25, 60), 125 by 36,
    /// with the title as its text, that takes mouse clicks.
    pub fn build(self, world: &mut World) -> (r: Entity)
        requires
            old(world).wf(),
            old(world).slots() < u32::MAX,
        ensures
            final(world).wf(),
            final(world).is_alive(r),
            !old(world).is_alive(r),
            final(world).position_of(r) == Some(PositionComponent { x: 25, y: 60 }),
            final(world).size_of(r) == Some(SizeComponent { width: 125, height: 36 }),
            final(world).render_of(r) == Some(button_render()),
            final(world).text_of(r) == Some(self.spec_text()),
            final(world).is_clickable(r),
            final(world).layout_of(r) is None,
            final(world).window_of(r) is None,
            final(world).spec_tree() == old(world).spec_tree(),
            final(world).slots() == old(world).slots() + 1,
            final(world).same_except(*old(world), r),
    {
        let text = TextComponent {
            text: self.title,
            font_family: self.font_family,
            font_size: self.font_size,
            text_color: self.text_color,
        };
        let render = RenderComponent {
            shape: Shape::Rectangle,
            background: Some(Color::rgb(255, 255, 255)),
            border: None,
        };
        let e = world.create_entity();
        world.set_text(e, text);
        world.set_render(e, render);
        world.set_position(e, PositionComponent { x: 25, y: 60 });
        world.set_size(e, SizeComponent { width: 125, height: 36 });
        world.set_clickable(e);
        e
    }
}

/// A layout widget that centers its child within itself.
pub struct Center {}

impl Center {
    pub fn new() -> (r: CenterBuilder)
        ensures
            r.spec_child() is None,
    {
        CenterBuilder::new()
    }
}

pub struct CenterBuilder {
    child: Option<Entity>,
}

impl CenterBuilder {
    pub closed spec fn spec_child(self) -> Option<Entity> {
        self.child
    }

    fn new() -> (r: CenterBuilder)
        ensures
            r.spec_child() is None,
    {
        CenterBuilder { child: None }
    }

    pub fn child(self, child: Entity) -> (r: CenterBuilder)
        ensures
            r.spec_child() == Some(child),
    {
        CenterBuilder { child: Some(child) }
    }

    /// Creates the center widget's entity at (0, 0) with a center layout; its
    /// child, if any, is registered in the tree and becomes the widget's child.
    pub fn build(self, world: &mut World) -> (r: Entity)
        requires
            old(world).wf(),
            old(world).slots() < u32::MAX,
            self.spec_child() matches Some(c) ==> old(world).is_alive(c),
        ensures
            final(world).wf(),
            final(world).is_alive(r),
            !old(world).is_alive(r),
            final(world).position_of(r) == Some(PositionComponent { x: 0, y: 0 }),
            final(world).layout_of(r) == Some(
                LayoutComponent {
                    constraints: Constraints { min_width: 0, max_width: 0, min_height: 0, max_height: 0 },
                    object: Layout::Center(CenterLayout {}),
                },
            ),
            final(world).size_of(r) is None,
            final(world).render_of(r) is None,
            final(world).text_of(r) is None,
            final(world).window_of(r) is None,
            !final(world).is_clickable(r),
            final(world).slots() == old(world).slots() + 1,
            final(world).same_except(*old(world), r),
            final(world).spec_tree().spec_root() == old(world).spec_tree().spec_root(),
            match self.spec_child() {
                Some(c) => final(world).spec_tree().spec_parent(c) == Some(r)
                    && final(world).spec_tree().spec_child_of(r) == Some(c),
                None => final(world).spec_tree() == old(world).spec_tree(),
            },
    {
        let layout = LayoutComponent {
            constraints: Constraints { min_width: 0, max_width: 0, min_height: 0, max_height: 0 },
            object: Layout::Center(CenterLayout {}),
        };
        let widget = world.create_entity();
        world.set_layout(widget, layout);
        world.set_position(widget, PositionComponent { x: 0, y: 0 });
        if let Some(child) = self.child {
            world.add_to_tree(child);
            proof {
                world.spec_tree().lemma_unregistered(widget);
            }
            world.add_to_tree(widget);
            proof {
                world.lemma_tree_wf();
                world.spec_tree().lemma_no_parent_no_ancestor(child, widget);
            }
            world.append_child(widget, child);
        }
        widget
    }
}


/// A box that lays its children out in a row.
pub struct HBox {
    entity: Entity,
    layout: LayoutComponent,
}

impl HBox {
    pub closed spec fn spec_entity(self) -> Entity {
        self.entity
    }

    pub closed spec fn spec_layout(self) -> LayoutComponent {
        self.layout
    }

    pub fn new() -> (r: HBoxBuilder)
        ensures
            r.spec_children().len() == 0,
            r.spec_spacing() == 0,
    {
        HBoxBuilder::new()
    }

    /// The box's entity.
    pub fn entity(&self) -> (r: Entity)
        ensures
            r == self.spec_entity(),
    {
        self.entity
    }

    pub fn layout(&self) -> (r: LayoutComponent)
        ensures
            r == self.spec_layout(),
    {
        self.layout
    }
}

pub struct HBoxBuilder {
    children: Vec<Entity>,
    spacing: usize,
}

impl HBoxBuilder {
    pub closed spec fn spec_children(self) -> Seq<Entity> {
        self.children@
    }

    pub closed spec fn spec_spacing(self) -> nat {
        self.spacing as nat
    }

    pub fn new() -> (r: HBoxBuilder)
        ensures
            r.spec_children().len() == 0,
            r.spec_spacing() == 0,
    {
        HBoxBuilder { children: Vec::new(), spacing: 0 }
    }

    pub fn child(self, child: Entity) -> (r: HBoxBuilder)
        ensures
            r.spec_children() == self.spec_children().push(child),
            r.spec_spacing() == self.spec_spacing(),
    {
        let mut children = self.children;
        children.push(child);
        HBoxBuilder { children, spacing: self.spacing }
    }

    pub fn spacing(self, spacing: usize) -> (r: HBoxBuilder)
        ensures
            r.spec_children() == self.spec_children(),
            r.spec_spacing() == spacing,
    {
        HBoxBuilder { spacing, ..self }
    }

    /// Creates the box's entity with a box layout under free constraints, and
    /// makes each child, registered in the tree if it was not, a child of it.
    pub fn build(self, world: &mut World) -> (r: HBox)
        requires
            old(world).wf(),
            old(world).slots() < u32::MAX,
            forall|i: int| 0 <= i < self.spec_children().len() ==> old(world).is_alive(
                #[trigger] self.spec_children()[i],
            ),
        ensures
            final(world).wf(),
            final(world).is_alive(r.spec_entity()),
            !old(world).is_alive(r.spec_entity()),
            final(world).layout_of(r.spec_entity()) == Some(
                LayoutComponent {
                    constraints: Constraints::unbounded(),
                    object: Layout::HBox(crate::layout::HBoxLayout {}),
                },
            ),
            final(world).spec_tree().spec_root() == old(world).spec_tree().spec_root(),
            final(world).layout_of(r.spec_entity()) == Some(r.spec_layout()),
            final(world).position_of(r.spec_entity()) is None,
            final(world).size_of(r.spec_entity()) is None,
            final(world).render_of(r.spec_entity()) is None,
            final(world).text_of(r.spec_entity()) is None,
            final(world).window_of(r.spec_entity()) is None,
            !final(world).is_clickable(r.spec_entity()),
            final(world).slots() == old(world).slots() + 1,
            final(world).same_except(*old(world), r.spec_entity()),
            final(world).spec_tree().spec_parent(r.spec_entity()) is None,
            forall|i: int|
                0 <= i < self.spec_children().len() ==> final(world).spec_tree().spec_parent(
                    #[trigger] self.spec_children()[i],
                ) == Some(r.spec_entity()),
    {
        let layout = LayoutComponent {
            constraints: Constraints::default(),
            object: Layout::HBox(crate::layout::HBoxLayout::new()),
        };
        let entity = world.create_entity();
        world.set_layout(entity, layout);
        proof {
            world.spec_tree().lemma_unregistered(entity);
        }
        world.add_to_tree(entity);
        let ghost w1 = *world;
        let n = self.children.len();
        let mut i: usize = 0;
        while i < n
            invariant
                world.wf(),
                n == self.children@.len(),
                0 <= i <= n,
                world.is_alive(entity),
                world.spec_tree().contains(entity),
                world.spec_tree().spec_parent(entity) is None,
                world.spec_tree().spec_root() == old(world).spec_tree().spec_root(),
                world.layout_of(entity) == Some(layout),
                world.same_slots(w1),
                world.same_components(w1),
                forall|k: int| 0 <= k < n ==> #[trigger] self.children@[k] != entity,
                forall|k: int| 0 <= k < n ==> world.is_alive(#[trigger] self.children@[k]),
                forall|k: int|
                    0 <= k < i ==> world.spec_tree().spec_parent(#[trigger] self.children@[k])
                        == Some(entity),
                forall|k: int| 0 <= k < i ==> world.spec_tree().contains(#[trigger] self.children@[k]),
            decreases n - i,
        {
            let child = self.children[i];
            world.add_to_tree(child);
            proof {
                world.lemma_tree_wf();
                world.spec_tree().lemma_no_parent_no_ancestor(child, entity);
            }
            let ghost before = world.spec_tree();
            world.append_child(entity, child);
            proof {
                assert forall|k: int| 0 <= k < i + 1 implies world.spec_tree().contains(
                    #[trigger] self.children@[k],
                ) by {
                    assert(before.contains(self.children@[k]));
                    assert(world.spec_tree().entities() == before.entities());
                }
            }
            i = i + 1;
        }
        HBox { entity, layout }
    }
}

} // verus!
