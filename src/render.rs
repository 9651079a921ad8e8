use vstd::prelude::*;
use orbclient::Color;
use crate::components::Shape;
use crate::entity::Entity;
use crate::world::World;

verus! {

/// One step of painting a frame, in surface pixels.
pub enum DrawCommand {
    /// Fill a rectangle with a color.
    FillRect { x: u32, y: u32, width: usize, height: usize, color: Color },
    /// Stroke the outline of a rectangle with a color and a line width.
    StrokeRect { x: u32, y: u32, width: usize, height: usize, color: Color, line_width: u32 },
    /// Draw the text component of an entity with its top-left corner at a point.
    Text { x: u32, y: u32, entity: Entity },
}

/// The size of the surface a frame is painted on: that of the root's window
/// component, when the tree has a root and the root has one.
pub open spec fn spec_frame_size(w: World) -> Option<(u32, u32)> {
    match w.spec_tree().spec_root() {
        Some(r) => match w.window_of(r) {
            Some(wc) => Some((wc.width, wc.height)),
            None => None,
        },
        None => None,
    }
}

/// The size of the surface the next frame is painted on.
pub fn get_window_comp_size(world: &World) -> (r: Option<(u32, u32)>)
    requires
        world.wf(),
    ensures
        r == spec_frame_size(*world),
{
    match world.tree().root() {
        Some(root) => match world.window(root) {
            Some(wc) => Some((wc.width, wc.height)),
            None => None,
        },
        None => None,
    }
}

/// The fully transparent color a rectangle without background is filled with.
pub open spec fn transparent() -> Color {
    Color { data: 0 }
}

/// What painting the shape of slot `i` takes: a rectangle is filled with its
/// background, or with transparency, then stroked with its border if it has
/// one, as wide as the border's top edge. A circle is not painted.
pub open spec fn shape_commands(w: World, i: int) -> Seq<DrawCommand> {
    let e = w.entity_at(i);
    if w.is_alive(e) && w.position_of(e) is Some && w.render_of(e) is Some && w.size_of(e) is Some {
        let p = w.position_of(e)->0;
        let rc = w.render_of(e)->0;
        let s = w.size_of(e)->0;
        match rc.shape {
            Shape::Rectangle => {
                let fill = DrawCommand::FillRect {
                    x: p.x,
                    y: p.y,
                    width: s.width,
                    height: s.height,
                    color: match rc.background {
                        Some(c) => c,
                        None => transparent(),
                    },
                };
                match rc.border {
                    Some(b) => seq![
                        fill,
                        DrawCommand::StrokeRect {
                            x: p.x,
                            y: p.y,
                            width: s.width,
                            height: s.height,
                            color: b.color,
                            line_width: b.top,
                        },
                    ],
                    None => seq![fill],
                }
            },
            Shape::Circle(_) => Seq::empty(),
        }
    } else {
        Seq::empty()
    }
}

/// The text of slot `i`, drawn at the entity's position.
pub open spec fn text_commands(w: World, i: int) -> Seq<DrawCommand> {
    let e = w.entity_at(i);
    if w.is_alive(e) && w.position_of(e) is Some && w.text_of(e) is Some {
        seq![DrawCommand::Text { x: w.position_of(e)->0.x, y: w.position_of(e)->0.y, entity: e }]
    } else {
        Seq::empty()
    }
}

pub open spec fn shapes_upto(w: World, n: nat) -> Seq<DrawCommand>
    decreases n,
{
    if n == 0 {
        Seq::empty()
    } else {
        shapes_upto(w, (n - 1) as nat) + shape_commands(w, n - 1)
    }
}

pub open spec fn texts_upto(w: World, n: nat) -> Seq<DrawCommand>
    decreases n,
{
    if n == 0 {
        Seq::empty()
    } else {
        texts_upto(w, (n - 1) as nat) + text_commands(w, n - 1)
    }
}

/// Every shape in slot order, then every text in slot order.
pub open spec fn spec_frame_commands(w: World) -> Seq<DrawCommand> {
    shapes_upto(w, w.slots()) + texts_upto(w, w.slots())
}

/// The commands that paint one frame of the world.
pub fn frame_commands(world: &World) -> (r: Vec<DrawCommand>)
    requires
        world.wf(),
    ensures
        r@ == spec_frame_commands(*world),
{
    let n = world.slot_count();
    let mut shapes: Vec<DrawCommand> = Vec::new();
    let mut i: usize = 0;
    while i < n
        invariant
            world.wf(),
            n == world.slots(),
            0 <= i <= n,
            shapes@ == shapes_upto(*world, i as nat),
        decreases n - i,
    {
        let ghost before = shapes@;
        if let Some(e) = world.entity_in_slot(i) {
            if let (Some(p), Some(rc), Some(s)) = (world.position(e), world.render(e), world.size(e)) {
                match rc.shape {
                    Shape::Rectangle => {
                        let color = match rc.background {
                            Some(c) => c,
                            None => Color { data: 0 },
                        };
                        shapes.push(
                            DrawCommand::FillRect {
                                x: p.x,
                                y: p.y,
                                width: s.width,
                                height: s.height,
                                color,
                            },
                        );
                        if let Some(b) = rc.border {
                            shapes.push(
                                DrawCommand::StrokeRect {
                                    x: p.x,
                                    y: p.y,
                                    width: s.width,
                                    height: s.height,
                                    color: b.color,
                                    line_width: b.top,
                                },
                            );
                        }
                    },
                    Shape::Circle(_) => {},
                }
            }
        }
        assert(shapes@ =~= before + shape_commands(*world, i as int));
        i = i + 1;
    }
    let mut texts: Vec<DrawCommand> = Vec::new();
    let mut j: usize = 0;
    while j < n
        invariant
            world.wf(),
            n == world.slots(),
            0 <= j <= n,
            texts@ == texts_upto(*world, j as nat),
        decreases n - j,
    {
        let ghost before = texts@;
        if let Some(e) = world.entity_in_slot(j) {
            if let Some(p) = world.position(e) {
                if world.text(e).is_some() {
                    texts.push(DrawCommand::Text { x: p.x, y: p.y, entity: e });
                }
            }
        }
        assert(texts@ =~= before + text_commands(*world, j as int));
        j = j + 1;
    }
    shapes.append(&mut texts);
    shapes
}

/// The pixel value that four bytes of the surface hold, read as a little-endian word.
pub open spec fn spec_pixel(bytes: Seq<u8>, i: int) -> u32 {
    (bytes[4 * i] + bytes[4 * i + 1] * 0x100 + bytes[4 * i + 2] * 0x10000 + bytes[4 * i + 3]
        * 0x1000000) as u32
}

/// Copies a painted surface into the host window's pixels, when the surface holds
/// exactly as many whole pixels as the host buffer; otherwise the host buffer is
/// left as it is, and the frame is dropped.
pub fn swap_frame_buffer(bytes: &[u8], host: &mut Vec<Color>) -> (copied: bool)
    ensures
        copied == (bytes@.len() / 4 == old(host)@.len()),
        copied ==> final(host)@.len() == old(host)@.len() && forall|i: int|
            0 <= i < final(host)@.len() ==> #[trigger] final(host)@[i].data == spec_pixel(bytes@, i),
        !copied ==> final(host)@ == old(host)@,
{
    let blen = bytes.len();
    let len = blen / 4;
    if len != host.len() {
        return false;
    }
    let mut i: usize = 0;
    while i < len
        invariant
            blen == bytes@.len(),
            len == blen / 4,
            host@.len() == len,
            0 <= i <= len,
            forall|k: int| 0 <= k < i ==> #[trigger] host@[k].data == spec_pixel(bytes@, k),
        decreases len - i,
    {
        assert(4 * i + 3 < blen) by (nonlinear_arith)
            requires
                i < len,
                len == blen / 4,
        ;
        let k = 4 * i;
        let b0 = bytes[k] as u32;
        let b1 = bytes[k + 1] as u32;
        let b2 = bytes[k + 2] as u32;
        let b3 = bytes[k + 3] as u32;
        let data = b0 + b1 * 0x100 + b2 * 0x10000 + b3 * 0x1000000;
        host.set(i, Color { data });
        i = i + 1;
    }
    true
}


/// The entities that carry a text component among the first `n` slots, in slot order.
pub open spec fn texts_of_upto(w: World, n: nat) -> Seq<Entity>
    decreases n,
{
    if n == 0 {
        Seq::empty()
    } else if w.is_alive(w.entity_at(n - 1)) && w.text_of(w.entity_at(n - 1)) is Some {
        texts_of_upto(w, (n - 1) as nat).push(w.entity_at(n - 1))
    } else {
        texts_of_upto(w, (n - 1) as nat)
    }
}

/// Lists the widgets that carry text, for inspection.
pub struct TextRenderSystem {}

impl TextRenderSystem {
    /// Every entity with a text component, in slot order.
    pub fn run(&self, world: &World) -> (r: Vec<Entity>)
        requires
            world.wf(),
        ensures
            r@ == texts_of_upto(*world, world.slots()),
    {
        let n = world.slot_count();
        let mut r: Vec<Entity> = Vec::new();
        let mut i: usize = 0;
        while i < n
            invariant
                world.wf(),
                n == world.slots(),
                0 <= i <= n,
                r@ == texts_of_upto(*world, i as nat),
            decreases n - i,
        {
            if let Some(e) = world.entity_in_slot(i) {
                if world.text(e).is_some() {
                    r.push(e);
                }
            }
            i = i + 1;
        }
        r
    }
}

} // verus!
