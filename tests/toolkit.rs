use mygui::{
    center_offset, frame_commands, get_window_comp_size, intersects, layout_system, measure_root,
    mouse_system, swap_frame_buffer, sync_window_size, entity_for_window, Border, Button, Center,
    Constraints, DesiredSize, DrawCommand, EntityTree, Entity, Label, Layout, LayoutComponent,
    PositionComponent, Shape, Shell, ShellAction, ShellEvent, SizeComponent, TextComponent,
    TextLayout, WindowBuilder, WindowComponent, WindowLayout, World, UNBOUNDED,
    CenterLayout, NoopLayout, HBoxLayout, Context, ButtonState, State, BorderBuilder, HBox,
    TextRenderSystem,
};
use orbclient::{ButtonEvent, Color, MouseEvent, ResizeEvent, WindowFlag};

fn window_component(width: u32, height: u32) -> WindowComponent {
    WindowComponent { id: 1, title: "test".to_string(), x: 0, y: 0, width, height }
}

fn window_world(width: u32, height: u32) -> (World, Entity) {
    let mut world = World::new();
    let constraints = Constraints { min_width: 0, max_width: width, min_height: 0, max_height: height };
    let root = entity_for_window(&mut world, window_component(width, height), constraints);
    (world, root)
}

#[test]
fn tree_add_node_is_idempotent() {
    let mut tree = EntityTree::new();
    assert!(tree.is_empty());
    let a = Entity::new(0, 0);
    tree.add_node(a);
    tree.add_node(a);
    assert_eq!(tree.count(), 1);
    assert!(!tree.is_empty());
    assert_eq!(tree.parent(a), None);
    assert_eq!(tree.child_of(a), None);
}

#[test]
fn tree_append_child_links_parent_and_children() {
    let mut tree = EntityTree::new();
    let root = Entity::new(0, 0);
    let a = Entity::new(1, 0);
    let b = Entity::new(2, 0);
    tree.set_root(root);
    tree.add_node(a);
    tree.add_node(b);
    tree.append_child(root, a);
    tree.append_child(root, b);
    assert_eq!(tree.root(), Some(root));
    assert_eq!(tree.parent(a), Some(root));
    assert_eq!(tree.parent(b), Some(root));
    assert_eq!(tree.parent(root), None);
    assert_eq!(tree.child_of(root), Some(a));
    assert_eq!(tree.children_of(root), vec![a, b]);
    assert_eq!(tree.try_children_of(Entity::new(9, 0)), None);
    assert_eq!(tree.children(), vec![root, a, b]);
    assert_eq!(tree.count(), 3);
    let loose = Entity::new(3, 0);
    let grandchild = Entity::new(4, 0);
    tree.add_node(loose);
    tree.add_node(grandchild);
    tree.append_child(a, grandchild);
    assert_eq!(tree.children(), vec![root, a, grandchild, b]);
}

#[test]
fn tree_reparenting_moves_the_child() {
    let mut tree = EntityTree::new();
    let root = Entity::new(0, 0);
    let a = Entity::new(1, 0);
    let b = Entity::new(2, 0);
    tree.set_root(root);
    tree.add_node(a);
    tree.add_node(b);
    tree.append_child(root, a);
    tree.append_child(a, b);
    assert_eq!(tree.children(), vec![root, a, b]);
    tree.append_child(root, b);
    assert_eq!(tree.parent(b), Some(root));
    assert_eq!(tree.children_of(a), vec![]);
    assert_eq!(tree.children_of(root), vec![a, b]);
}

#[test]
fn world_entities_and_generations() {
    let mut world = World::new();
    let a = world.create_entity();
    let b = world.create_entity();
    assert_eq!(a, Entity::new(0, 0));
    assert_eq!(b, Entity::new(1, 0));
    world.set_position(a, PositionComponent { x: 3, y: 4 });
    assert_eq!(world.position(a), Some(PositionComponent { x: 3, y: 4 }));
    world.delete_entity(a);
    assert!(!world.is_live(a));
    assert!(world.is_live(b));
    assert_eq!(world.position(a), None);
    assert_eq!(world.entity_in_slot(0), None);
    assert_eq!(world.slot_count(), 2);
}

#[test]
fn window_layout_passes_window_size_as_child_maximum() {
    let rc = Constraints { min_width: 0, max_width: UNBOUNDED, min_height: 0, max_height: UNBOUNDED };
    let c = WindowLayout::child_constraints(&rc, &window_component(800, 600));
    assert_eq!(c, Constraints { min_width: 0, max_width: 800, min_height: 0, max_height: 600 });

    let (mut world, root) = window_world(800, 600);
    let center = Center::new().build(&mut world);
    world.add_to_tree(center);
    world.append_child(root, center);
    let desired = measure_root(&world);
    assert_eq!(desired, Some(DesiredSize { dirty: false, width: 800, height: 600 }));
}

#[test]
fn window_layout_without_child_asks_for_its_maximum() {
    let (world, _root) = window_world(320, 200);
    assert_eq!(measure_root(&world), Some(DesiredSize { dirty: false, width: 320, height: 200 }));
}

#[test]
fn center_offset_values() {
    assert_eq!(center_offset(200, 50), 75);
    assert_eq!(center_offset(100, 20), 40);
    assert_eq!(center_offset(10, 50), 0);
    assert_eq!(center_offset(50, 50), 0);
    assert_eq!(center_offset(51, 50), 0);
    assert_eq!(center_offset(usize::MAX, 0), u32::MAX);
}

fn centered_label_world(width: u32, height: u32, label_w: usize, label_h: usize) -> (World, Entity) {
    let (mut world, root) = window_world(width, height);
    let label = Label::new("hi".to_string()).position(5, 5).size(label_w, label_h).build(&mut world);
    let center = Center::new().child(label).build(&mut world);
    world.add_to_tree(center);
    world.append_child(root, center);
    (world, label)
}

#[test]
fn center_places_child_in_the_middle() {
    let (mut world, label) = centered_label_world(200, 100, 50, 20);
    layout_system(&mut world);
    assert_eq!(world.position(label), Some(PositionComponent { x: 75, y: 40 }));
}

#[test]
fn center_clamps_an_oversized_child_to_zero() {
    let (mut world, label) = centered_label_world(200, 100, 300, 150);
    layout_system(&mut world);
    assert_eq!(world.position(label), Some(PositionComponent { x: 0, y: 0 }));
}

#[test]
fn center_arrange_directly() {
    let mut world = World::new();
    let label = Label::new("x".to_string()).size(50, 20).build(&mut world);
    let center = Center::new().child(label).build(&mut world);
    let layout = CenterLayout {};
    let desired = layout.measure(center, &Constraints { min_width: 0, max_width: 200, min_height: 0, max_height: 100 }, &world);
    assert_eq!(desired, DesiredSize { dirty: false, width: 200, height: 100 });
    layout.arrange(center, &desired, &mut world);
    assert_eq!(world.position(label), Some(PositionComponent { x: 75, y: 40 }));
}

#[test]
fn layout_twice_gives_the_same_result() {
    let (mut world, label) = centered_label_world(200, 100, 50, 20);
    let first_desired = measure_root(&world);
    layout_system(&mut world);
    let first = world.position(label);
    let second_desired = measure_root(&world);
    layout_system(&mut world);
    assert_eq!(first_desired, second_desired);
    assert_eq!(first, world.position(label));
    assert_eq!(first, Some(PositionComponent { x: 75, y: 40 }));
}

#[test]
fn leaf_layouts_measure() {
    let mut world = World::new();
    let label = Label::new("x".to_string()).size(70, 30).build(&mut world);
    let c = Constraints::default();
    assert_eq!(TextLayout {}.measure(label, &c, &world), DesiredSize { dirty: false, width: 70, height: 30 });
    let bare = world.create_entity();
    assert_eq!(TextLayout {}.measure(bare, &c, &world), DesiredSize { dirty: false, width: 0, height: 0 });
    assert_eq!(NoopLayout::new().measure(label, &c, &world), DesiredSize { dirty: false, width: 0, height: 0 });
    assert_eq!(HBoxLayout::new().measure(label, &c, &world), DesiredSize { dirty: false, width: 0, height: 0 });
    assert_eq!(c, Constraints { min_width: 0, max_width: 65535, min_height: 0, max_height: 65535 });
}

#[test]
fn layout_component_dispatch() {
    let mut world = World::new();
    let label = Label::new("x".to_string()).size(70, 30).build(&mut world);
    let lc = LayoutComponent { constraints: Constraints::default(), object: Layout::Text(TextLayout {}) };
    world.set_layout(label, lc);
    assert_eq!(lc.object.measure(label, &lc.constraints, &world), DesiredSize { dirty: false, width: 70, height: 30 });
}

#[test]
fn hit_test_excludes_the_edges() {
    let pos = PositionComponent { x: 10, y: 10 };
    let size = SizeComponent { width: 20, height: 20 };
    assert!(!intersects(&pos, &size, &MouseEvent { x: 10, y: 10 }));
    assert!(intersects(&pos, &size, &MouseEvent { x: 15, y: 15 }));
    assert!(!intersects(&pos, &size, &MouseEvent { x: 30, y: 30 }));
    assert!(!intersects(&pos, &size, &MouseEvent { x: -5, y: 15 }));
}

#[test]
fn mouse_system_fires_every_overlapping_clickable() {
    let mut world = World::new();
    let a = world.create_entity();
    world.set_position(a, PositionComponent { x: 10, y: 10 });
    world.set_size(a, SizeComponent { width: 20, height: 20 });
    world.set_clickable(a);
    let b = Button::new().title("ok".to_string()).build(&mut world);
    let c = world.create_entity();
    world.set_position(c, PositionComponent { x: 10, y: 10 });
    world.set_size(c, SizeComponent { width: 20, height: 20 });
    assert_eq!(mouse_system(&world, &MouseEvent { x: 15, y: 15 }), vec![a]);
    assert_eq!(mouse_system(&world, &MouseEvent { x: 10, y: 10 }), vec![]);
    // the button sits at (25, 60), 125 by 36
    assert_eq!(mouse_system(&world, &MouseEvent { x: 26, y: 61 }), vec![b]);
    world.set_position(a, PositionComponent { x: 20, y: 50 });
    world.set_size(a, SizeComponent { width: 20, height: 20 });
    assert_eq!(mouse_system(&world, &MouseEvent { x: 30, y: 65 }), vec![a, b]);
}

#[test]
fn resize_updates_window_and_constraints() {
    let (mut world, root) = window_world(100, 100);
    sync_window_size(root, &mut world, ResizeEvent { width: 640, height: 480 });
    let wc = world.window(root).unwrap();
    assert_eq!((wc.width, wc.height), (640, 480));
    let lc = world.layout(root).unwrap();
    assert_eq!((lc.constraints.max_width, lc.constraints.max_height), (640, 480));
    assert_eq!(get_window_comp_size(&world), Some((640, 480)));
}

#[test]
fn shell_events() {
    let (mut world, root) = window_world(100, 100);
    let b = Button::new().build(&mut world);
    let mut shell = Shell::new(root);
    assert!(matches!(shell.on_event(&mut world, ShellEvent::Mouse(MouseEvent { x: 30, y: 70 })), ShellAction::Continue));
    match shell.on_event(&mut world, ShellEvent::Button(ButtonEvent { left: true, middle: false, right: false })) {
        ShellAction::Click(hits, ev) => {
            assert_eq!(hits, vec![b]);
            assert!(ev.left);
        }
        _ => panic!("a button event must give a click"),
    }
    assert!(matches!(shell.on_event(&mut world, ShellEvent::Resize(ResizeEvent { width: 640, height: 480 })), ShellAction::Continue));
    assert_eq!(get_window_comp_size(&world), Some((640, 480)));
    assert!(matches!(shell.on_event(&mut world, ShellEvent::Other), ShellAction::Continue));
    assert!(matches!(shell.on_event(&mut world, ShellEvent::Quit), ShellAction::Quit));
}

#[test]
fn frame_buffer_swap_only_on_matching_size() {
    let mut host = vec![Color { data: 7 }; 2];
    let short = [1u8, 2, 3, 4];
    assert!(!swap_frame_buffer(&short, &mut host));
    assert_eq!(host[0].data, 7);
    assert_eq!(host[1].data, 7);
    let bytes = [1u8, 2, 3, 4, 0xff, 0, 0, 0x80];
    assert!(swap_frame_buffer(&bytes, &mut host));
    assert_eq!(host[0].data, 0x04030201);
    assert_eq!(host[1].data, 0x800000ff);
}

#[test]
fn frame_commands_paint_shapes_then_texts() {
    let (mut world, _root) = window_world(100, 100);
    let border = Border::new().color(Color::rgba(12, 255, 12, 255)).width(2).build();
    let label = Label::new("sample".to_string())
        .background(Color::rgb(125, 100, 75))
        .border(border)
        .position(5, 6)
        .size(110, 75)
        .build(&mut world);
    let circle = world.create_entity();
    world.set_position(circle, PositionComponent { x: 1, y: 1 });
    world.set_size(circle, SizeComponent { width: 4, height: 4 });
    world.set_render(circle, mygui::RenderComponent { shape: Shape::Circle(2), background: None, border: None });
    let cmds = frame_commands(&world);
    assert_eq!(cmds.len(), 3);
    match &cmds[0] {
        DrawCommand::FillRect { x, y, width, height, color } => {
            assert_eq!((*x, *y, *width, *height), (5, 6, 110, 75));
            assert_eq!(color.data, 0xff7d644b);
        }
        _ => panic!("fill expected"),
    }
    match &cmds[1] {
        DrawCommand::StrokeRect { color, line_width, .. } => {
            assert_eq!(color.data, 0xff0cff0c);
            assert_eq!(*line_width, 2);
        }
        _ => panic!("stroke expected"),
    }
    match &cmds[2] {
        DrawCommand::Text { x, y, entity } => {
            assert_eq!((*x, *y, *entity), (5, 6, label));
        }
        _ => panic!("text expected"),
    }
}

#[test]
fn rectangle_without_background_is_transparent() {
    let mut world = World::new();
    let e = Label::new(String::new()).build(&mut world);
    let cmds = frame_commands(&world);
    match &cmds[0] {
        DrawCommand::FillRect { color, width, height, .. } => {
            assert_eq!(color.data, 0);
            assert_eq!((*width, *height), (150, 55));
        }
        _ => panic!("fill expected"),
    }
    assert!(matches!(cmds[1], DrawCommand::Text { entity, .. } if entity == e));
}

#[test]
fn defaults() {
    let t = TextComponent::default();
    assert_eq!(t.font_family, "Roboto-Medium");
    assert_eq!(t.font_size, 12);
    assert_eq!(t.text, "");
    assert_eq!(t.text_color.data, 0xff000000);
    let b = Border::default();
    assert_eq!(b.color.data, 0xff000000);
    assert_eq!((b.left, b.top, b.right, b.bottom, b.radius), (1, 1, 1, 1, 0));
    let built = BorderBuilder::new().left(3).top(4).right(5).bottom(6).radius(2).build();
    assert_eq!((built.left, built.top, built.right, built.bottom, built.radius), (3, 4, 5, 6, 2));
}

#[test]
fn button_build_components() {
    let mut world = World::new();
    let b = Button::new().enabled(false).title("go".to_string()).build(&mut world);
    assert_eq!(world.position(b), Some(PositionComponent { x: 25, y: 60 }));
    assert_eq!(world.size(b), Some(SizeComponent { width: 125, height: 36 }));
    assert!(world.clickable(b));
    assert_eq!(world.text(b).unwrap().text, "go");
    assert_eq!(world.render(b).unwrap().background.unwrap().data, 0xffffffff);
}

#[test]
fn window_builder_settings() {
    let b = WindowBuilder::new().title("t").width(155).height(355).x(500).y(500);
    assert_eq!(b.geometry(), (500, 500, 155, 355));
    assert_eq!(b.get_title(), "t");
    let c = WindowBuilder::new().centered(Some((1920, 1080)));
    assert_eq!(c.geometry(), (480, 270, 960, 540));
    let same = WindowBuilder::new().centered(None);
    assert_eq!(same.geometry(), (0, 0, 100, 100));
    let m = WindowBuilder::new().maximized(Some((800, 600)));
    assert_eq!(m.geometry(), (0, 0, 800, 600));
    let default_flags = WindowBuilder::new().flags();
    assert_eq!(default_flags.len(), 1);
    assert!(matches!(default_flags[0], WindowFlag::Resizable));
    let all = WindowBuilder::new().borderless(true).transparent(true).unclosable(true).flags();
    assert!(matches!(all[0], WindowFlag::Borderless));
    assert!(matches!(all[1], WindowFlag::Unclosable));
    assert!(matches!(all[2], WindowFlag::Resizable));
    assert!(matches!(all[3], WindowFlag::Transparent));
    assert_eq!(WindowBuilder::new().borderless(true).transparent(true).unclosable(true).flags().len(), 4);
    assert_eq!(WindowBuilder::new().max_size(Some((1920, 1080))), (65535, 65535));
    assert_eq!(WindowBuilder::new().max_width(300).max_size(Some((1920, 1080))), (1920, 65535));
    assert_eq!(WindowBuilder::new().max_width(300).max_size(None), (65535, 65535));
    let k = WindowBuilder::new().min_width(10).min_height(20).constraints(None);
    assert_eq!(k, Constraints { min_width: 10, max_width: 65535, min_height: 20, max_height: 65535 });
}

#[test]
fn context_change_into() {
    let a = Entity::new(1, 0);
    let b = Entity::new(2, 0);
    let mut ctx = Context::new(a);
    assert_eq!(ctx.change_into(b), a);
    assert_eq!(ctx.entity(), b);
    let mut s = ButtonState::new();
    s.init(&mut ctx);
    s.update(&mut ctx);
    s.message(&mut ctx);
    assert_eq!(ctx.entity(), b);
}

#[test]
fn window_entity_is_root() {
    let mut world = World::new();
    let before = world.create_entity();
    world.set_position(before, PositionComponent { x: 1, y: 2 });
    let constraints = Constraints { min_width: 0, max_width: 100, min_height: 0, max_height: 50 };
    let root = entity_for_window(&mut world, window_component(100, 50), constraints);
    assert_ne!(root, before);
    assert_eq!(world.position(before), Some(PositionComponent { x: 1, y: 2 }));
    assert_eq!(world.position(root), None);
    assert_eq!(world.slot_count(), 2);
    assert_eq!(world.tree().root(), Some(root));
    assert_eq!(world.layout(root).unwrap().object, Layout::Window(WindowLayout {}));
    assert_eq!(get_window_comp_size(&world), Some((100, 50)));
}

#[test]
fn hbox_adopts_its_children_in_order() {
    let mut world = World::new();
    let a = world.create_entity();
    let b = world.create_entity();
    let hbox = HBox::new().child(a).child(b).spacing(4).build(&mut world);
    let e = hbox.entity();
    assert_eq!(world.tree().parent(a), Some(e));
    assert_eq!(world.tree().parent(b), Some(e));
    assert_eq!(world.tree().parent(e), None);
    assert_eq!(world.tree().children_of(e), vec![a, b]);
    assert_eq!(world.layout(e).unwrap().object, Layout::HBox(HBoxLayout {}));
    assert_eq!(hbox.layout().constraints, Constraints::default());
}

#[test]
fn text_render_system_lists_texts() {
    let mut world = World::new();
    let plain = world.create_entity();
    let label = Label::new("a".to_string()).build(&mut world);
    let _ = plain;
    assert_eq!(TextRenderSystem {}.run(&world), vec![label]);
}
