//! A retained-mode GUI toolkit: widgets are entities of a component store,
//! related by a widget tree, measured and arranged by a two-pass layout, hit by
//! the mouse, and painted through a list of draw commands.

mod components;
mod constraints;
mod entity;
mod layout;
mod mouse;
mod render;
mod shell;
mod state;
mod tree;
mod widgets;
mod window;
mod world;

pub use components::{
    argb, Border, BorderBuilder, PositionComponent, RenderComponent, Shape, SizeComponent,
    TextComponent, WindowComponent, DEFAULT_FONT_FAMILY_NAME,
};
pub use constraints::{Constraints, UNBOUNDED};
pub use entity::Entity;
pub use layout::{
    center_offset, child_not_window, claim_all, laid_out, laid_out_child, layout_ready, layout_system,
    lemma_layout_idempotent, measure_root, placed, spec_center_offset, spec_center_target,
    spec_child_constraints, spec_layout_desired, spec_layout_target, window_ready, zero_size,
    CenterLayout, DesiredSize, HBoxLayout, Layout, LayoutComponent, NoopLayout, TextLayout,
    WindowLayout,
};
pub use mouse::{
    hit, hits_upto, intersects, mouse_system, spec_click_of, spec_intersects, MouseButton,
    MouseButtonState, MouseClickEvent,
};
pub use render::{
    frame_commands, get_window_comp_size, shape_commands, shapes_upto, spec_frame_commands,
    spec_frame_size, spec_pixel, swap_frame_buffer, text_commands, texts_of_upto, texts_upto,
    transparent, DrawCommand, TextRenderSystem,
};
pub use shell::{
    entity_for_window, lemma_resize_sync, resized, resized_layout, sync_window_size, Shell, ShellAction, ShellEvent,
};
pub use tree::{lemma_append_child, EntityTree};
pub use world::World;
pub use widgets::{
    Widget, button_render, Button, ButtonBuilder, Center, CenterBuilder, HBox, HBoxBuilder, Label,
    LabelBuilder,
    LABEL_DEFAULT_HEIGHT, LABEL_DEFAULT_WIDTH,
};
pub use window::{
    centered_settings, default_settings, flag_if, spec_flags, spec_max_size, WindowBuilder,
    WindowSettings,
};
pub use state::{ButtonState, Context, State};
