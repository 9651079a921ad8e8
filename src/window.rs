use vstd::prelude::*;
use orbclient::WindowFlag;
use crate::constraints::{Constraints, UNBOUNDED};

verus! {

#[verifier::external_type_specification]
pub struct ExWindowFlag(WindowFlag);

/// What a window builder holds, title aside.
pub struct WindowSettings {
    pub borderless: bool,
    pub height: u32,
    pub max_height: u32,
    pub max_width: u32,
    pub min_height: u32,
    pub min_width: u32,
    pub maximized: bool,
    pub max_height_set: bool,
    pub max_width_set: bool,
    pub resizeable: bool,
    pub transparent: bool,
    pub unclosable: bool,
    pub width: u32,
    pub x: i32,
    pub y: i32,
}

/// The settings of a host window, gathered one at a time.
pub struct WindowBuilder {
    borderless: bool,
    height: u32,
    max_height: u32,
    max_width: u32,
    min_height: u32,
    min_width: u32,
    maximized: bool,
    max_height_set: bool,
    max_width_set: bool,
    resizeable: bool,
    title: String,
    transparent: bool,
    unclosable: bool,
    width: u32,
    x: i32,
    y: i32,
}

impl View for WindowBuilder {
    type V = WindowSettings;

    closed spec fn view(&self) -> WindowSettings {
        WindowSettings {
            borderless: self.borderless,
            height: self.height,
            max_height: self.max_height,
            max_width: self.max_width,
            min_height: self.min_height,
            min_width: self.min_width,
            maximized: self.maximized,
            max_height_set: self.max_height_set,
            max_width_set: self.max_width_set,
            resizeable: self.resizeable,
            transparent: self.transparent,
            unclosable: self.unclosable,
            width: self.width,
            x: self.x,
            y: self.y,
        }
    }
}

/// A 100 by 100 resizable window at the origin, without title or size bounds.
pub open spec fn default_settings() -> WindowSettings {
    WindowSettings {
        borderless: false,
        height: 100,
        max_height: UNBOUNDED,
        max_width: UNBOUNDED,
        min_height: 0,
        min_width: 0,
        maximized: false,
        max_height_set: false,
        max_width_set: false,
        resizeable: true,
        transparent: false,
        unclosable: false,
        width: 100,
        x: 0,
        y: 0,
    }
}

/// Half the screen, in the middle of it.
pub open spec fn centered_settings(s: WindowSettings, screen: (u32, u32)) -> WindowSettings {
    WindowSettings {
        width: screen.0 / 2,
        height: screen.1 / 2,
        x: ((screen.0 - screen.0 / 2) / 2) as i32,
        y: ((screen.1 - screen.1 / 2) / 2) as i32,
        ..s
    }
}

/// The maximum window size once built: unbounded, except that a bound which was
/// set is replaced by the display's size, when only one bound was set and the
/// display's size is known.
pub open spec fn spec_max_size(s: WindowSettings, display: Option<(u32, u32)>) -> (u32, u32) {
    match display {
        Some((dw, dh)) => if !s.max_height_set || !s.max_width_set {
            (
                if s.max_width_set {
                    dw
                } else {
                    UNBOUNDED
                },
                if s.max_height_set {
                    dh
                } else {
                    UNBOUNDED
                },
            )
        } else {
            (UNBOUNDED, UNBOUNDED)
        },
        None => (UNBOUNDED, UNBOUNDED),
    }
}

/// `flag` when `on` holds, nothing otherwise.
pub open spec fn flag_if(on: bool, flag: WindowFlag) -> Seq<WindowFlag> {
    if on {
        seq![flag]
    } else {
        Seq::empty()
    }
}

/// The host window's flags for the settings `s`.
pub open spec fn spec_flags(s: WindowSettings) -> Seq<WindowFlag> {
    flag_if(s.borderless, WindowFlag::Borderless) + flag_if(s.unclosable, WindowFlag::Unclosable)
        + flag_if(s.resizeable, WindowFlag::Resizable) + flag_if(
        s.transparent,
        WindowFlag::Transparent,
    )
}

impl WindowBuilder {
    pub closed spec fn spec_title(&self) -> Seq<char> {
        self.title@
    }

    pub fn new() -> (r: WindowBuilder)
        ensures
            r@ == default_settings(),
            r.spec_title().len() == 0,
    {
        WindowBuilder {
            borderless: false,
            height: 100,
            max_height: UNBOUNDED,
            max_width: UNBOUNDED,
            min_height: 0,
            min_width: 0,
            maximized: false,
            max_height_set: false,
            max_width_set: false,
            resizeable: true,
            title: String::new(),
            transparent: false,
            unclosable: false,
            width: 100,
            x: 0,
            y: 0,
        }
    }

    /// Whether the window is drawn without decorations.
    pub fn borderless(self, borderless: bool) -> (r: WindowBuilder)
        ensures
            r@ == (WindowSettings { borderless, ..self@ }),
            r.spec_title() == self.spec_title(),
    {
        WindowBuilder { borderless, ..self }
    }

    /// Gives the window half the screen, in the middle of it. Nothing changes
    /// when the screen size is unknown.
    pub fn centered(self, screen_size: Option<(u32, u32)>) -> (r: WindowBuilder)
        ensures
            r@ == (match screen_size {
                Some(s) => centered_settings(self@, s),
                None => self@,
            }),
            r.spec_title() == self.spec_title(),
    {
        match screen_size {
            Some((sw, sh)) => {
                let width = sw / 2;
                let height = sh / 2;
                let x = ((sw - width) / 2) as i32;
                let y = ((sh - height) / 2) as i32;
                WindowBuilder { width, height, x, y, ..self }
            },
            None => self,
        }
    }

    pub fn height(self, height: u32) -> (r: WindowBuilder)
        ensures
            r@ == (WindowSettings { height, ..self@ }),
            r.spec_title() == self.spec_title(),
    {
        WindowBuilder { height, ..self }
    }

    pub fn max_height(self, max_height: u32) -> (r: WindowBuilder)
        ensures
            r@ == (WindowSettings { max_height, max_height_set: true, ..self@ }),
            r.spec_title() == self.spec_title(),
    {
        WindowBuilder { max_height, max_height_set: true, ..self }
    }

    pub fn max_width(self, max_width: u32) -> (r: WindowBuilder)
        ensures
            r@ == (WindowSettings { max_width, max_width_set: true, ..self@ }),
            r.spec_title() == self.spec_title(),
    {
        WindowBuilder { max_width, max_width_set: true, ..self }
    }

    pub fn min_height(self, min_height: u32) -> (r: WindowBuilder)
        ensures
            r@ == (WindowSettings { min_height, ..self@ }),
            r.spec_title() == self.spec_title(),
    {
        WindowBuilder { min_height, ..self }
    }

    pub fn min_width(self, min_width: u32) -> (r: WindowBuilder)
        ensures
            r@ == (WindowSettings { min_width, ..self@ }),
            r.spec_title() == self.spec_title(),
    {
        WindowBuilder { min_width, ..self }
    }

    /// Gives the window the whole screen. Nothing changes when the screen size
    /// is unknown.
    pub fn maximized(self, screen_size: Option<(u32, u32)>) -> (r: WindowBuilder)
        ensures
            r@ == (match screen_size {
                Some(s) => WindowSettings { width: s.0, height: s.1, maximized: true, ..self@ },
                None => self@,
            }),
            r.spec_title() == self.spec_title(),
    {
        match screen_size {
            Some((sw, sh)) => WindowBuilder { width: sw, height: sh, maximized: true, ..self },
            None => self,
        }
    }

    pub fn resizeable(self, resize: bool) -> (r: WindowBuilder)
        ensures
            r@ == (WindowSettings { resizeable: resize, ..self@ }),
            r.spec_title() == self.spec_title(),
    {
        WindowBuilder { resizeable: resize, ..self }
    }

    pub fn title(self, title: &str) -> (r: WindowBuilder)
        ensures
            r@ == self@,
            r.spec_title() == title@,
    {
        WindowBuilder { title: title.to_owned(), ..self }
    }

    pub fn transparent(self, transparent: bool) -> (r: WindowBuilder)
        ensures
            r@ == (WindowSettings { transparent, ..self@ }),
            r.spec_title() == self.spec_title(),
    {
        WindowBuilder { transparent, ..self }
    }

    pub fn unclosable(self, unclosable: bool) -> (r: WindowBuilder)
        ensures
            r@ == (WindowSettings { unclosable, ..self@ }),
            r.spec_title() == self.spec_title(),
    {
        WindowBuilder { unclosable, ..self }
    }

    pub fn width(self, width: u32) -> (r: WindowBuilder)
        ensures
            r@ == (WindowSettings { width, ..self@ }),
            r.spec_title() == self.spec_title(),
    {
        WindowBuilder { width, ..self }
    }

    /// Horizontal position of the window's top-left corner on the screen.
    pub fn x(self, x: i32) -> (r: WindowBuilder)
        requires
            x > 0,
        ensures
            r@ == (WindowSettings { x, ..self@ }),
            r.spec_title() == self.spec_title(),
    {
        WindowBuilder { x, ..self }
    }

    /// Vertical position of the window's top-left corner on the screen.
    pub fn y(self, y: i32) -> (r: WindowBuilder)
        requires
            y > 0,
        ensures
            r@ == (WindowSettings { y, ..self@ }),
            r.spec_title() == self.spec_title(),
    {
        WindowBuilder { y, ..self }
    }

    /// The flags the host window is created with, in this order: borderless,
    /// unclosable, resizable, transparent, each when it is asked for.
    pub fn flags(&self) -> (r: Vec<WindowFlag>)
        ensures
            r@ == spec_flags(self@),
    {
        let mut flags: Vec<WindowFlag> = Vec::new();
        if self.borderless {
            flags.push(WindowFlag::Borderless);
        }
        if self.unclosable {
            flags.push(WindowFlag::Unclosable);
        }
        if self.resizeable {
            flags.push(WindowFlag::Resizable);
        }
        if self.transparent {
            flags.push(WindowFlag::Transparent);
        }
        proof {
            assert(flags@ =~= spec_flags(self@));
        }
        flags
    }

    /// The maximum window size once built, given the display's size if known.
    pub fn max_size(&self, display_size: Option<(u32, u32)>) -> (r: (u32, u32))
        ensures
            r == spec_max_size(self@, display_size),
    {
        let mut max_width = UNBOUNDED;
        let mut max_height = UNBOUNDED;
        if !self.max_height_set || !self.max_width_set {
            if let Some((dw, dh)) = display_size {
                if self.max_height_set {
                    max_height = dh;
                }
                if self.max_width_set {
                    max_width = dw;
                }
            }
        }
        (max_width, max_height)
    }

    /// The window's constraints once built: its minimum size, and the maximum of `max_size`.
    pub fn constraints(&self, display_size: Option<(u32, u32)>) -> (r: Constraints)
        ensures
            r == (Constraints {
                min_width: self@.min_width,
                max_width: spec_max_size(self@, display_size).0,
                min_height: self@.min_height,
                max_height: spec_max_size(self@, display_size).1,
            }),
    {
        let (max_width, max_height) = self.max_size(display_size);
        Constraints { min_width: self.min_width, max_width, min_height: self.min_height, max_height }
    }

    /// Position and size: x, y, width, height.
    pub fn geometry(&self) -> (r: (i32, i32, u32, u32))
        ensures
            r == (self@.x, self@.y, self@.width, self@.height),
    {
        (self.x, self.y, self.width, self.height)
    }

    pub fn get_title(&self) -> (r: &String)
        ensures
            r@ == self.spec_title(),
    {
        &self.title
    }
}

} // verus!
