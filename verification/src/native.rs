//! What the library reads of a foreign X11 window, as plain values.
//!
//! The toolkit owns the window record and changes it when it pleases. The
//! library never touches that memory: whoever drives the toolkit copies the
//! record's fields into a `NativeSurface` and hands the copy over.
use vstd::prelude::*;

verus! {

/// The window-manager hints of a client.
#[derive(Clone, Copy, Debug, PartialEq, Eq, Structural)]
pub struct Hints {
    pub flags: u32,
    pub input: u32,
    pub initial_state: i32,
    pub icon_pixmap: u32,
    pub icon_window: u32,
    pub icon_x: i32,
    pub icon_y: i32,
    pub icon_mask: u32,
    pub window_group: u32,
}

/// The size hints of a client.
#[derive(Clone, Copy, Debug, PartialEq, Eq, Structural)]
pub struct SizeHints {
    pub flags: u32,
    pub x: i32,
    pub y: i32,
    pub width: i32,
    pub height: i32,
    pub min_width: i32,
    pub min_height: i32,
    pub max_width: i32,
    pub max_height: i32,
    pub width_inc: i32,
    pub height_inc: i32,
    pub base_width: i32,
    pub base_height: i32,
    pub min_aspect_num: i32,
    pub min_aspect_den: i32,
    pub max_aspect_num: i32,
    pub max_aspect_den: i32,
    pub win_gravity: u32,
}

/// A copy of the fields of one foreign window record. Addresses of other
/// foreign objects are kept as numbers; 0 stands for "none".
#[derive(Clone, Debug)]
pub struct NativeSurface {
    pub window_id: u32,
    pub surface_id: u32,
    /// Address of the display surface that backs the window while it is
    /// mapped.
    pub surface: usize,
    pub x: i16,
    pub y: i16,
    pub width: u16,
    pub height: u16,
    pub saved_width: u16,
    pub saved_height: u16,
    pub override_redirect: bool,
    pub mapped: bool,
    pub title: Option<String>,
    pub class: Option<String>,
    pub instance: Option<String>,
    pub pid: i32,
    /// Address of the parent window.
    pub parent: usize,
    /// Addresses of the child windows, in the toolkit's order.
    pub children: Vec<usize>,
    pub window_type: Vec<u32>,
    pub protocols: Vec<u32>,
    pub decorations: u32,
    pub hints: Option<Hints>,
    pub size_hints: Option<SizeHints>,
    pub hints_urgency: u32,
    pub pinging: bool,
    /// Address of the timer that watches for an answer to a ping.
    pub ping_timer: usize,
    pub fullscreen: bool,
    pub maximized_vert: bool,
    pub maximized_horz: bool,
    pub has_alpha: bool,
}

/// Something the library asks the toolkit to do to a window. The library
/// only says what; the caller performs it.
#[derive(Clone, Copy, Debug, PartialEq, Eq, Structural)]
pub enum Request {
    /// Ask the window to take this position and size.
    Configure { surface: usize, x: i16, y: i16, width: u16, height: u16 },
    /// Tell the window whether it is the focused one.
    Activate { surface: usize, active: bool },
}

impl Default for NativeSurface {
    /// A record with every number zero, every flag off and every list empty.
    fn default() -> (native: Self)
        ensures
            native.window_id == 0,
            native.surface_id == 0,
            native.surface == 0,
            native.x == 0,
            native.y == 0,
            native.width == 0,
            native.height == 0,
            native.saved_width == 0,
            native.saved_height == 0,
            !native.override_redirect,
            !native.mapped,
            native.title is None,
            native.class is None,
            native.instance is None,
            native.pid == 0,
            native.parent == 0,
            native.children@ == Seq::<usize>::empty(),
            native.window_type@ == Seq::<u32>::empty(),
            native.protocols@ == Seq::<u32>::empty(),
            native.decorations == 0,
            native.hints is None,
            native.size_hints is None,
            native.hints_urgency == 0,
            !native.pinging,
            native.ping_timer == 0,
            !native.fullscreen,
            !native.maximized_vert,
            !native.maximized_horz,
            !native.has_alpha,
    {
        NativeSurface {
            window_id: 0,
            surface_id: 0,
            surface: 0,
            x: 0,
            y: 0,
            width: 0,
            height: 0,
            saved_width: 0,
            saved_height: 0,
            override_redirect: false,
            mapped: false,
            title: None,
            class: None,
            instance: None,
            pid: 0,
            parent: 0,
            children: Vec::new(),
            window_type: Vec::new(),
            protocols: Vec::new(),
            decorations: 0,
            hints: None,
            size_hints: None,
            hints_urgency: 0,
            pinging: false,
            ping_timer: 0,
            fullscreen: false,
            maximized_vert: false,
            maximized_horz: false,
            has_alpha: false,
        }
    }
}

} // verus!
