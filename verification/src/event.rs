//! The notifications that the foreign toolkit sends about an X11 window, and
//! what each of them carries.
use vstd::prelude::*;

verus! {

/// How many kinds of notification there are: one registration record each.
pub const RECORDS: usize = 14;

/// The kinds of notification, in the order of their registration records.
#[derive(Clone, Copy, Debug, PartialEq, Eq, Structural, Hash)]
pub enum EventKind {
    Destroy,
    RequestConfigure,
    RequestMove,
    RequestResize,
    RequestMaximize,
    RequestFullscreen,
    MapNotify,
    UnmapNotify,
    SetTitle,
    SetClass,
    SetParent,
    SetPid,
    SetWindowType,
    PingTimeout,
}

/// A request to place and size the window.
#[derive(Clone, Copy, Debug, PartialEq, Eq, Structural)]
pub struct Configure {
    pub x: i16,
    pub y: i16,
    pub width: u16,
    pub height: u16,
}

/// A request to move the window to an absolute position.
#[derive(Clone, Copy, Debug, PartialEq, Eq, Structural)]
pub struct Move {
    pub x: i16,
    pub y: i16,
}

/// A request to give the window a new size.
#[derive(Clone, Copy, Debug, PartialEq, Eq, Structural)]
pub struct Resize {
    pub width: u16,
    pub height: u16,
}

/// The numbers that were read from the memory behind a notification, before
/// it is known which of them the notification carries.
#[derive(Clone, Copy, Debug, PartialEq, Eq, Structural)]
pub struct Payload {
    pub x: i16,
    pub y: i16,
    pub width: u16,
    pub height: u16,
}

/// One notification with its payload. A payload is a plain copy: it holds
/// nothing of the foreign memory it was read from.
#[derive(Clone, Copy, Debug, PartialEq, Eq, Structural)]
pub enum Event {
    Destroy,
    Configure(Configure),
    Move(Move),
    Resize(Resize),
    Maximize,
    Fullscreen,
    MapNotify,
    UnmapNotify,
    TitleSet,
    ClassSet,
    ParentSet,
    PidSet,
    WindowTypeSet,
    PingTimeout,
}

impl EventKind {
    /// The place of this kind's record in a dispatch table.
    pub open spec fn position(self) -> int {
        match self {
            EventKind::Destroy => 0,
            EventKind::RequestConfigure => 1,
            EventKind::RequestMove => 2,
            EventKind::RequestResize => 3,
            EventKind::RequestMaximize => 4,
            EventKind::RequestFullscreen => 5,
            EventKind::MapNotify => 6,
            EventKind::UnmapNotify => 7,
            EventKind::SetTitle => 8,
            EventKind::SetClass => 9,
            EventKind::SetParent => 10,
            EventKind::SetPid => 11,
            EventKind::SetWindowType => 12,
            EventKind::PingTimeout => 13,
        }
    }

    /// The kind whose record stands at place `i`, if there is one.
    pub open spec fn at(i: int) -> Option<EventKind> {
        if i == 0 {
            Some(EventKind::Destroy)
        } else if i == 1 {
            Some(EventKind::RequestConfigure)
        } else if i == 2 {
            Some(EventKind::RequestMove)
        } else if i == 3 {
            Some(EventKind::RequestResize)
        } else if i == 4 {
            Some(EventKind::RequestMaximize)
        } else if i == 5 {
            Some(EventKind::RequestFullscreen)
        } else if i == 6 {
            Some(EventKind::MapNotify)
        } else if i == 7 {
            Some(EventKind::UnmapNotify)
        } else if i == 8 {
            Some(EventKind::SetTitle)
        } else if i == 9 {
            Some(EventKind::SetClass)
        } else if i == 10 {
            Some(EventKind::SetParent)
        } else if i == 11 {
            Some(EventKind::SetPid)
        } else if i == 12 {
            Some(EventKind::SetWindowType)
        } else if i == 13 {
            Some(EventKind::PingTimeout)
        } else {
            None
        }
    }

    /// The place of this kind's record, as a number below `RECORDS`.
    pub fn index(self) -> (i: usize)
        ensures
            i == self.position(),
            i < RECORDS,
            EventKind::at(i as int) == Some(self),
    {
        match self {
            EventKind::Destroy => 0,
            EventKind::RequestConfigure => 1,
            EventKind::RequestMove => 2,
            EventKind::RequestResize => 3,
            EventKind::RequestMaximize => 4,
            EventKind::RequestFullscreen => 5,
            EventKind::MapNotify => 6,
            EventKind::UnmapNotify => 7,
            EventKind::SetTitle => 8,
            EventKind::SetClass => 9,
            EventKind::SetParent => 10,
            EventKind::SetPid => 11,
            EventKind::SetWindowType => 12,
            EventKind::PingTimeout => 13,
        }
    }

    /// The kind whose record stands at place `i`; `None` from `RECORDS` on.
    pub fn from_index(i: usize) -> (kind: Option<EventKind>)
        ensures
            kind == EventKind::at(i as int),
            kind is Some <==> i < RECORDS,
            kind matches Some(found) ==> found.position() == i,
    {
        match i {
            0 => Some(EventKind::Destroy),
            1 => Some(EventKind::RequestConfigure),
            2 => Some(EventKind::RequestMove),
            3 => Some(EventKind::RequestResize),
            4 => Some(EventKind::RequestMaximize),
            5 => Some(EventKind::RequestFullscreen),
            6 => Some(EventKind::MapNotify),
            7 => Some(EventKind::UnmapNotify),
            8 => Some(EventKind::SetTitle),
            9 => Some(EventKind::SetClass),
            10 => Some(EventKind::SetParent),
            11 => Some(EventKind::SetPid),
            12 => Some(EventKind::SetWindowType),
            13 => Some(EventKind::PingTimeout),
            _ => None,
        }
    }
}

impl Configure {
    /// The requested position, as (x, y).
    pub fn coords(&self) -> (at: (i16, i16))
        ensures
            at == (self.x, self.y),
    {
        (self.x, self.y)
    }

    /// The requested size, as (width, height).
    pub fn dimensions(&self) -> (size: (u16, u16))
        ensures
            size == (self.width, self.height),
    {
        (self.width, self.height)
    }
}

impl Move {
    /// The requested position, as (x, y).
    pub fn coords(&self) -> (at: (i16, i16))
        ensures
            at == (self.x, self.y),
    {
        (self.x, self.y)
    }
}

impl Resize {
    /// The requested size, as (width, height).
    pub fn dimensions(&self) -> (size: (u16, u16))
        ensures
            size == (self.width, self.height),
    {
        (self.width, self.height)
    }
}

impl Event {
    /// The notification of `kind` that carries, of `payload`, what its kind
    /// carries: a configure request the position and the size, a move
    /// request the position, a resize request the size, every other kind
    /// nothing.
    pub open spec fn decoded(kind: EventKind, payload: Payload) -> Event {
        match kind {
            EventKind::Destroy => Event::Destroy,
            EventKind::RequestConfigure => Event::Configure(
                Configure {
                    x: payload.x,
                    y: payload.y,
                    width: payload.width,
                    height: payload.height,
                },
            ),
            EventKind::RequestMove => Event::Move(Move { x: payload.x, y: payload.y }),
            EventKind::RequestResize => Event::Resize(
                Resize { width: payload.width, height: payload.height },
            ),
            EventKind::RequestMaximize => Event::Maximize,
            EventKind::RequestFullscreen => Event::Fullscreen,
            EventKind::MapNotify => Event::MapNotify,
            EventKind::UnmapNotify => Event::UnmapNotify,
            EventKind::SetTitle => Event::TitleSet,
            EventKind::SetClass => Event::ClassSet,
            EventKind::SetParent => Event::ParentSet,
            EventKind::SetPid => Event::PidSet,
            EventKind::SetWindowType => Event::WindowTypeSet,
            EventKind::PingTimeout => Event::PingTimeout,
        }
    }

    /// Decodes the payload of a notification of `kind`: keeps of `payload`
    /// the fields that this kind carries and drops the rest.
    pub fn decode(kind: EventKind, payload: &Payload) -> (event: Event)
        ensures
            event == Event::decoded(kind, *payload),
            event.kind() == kind,
    {
        match kind {
            EventKind::Destroy => Event::Destroy,
            EventKind::RequestConfigure => Event::Configure(
                Configure {
                    x: payload.x,
                    y: payload.y,
                    width: payload.width,
                    height: payload.height,
                },
            ),
            EventKind::RequestMove => Event::Move(Move { x: payload.x, y: payload.y }),
            EventKind::RequestResize => Event::Resize(
                Resize { width: payload.width, height: payload.height },
            ),
            EventKind::RequestMaximize => Event::Maximize,
            EventKind::RequestFullscreen => Event::Fullscreen,
            EventKind::MapNotify => Event::MapNotify,
            EventKind::UnmapNotify => Event::UnmapNotify,
            EventKind::SetTitle => Event::TitleSet,
            EventKind::SetClass => Event::ClassSet,
            EventKind::SetParent => Event::ParentSet,
            EventKind::SetPid => Event::PidSet,
            EventKind::SetWindowType => Event::WindowTypeSet,
            EventKind::PingTimeout => Event::PingTimeout,
        }
    }

    /// The kind of this notification.
    pub open spec fn spec_kind(&self) -> EventKind {
        match self {
            Event::Destroy => EventKind::Destroy,
            Event::Configure(_) => EventKind::RequestConfigure,
            Event::Move(_) => EventKind::RequestMove,
            Event::Resize(_) => EventKind::RequestResize,
            Event::Maximize => EventKind::RequestMaximize,
            Event::Fullscreen => EventKind::RequestFullscreen,
            Event::MapNotify => EventKind::MapNotify,
            Event::UnmapNotify => EventKind::UnmapNotify,
            Event::TitleSet => EventKind::SetTitle,
            Event::ClassSet => EventKind::SetClass,
            Event::ParentSet => EventKind::SetParent,
            Event::PidSet => EventKind::SetPid,
            Event::WindowTypeSet => EventKind::SetWindowType,
            Event::PingTimeout => EventKind::PingTimeout,
        }
    }

    /// The kind of this notification: the record it arrives through.
    #[verifier::when_used_as_spec(spec_kind)]
    pub fn kind(&self) -> (kind: EventKind)
        ensures
            kind == self.spec_kind(),
    {
        match self {
            Event::Destroy => EventKind::Destroy,
            Event::Configure(_) => EventKind::RequestConfigure,
            Event::Move(_) => EventKind::RequestMove,
            Event::Resize(_) => EventKind::RequestResize,
            Event::Maximize => EventKind::RequestMaximize,
            Event::Fullscreen => EventKind::RequestFullscreen,
            Event::MapNotify => EventKind::MapNotify,
            Event::UnmapNotify => EventKind::UnmapNotify,
            Event::TitleSet => EventKind::SetTitle,
            Event::ClassSet => EventKind::SetClass,
            Event::ParentSet => EventKind::SetParent,
            Event::PidSet => EventKind::SetPid,
            Event::WindowTypeSet => EventKind::SetWindowType,
            Event::PingTimeout => EventKind::PingTimeout,
        }
    }
}

} // verus!
