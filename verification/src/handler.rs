//! The handler interface: what application code implements to react to the
//! notifications about an X11 window.
use vstd::prelude::*;
use crate::event::{Configure, Event, Move, Resize};
use crate::handle::Handle;
use crate::liveliness::alive;
use crate::registry::Registry;

verus! {

/// What a handler is told when a notification reaches it.
#[derive(Clone, Copy, Debug)]
pub struct Delivery {
    /// The display surface that backs the window, while there is one.
    pub surface: Option<Handle>,
    /// The window that the notification is about.
    pub handle: Handle,
    /// The notification and its payload.
    pub event: Event,
}

/// One method per kind of notification. Unless it is overridden, a method
/// does nothing: it leaves the handler as it was, and `on_map` hands nothing
/// back.
///
/// Every method is given the registry as it stands during the call, the
/// handle of the display surface that backs the window (if it has one), and
/// the handle of the window itself: a handle, never an owned wrapper, so
/// that nothing a handler keeps can outlive the window.
///
/// A `requires` clause here is a promise to the implementor: the library
/// proves it before each call. Every call but `destroyed` is made with a
/// handle that upgrades, and with the handle of the display surface that
/// backs the window at that moment.
pub trait Handler: Sized {
    /// What `on_map` may hand back: the handler for the display surface
    /// that now backs the window. The registry keeps it in the handler slot
    /// of that display surface.
    type SurfaceHandler;

    /// The window was destroyed. Its lineage is already dead: upgrading
    /// `xwayland_surface` fails, now and ever after. Its state block is
    /// still in place; it is released when this method has returned.
    fn destroyed(
        &mut self,
        compositor: &Registry<Self, Self::SurfaceHandler>,
        surface: Option<Handle>,
        xwayland_surface: Handle,
    )
        requires
            !compositor@.live(xwayland_surface),
            !alive(compositor@.cells, xwayland_surface.lineage().id()),
            compositor@.handle_of(xwayland_surface.addr()) == Some(xwayland_surface),
            surface == compositor@.related(xwayland_surface.addr()),
        default_ensures
            *final(self) == *old(self),
    {
    }

    /// The window asks to be placed and sized.
    fn on_configure(
        &mut self,
        compositor: &Registry<Self, Self::SurfaceHandler>,
        surface: Option<Handle>,
        xwayland_surface: Handle,
        configure: &Configure,
    )
        requires
            compositor@.live(xwayland_surface),
            surface == compositor@.related(xwayland_surface.addr()),
        default_ensures
            *final(self) == *old(self),
    {
    }

    /// The window asks to be moved.
    fn on_move(
        &mut self,
        compositor: &Registry<Self, Self::SurfaceHandler>,
        surface: Option<Handle>,
        xwayland_surface: Handle,
        event: &Move,
    )
        requires
            compositor@.live(xwayland_surface),
            surface == compositor@.related(xwayland_surface.addr()),
        default_ensures
            *final(self) == *old(self),
    {
    }

    /// The window asks to be resized.
    fn on_resize(
        &mut self,
        compositor: &Registry<Self, Self::SurfaceHandler>,
        surface: Option<Handle>,
        xwayland_surface: Handle,
        event: &Resize,
    )
        requires
            compositor@.live(xwayland_surface),
            surface == compositor@.related(xwayland_surface.addr()),
        default_ensures
            *final(self) == *old(self),
    {
    }

    /// The window asks to be maximized, or to stop being so.
    fn on_maximize(
        &mut self,
        compositor: &Registry<Self, Self::SurfaceHandler>,
        surface: Option<Handle>,
        xwayland_surface: Handle,
    )
        requires
            compositor@.live(xwayland_surface),
            surface == compositor@.related(xwayland_surface.addr()),
        default_ensures
            *final(self) == *old(self),
    {
    }

    /// The window asks to be fullscreen, or to stop being so.
    fn on_fullscreen(
        &mut self,
        compositor: &Registry<Self, Self::SurfaceHandler>,
        surface: Option<Handle>,
        xwayland_surface: Handle,
    )
        requires
            compositor@.live(xwayland_surface),
            surface == compositor@.related(xwayland_surface.addr()),
        default_ensures
            *final(self) == *old(self),
    {
    }

    /// The window is ready to be shown. The handler that is handed back, if
    /// any, is attached to the display surface that backs the window, in
    /// place of the handler that was attached there.
    fn on_map(
        &mut self,
        compositor: &Registry<Self, Self::SurfaceHandler>,
        surface: Option<Handle>,
        xwayland_surface: Handle,
    ) -> (secondary: Option<Self::SurfaceHandler>)
        requires
            compositor@.live(xwayland_surface),
            surface == compositor@.related(xwayland_surface.addr()),
        default_ensures
            secondary is None,
            *final(self) == *old(self),
    {
        None
    }

    /// The window should no longer be shown.
    fn on_unmap(
        &mut self,
        compositor: &Registry<Self, Self::SurfaceHandler>,
        surface: Option<Handle>,
        xwayland_surface: Handle,
    )
        requires
            compositor@.live(xwayland_surface),
            surface == compositor@.related(xwayland_surface.addr()),
        default_ensures
            *final(self) == *old(self),
    {
    }

    /// The title of the window was set.
    fn title_set(
        &mut self,
        compositor: &Registry<Self, Self::SurfaceHandler>,
        surface: Option<Handle>,
        xwayland_surface: Handle,
    )
        requires
            compositor@.live(xwayland_surface),
            surface == compositor@.related(xwayland_surface.addr()),
        default_ensures
            *final(self) == *old(self),
    {
    }

    /// The class of the window was set.
    fn class_set(
        &mut self,
        compositor: &Registry<Self, Self::SurfaceHandler>,
        surface: Option<Handle>,
        xwayland_surface: Handle,
    )
        requires
            compositor@.live(xwayland_surface),
            surface == compositor@.related(xwayland_surface.addr()),
        default_ensures
            *final(self) == *old(self),
    {
    }

    /// The parent of the window was set.
    fn parent_set(
        &mut self,
        compositor: &Registry<Self, Self::SurfaceHandler>,
        surface: Option<Handle>,
        xwayland_surface: Handle,
    )
        requires
            compositor@.live(xwayland_surface),
            surface == compositor@.related(xwayland_surface.addr()),
        default_ensures
            *final(self) == *old(self),
    {
    }

    /// The process id of the window's client was set.
    fn pid_set(
        &mut self,
        compositor: &Registry<Self, Self::SurfaceHandler>,
        surface: Option<Handle>,
        xwayland_surface: Handle,
    )
        requires
            compositor@.live(xwayland_surface),
            surface == compositor@.related(xwayland_surface.addr()),
        default_ensures
            *final(self) == *old(self),
    {
    }

    /// The window type was set.
    fn window_type_set(
        &mut self,
        compositor: &Registry<Self, Self::SurfaceHandler>,
        surface: Option<Handle>,
        xwayland_surface: Handle,
    )
        requires
            compositor@.live(xwayland_surface),
            surface == compositor@.related(xwayland_surface.addr()),
        default_ensures
            *final(self) == *old(self),
    {
    }

    /// The client did not answer a ping in time.
    fn ping_timeout(
        &mut self,
        compositor: &Registry<Self, Self::SurfaceHandler>,
        surface: Option<Handle>,
        xwayland_surface: Handle,
    )
        requires
            compositor@.live(xwayland_surface),
            surface == compositor@.related(xwayland_surface.addr()),
        default_ensures
            *final(self) == *old(self),
    {
    }
}

/// What `deliver` needs of a delivery. The handle is that of the window's
/// state block, which is in place, and the display surface named is the one
/// that backs the window. For a destroy notification the window's lineage is
/// dead; for every other the handle is live.
pub open spec fn deliverable<H, S>(compositor: &Registry<H, S>, delivery: &Delivery) -> bool {
    &&& compositor@.handle_of(delivery.handle.addr()) == Some(delivery.handle)
    &&& delivery.surface == compositor@.related(delivery.handle.addr())
    &&& if delivery.event is Destroy {
        !alive(compositor@.cells, delivery.handle.lineage().id())
    } else {
        compositor@.live(delivery.handle)
    }
}

/// Whether `secondary` is what comes of the one call that `delivery` stands
/// for, made through the reference `call`: the method that belongs to the
/// event's kind, given the registry, the delivery's two handles and the
/// event's payload. For a map notification `secondary` is what `on_map`
/// gives back; for every other it is nothing.
pub open spec fn called<H: Handler>(
    call: &mut H,
    compositor: &Registry<H, H::SurfaceHandler>,
    delivery: Delivery,
    secondary: Option<H::SurfaceHandler>,
) -> bool {
    let surface = delivery.surface;
    let handle = delivery.handle;
    match delivery.event {
        Event::Destroy => secondary is None && call_ensures(
            H::destroyed,
            (call, compositor, surface, handle),
            (),
        ),
        Event::Configure(configure) => secondary is None && call_ensures(
            H::on_configure,
            (call, compositor, surface, handle, &configure),
            (),
        ),
        Event::Move(event) => secondary is None && call_ensures(
            H::on_move,
            (call, compositor, surface, handle, &event),
            (),
        ),
        Event::Resize(event) => secondary is None && call_ensures(
            H::on_resize,
            (call, compositor, surface, handle, &event),
            (),
        ),
        Event::Maximize => secondary is None && call_ensures(
            H::on_maximize,
            (call, compositor, surface, handle),
            (),
        ),
        Event::Fullscreen => secondary is None && call_ensures(
            H::on_fullscreen,
            (call, compositor, surface, handle),
            (),
        ),
        Event::MapNotify => call_ensures(H::on_map, (call, compositor, surface, handle), secondary),
        Event::UnmapNotify => secondary is None && call_ensures(
            H::on_unmap,
            (call, compositor, surface, handle),
            (),
        ),
        Event::TitleSet => secondary is None && call_ensures(
            H::title_set,
            (call, compositor, surface, handle),
            (),
        ),
        Event::ClassSet => secondary is None && call_ensures(
            H::class_set,
            (call, compositor, surface, handle),
            (),
        ),
        Event::ParentSet => secondary is None && call_ensures(
            H::parent_set,
            (call, compositor, surface, handle),
            (),
        ),
        Event::PidSet => secondary is None && call_ensures(
            H::pid_set,
            (call, compositor, surface, handle),
            (),
        ),
        Event::WindowTypeSet => secondary is None && call_ensures(
            H::window_type_set,
            (call, compositor, surface, handle),
            (),
        ),
        Event::PingTimeout => secondary is None && call_ensures(
            H::ping_timeout,
            (call, compositor, surface, handle),
            (),
        ),
    }
}

/// Makes the one call on `handler` that `delivery` stands for: the method
/// that belongs to the event's kind, with the delivery's two handles and the
/// event's payload. What the handler is afterwards, and what is handed back,
/// is what that method makes of the handler as it was. Only a map
/// notification can hand anything back.
pub(crate) fn deliver<H: Handler>(
    handler: &mut H,
    compositor: &Registry<H, H::SurfaceHandler>,
    delivery: &Delivery,
) -> (secondary: Option<H::SurfaceHandler>)
    requires
        deliverable(compositor, delivery),
    ensures
        !(delivery.event is MapNotify) ==> secondary is None,
        exists|call: &mut H|
            #![trigger call_ensures(H::destroyed, (call, compositor, delivery.surface, delivery.handle), ())]
            #![trigger call_ensures(H::on_configure, (call, compositor, delivery.surface, delivery.handle, &delivery.event->Configure_0), ())]
            #![trigger call_ensures(H::on_move, (call, compositor, delivery.surface, delivery.handle, &delivery.event->Move_0), ())]
            #![trigger call_ensures(H::on_resize, (call, compositor, delivery.surface, delivery.handle, &delivery.event->Resize_0), ())]
            #![trigger call_ensures(H::on_maximize, (call, compositor, delivery.surface, delivery.handle), ())]
            #![trigger call_ensures(H::on_fullscreen, (call, compositor, delivery.surface, delivery.handle), ())]
            #![trigger call_ensures(H::on_map, (call, compositor, delivery.surface, delivery.handle), secondary)]
            #![trigger call_ensures(H::on_unmap, (call, compositor, delivery.surface, delivery.handle), ())]
            #![trigger call_ensures(H::title_set, (call, compositor, delivery.surface, delivery.handle), ())]
            #![trigger call_ensures(H::class_set, (call, compositor, delivery.surface, delivery.handle), ())]
            #![trigger call_ensures(H::parent_set, (call, compositor, delivery.surface, delivery.handle), ())]
            #![trigger call_ensures(H::pid_set, (call, compositor, delivery.surface, delivery.handle), ())]
            #![trigger call_ensures(H::window_type_set, (call, compositor, delivery.surface, delivery.handle), ())]
            #![trigger call_ensures(H::ping_timeout, (call, compositor, delivery.surface, delivery.handle), ())]
            *call == *old(handler) && *final(call) == *final(handler) && called(
                call,
                compositor,
                *delivery,
                secondary,
            ),
{
    let surface = delivery.surface;
    let handle = delivery.handle;
    match &delivery.event {
        Event::Destroy => {
            handler.destroyed(compositor, surface, handle);
            None
        },
        Event::Configure(configure) => {
            handler.on_configure(compositor, surface, handle, configure);
            None
        },
        Event::Move(event) => {
            handler.on_move(compositor, surface, handle, event);
            None
        },
        Event::Resize(event) => {
            handler.on_resize(compositor, surface, handle, event);
            None
        },
        Event::Maximize => {
            handler.on_maximize(compositor, surface, handle);
            None
        },
        Event::Fullscreen => {
            handler.on_fullscreen(compositor, surface, handle);
            None
        },
        Event::MapNotify => handler.on_map(compositor, surface, handle),
        Event::UnmapNotify => {
            handler.on_unmap(compositor, surface, handle);
            None
        },
        Event::TitleSet => {
            handler.title_set(compositor, surface, handle);
            None
        },
        Event::ClassSet => {
            handler.class_set(compositor, surface, handle);
            None
        },
        Event::ParentSet => {
            handler.parent_set(compositor, surface, handle);
            None
        },
        Event::PidSet => {
            handler.pid_set(compositor, surface, handle);
            None
        },
        Event::WindowTypeSet => {
            handler.window_type_set(compositor, surface, handle);
            None
        },
        Event::PingTimeout => {
            handler.ping_timeout(compositor, surface, handle);
            None
        },
    }
}

} // verus!
