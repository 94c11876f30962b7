//! The owned wrapper of an X11 window.
//!
//! A `Surface` stands for a window that is known to be valid: it exists only
//! while the registry it was taken from is borrowed, so nothing can destroy
//! the window while a `Surface` of it is in use.
use vstd::prelude::*;
use crate::handle::{Handle, HandleErr, HandleResult};
use crate::liveliness::WeakToken;
use crate::model::Model;
use crate::area::{Area, Origin, Size};
use crate::native::{Hints, NativeSurface, Request, SizeHints};
use crate::registry::{Defect, Registry, State};

verus! {

/// An X11 window that is valid for as long as this value lives: the address
/// of the window, its lineage, and its state block in the registry.
pub struct Surface<'a, H, S> {
    liveliness: WeakToken,
    shell_surface: usize,
    state: &'a State<H>,
    registry: &'a Registry<H, S>,
}

impl<'a, H, S> Surface<'a, H, S> {
    /// The address of the window.
    pub closed spec fn ptr(&self) -> usize {
        self.shell_surface
    }

    /// The lineage that the window was wrapped with.
    pub closed spec fn lineage(&self) -> WeakToken {
        self.liveliness
    }

    /// The copy of the window's fields that the getters read.
    pub closed spec fn native(&self) -> NativeSurface {
        self.state.slot().native
    }

    /// The registry that the wrapper was taken from.
    pub closed spec fn model(&self) -> Model {
        self.registry@
    }

    /// Whether this is the wrapper that `handle` upgrades to in `model`.
    pub open spec fn upgrades(&self, handle: Handle, model: Model) -> bool {
        &&& model.live(handle)
        &&& self.ptr() == handle.addr()
        &&& self.lineage() == handle.lineage()
        &&& self.model() == model
        &&& self.native() == model.slots[handle.addr()].native
    }

    /// Upgrades `handle`: gives the wrapper of the window it refers to, or
    /// `AlreadyDropped` if that window has been destroyed.
    pub fn from_handle(registry: &'a Registry<H, S>, handle: &Handle) -> (upgraded: HandleResult<Self>)
        ensures
            upgraded is Ok <==> registry@.live(*handle),
            upgraded matches Ok(surface) ==> surface.upgrades(*handle, registry@),
            upgraded matches Err(err) ==> err == HandleErr::AlreadyDropped,
    {
        match registry.state(handle.ptr) {
            Some(state) => {
                if state.lineage() == handle.token && registry.is_alive(handle.token) {
                    Ok(
                        Surface {
                            liveliness: handle.token,
                            shell_surface: handle.ptr,
                            state,
                            registry,
                        },
                    )
                } else {
                    Err(HandleErr::AlreadyDropped)
                }
            },
            None => Err(HandleErr::AlreadyDropped),
        }
    }

    /// The address of the window.
    pub fn as_ptr(&self) -> (ptr: usize)
        ensures
            ptr == self.ptr(),
    {
        self.shell_surface
    }

    /// Makes a handle of this window, of the lineage of this wrapper.
    pub fn weak_reference(&self) -> (handle: Handle)
        ensures
            handle == Handle::made(self.ptr(), self.lineage()),
    {
        Handle { ptr: self.shell_surface, token: self.liveliness }
    }

    /// The window id of this surface.
    pub fn window_id(&self) -> (id: u32)
        ensures
            id == self.native().window_id,
    {
        self.state.native().window_id
    }

    /// The surface id of this surface.
    pub fn surface_id(&self) -> (id: u32)
        ensures
            id == self.native().surface_id,
    {
        self.state.native().surface_id
    }

    /// The display surface that backs this window. A window that is not
    /// mapped has none; one whose display surface is not wrapped gives none
    /// either.
    pub fn surface(&self) -> (surface: Option<Handle>)
        ensures
            surface == backing_handle(self.model(), self.native().surface),
    {
        let address: usize = self.state.native().surface;
        if address == 0 {
            None
        } else {
            self.registry.surface_handle_of(address)
        }
    }

    /// The position of the window, as (x, y).
    pub fn coords(&self) -> (at: (i16, i16))
        ensures
            at == (self.native().x, self.native().y),
    {
        (self.state.native().x, self.state.native().y)
    }

    /// The size of the window, as (width, height).
    pub fn dimensions(&self) -> (size: (u16, u16))
        ensures
            size == (self.native().width, self.native().height),
    {
        (self.state.native().width, self.state.native().height)
    }

    /// The size that the toolkit saved for the window, as (width, height).
    pub fn saved_dimensions(&self) -> (size: (u16, u16))
        ensures
            size == (self.native().saved_width, self.native().saved_height),
    {
        (self.state.native().saved_width, self.state.native().saved_height)
    }

    /// Whether the window asked not to be managed.
    pub fn override_redirect(&self) -> (flag: bool)
        ensures
            flag == self.native().override_redirect,
    {
        self.state.native().override_redirect
    }

    /// Whether the window is mapped.
    pub fn mapped(&self) -> (flag: bool)
        ensures
            flag == self.native().mapped,
    {
        self.state.native().mapped
    }

    /// The title of the client, if it has one.
    pub fn title(&self) -> (title: Option<String>)
        ensures
            title == self.native().title,
    {
        match &self.state.native().title {
            Some(text) => Some(text.clone()),
            None => None,
        }
    }

    /// The class of the client, if it has one.
    pub fn class(&self) -> (class: Option<String>)
        ensures
            class == self.native().class,
    {
        match &self.state.native().class {
            Some(text) => Some(text.clone()),
            None => None,
        }
    }

    /// The instance of the client, if it has one.
    pub fn instance(&self) -> (instance: Option<String>)
        ensures
            instance == self.native().instance,
    {
        match &self.state.native().instance {
            Some(text) => Some(text.clone()),
            None => None,
        }
    }

    /// The process id of the client.
    pub fn pid(&self) -> (pid: i32)
        ensures
            pid == self.native().pid,
    {
        self.state.native().pid
    }

    /// The parent window, if there is one and it is wrapped.
    pub fn parent(&self) -> (parent: Option<Handle>)
        ensures
            parent == related_handle(self.model(), self.native().parent),
    {
        let address: usize = self.state.native().parent;
        if address == 0 {
            None
        } else {
            self.registry.handle_of(address)
        }
    }

    /// The child windows that are wrapped, in the toolkit's order.
    pub fn children(&self) -> (children: Vec<Handle>)
        ensures
            children@ == handles_of(self.model(), self.native().children@),
    {
        let addresses = &self.state.native().children;
        let mut children: Vec<Handle> = Vec::new();
        let mut i: usize = 0;
        while i < addresses.len()
            invariant
                i <= addresses.len(),
                children@ == handles_of(self.registry@, addresses@.take(i as int)),
            decreases addresses.len() - i,
        {
            proof {
                assert(addresses@.take(i + 1).drop_last() =~= addresses@.take(i as int));
            }
            match self.registry.handle_of(addresses[i]) {
                Some(child) => {
                    children.push(child);
                },
                None => {},
            }
            i += 1;
        }
        proof {
            assert(addresses@.take(i as int) =~= addresses@);
        }
        children
    }

    /// The window types that the client declared.
    pub fn window_type(&self) -> (atoms: &[u32])
        ensures
            atoms@ == self.native().window_type@,
    {
        self.state.native().window_type.as_slice()
    }

    /// How many window types the client declared.
    pub fn window_type_len(&self) -> (len: usize)
        ensures
            len == self.native().window_type@.len(),
    {
        self.state.native().window_type.len()
    }

    /// The protocols that the client supports.
    pub fn protocols(&self) -> (atoms: &[u32])
        ensures
            atoms@ == self.native().protocols@,
    {
        self.state.native().protocols.as_slice()
    }

    /// How many protocols the client supports.
    pub fn protocols_len(&self) -> (len: usize)
        ensures
            len == self.native().protocols@.len(),
    {
        self.state.native().protocols.len()
    }

    /// The decorations of the client.
    pub fn decorations(&self) -> (decorations: u32)
        ensures
            decorations == self.native().decorations,
    {
        self.state.native().decorations
    }

    /// The window-manager hints of the client, if it gave any.
    pub fn hints(&self) -> (hints: Option<Hints>)
        ensures
            hints == self.native().hints,
    {
        self.state.native().hints
    }

    /// The size hints of the client, if it gave any.
    pub fn size_hints(&self) -> (hints: Option<SizeHints>)
        ensures
            hints == self.native().size_hints,
    {
        self.state.native().size_hints
    }

    /// The urgency of the hints.
    pub fn hints_urgency(&self) -> (urgency: u32)
        ensures
            urgency == self.native().hints_urgency,
    {
        self.state.native().hints_urgency
    }

    /// Whether a ping to the client is waiting for its answer.
    pub fn pinging(&self) -> (flag: bool)
        ensures
            flag == self.native().pinging,
    {
        self.state.native().pinging
    }

    /// The address of the timer that watches for the answer to a ping.
    pub fn ping_timer(&self) -> (timer: usize)
        ensures
            timer == self.native().ping_timer,
    {
        self.state.native().ping_timer
    }

    /// Whether the client is fullscreen.
    pub fn fullscreen(&self) -> (flag: bool)
        ensures
            flag == self.native().fullscreen,
    {
        self.state.native().fullscreen
    }

    /// Whether the client is maximized vertically.
    pub fn maximized_vert(&self) -> (flag: bool)
        ensures
            flag == self.native().maximized_vert,
    {
        self.state.native().maximized_vert
    }

    /// Whether the client is maximized horizontally.
    pub fn maximized_horz(&self) -> (flag: bool)
        ensures
            flag == self.native().maximized_horz,
    {
        self.state.native().maximized_horz
    }

    /// Whether the client has an alpha channel.
    pub fn has_alpha(&self) -> (flag: bool)
        ensures
            flag == self.native().has_alpha,
    {
        self.state.native().has_alpha
    }

    /// The rectangle that the window covers, in layout-local coordinates.
    pub fn geometry(&self) -> (area: Area)
        ensures
            area == geometry_of(self.native()),
    {
        let native = self.state.native();
        Area {
            origin: Origin { x: native.x as i32, y: native.y as i32 },
            size: Size { width: native.width as i32, height: native.height as i32 },
        }
    }

    /// The request that asks the window to take a new position and size.
    pub fn configure(&self, x: i16, y: i16, width: u16, height: u16) -> (request: Request)
        ensures
            request == (Request::Configure { surface: self.ptr(), x, y, width, height }),
    {
        Request::Configure { surface: self.shell_surface, x, y, width, height }
    }

    /// The request that tells the window whether it is the focused one.
    pub fn set_activated(&self, active: bool) -> (request: Request)
        ensures
            request == (Request::Activate { surface: self.ptr(), active }),
    {
        Request::Activate { surface: self.shell_surface, active }
    }
}

/// The handle of the display surface behind an address that a window record
/// holds: none for the address 0 and for a display surface that is not
/// wrapped.
pub open spec fn backing_handle(model: Model, address: usize) -> Option<Handle> {
    if address == 0 {
        None
    } else {
        model.surface_handle_of(address)
    }
}

/// The handle of the window behind an address that a window record holds:
/// none for the address 0 and for a window that is not wrapped.
pub open spec fn related_handle(model: Model, address: usize) -> Option<Handle> {
    if address == 0 {
        None
    } else {
        model.handle_of(address)
    }
}

/// The handles of those of `addresses` that are wrapped, in their order.
pub open spec fn handles_of(model: Model, addresses: Seq<usize>) -> Seq<Handle>
    decreases addresses.len(),
{
    if addresses.len() == 0 {
        Seq::empty()
    } else {
        let rest = handles_of(model, addresses.drop_last());
        match model.handle_of(addresses.last()) {
            Some(handle) => rest.push(handle),
            None => rest,
        }
    }
}

/// The rectangle of a window record: its position and its size, widened.
pub open spec fn geometry_of(native: NativeSurface) -> Area {
    Area {
        origin: Origin { x: native.x as i32, y: native.y as i32 },
        size: Size { width: native.width as i32, height: native.height as i32 },
    }
}

impl<H, S> Registry<H, S> {
    /// Wraps the object at `ptr`, whose fields are copied in `native`: gives
    /// it a fresh lineage and a state block, with no handler attached and
    /// every record spliced in. Refused with `DoubleWrap`, and nothing
    /// changed, if the object is wrapped already.
    pub fn wrap(&mut self, ptr: usize, native: NativeSurface) -> (wrapped: Result<
        Surface<'_, H, S>,
        Defect,
    >)
        ensures
            old(self)@.wf() ==> final(self)@.wf(),
            final(self)@ == old(self)@.wrapped(ptr, native),
            wrapped is Ok <==> !old(self)@.registered(ptr),
            wrapped matches Ok(surface) ==> surface.upgrades(
                Handle::made(ptr, WeakToken::at(old(self)@.cells.len() as int)),
                final(self)@,
            ),
            wrapped matches Err(defect) ==> defect == Defect::DoubleWrap,
            forall|q: usize| #[trigger] final(self).handler_of(q) == old(self).handler_of(q),
    {
        if self.is_registered(ptr) {
            return Err(Defect::DoubleWrap);
        }
        self.install(ptr, native);
        let registry: &Registry<H, S> = self;
        match registry.state(ptr) {
            Some(state) => Ok(
                Surface { liveliness: state.lineage(), shell_surface: ptr, state, registry },
            ),
            None => Err(Defect::DoubleWrap),
        }
    }

    /// Gives the wrapper of the window at `ptr` back from the state block in
    /// its user-data slot: the same lineage, never a second one. Refused
    /// with `UnregisteredNative` if the window was never wrapped, and also
    /// while its destroy notification is being told, when the state block is
    /// still there but no longer stands for a valid window.
    pub fn from_existing(&self, ptr: usize) -> (existing: Result<Surface<'_, H, S>, Defect>)
        ensures
            existing is Ok <==> self@.registered(ptr) && self@.live(self@.handle_of(ptr)->0),
            existing matches Ok(surface) ==> surface.upgrades(self@.handle_of(ptr)->0, self@),
            existing matches Err(defect) ==> defect == Defect::UnregisteredNative,
    {
        match self.state(ptr) {
            Some(state) => {
                let lineage = state.lineage();
                if self.is_alive(lineage) {
                    Ok(Surface { liveliness: lineage, shell_surface: ptr, state, registry: self })
                } else {
                    Err(Defect::UnregisteredNative)
                }
            },
            None => Err(Defect::UnregisteredNative),
        }
    }
}

impl Handle {
    /// Upgrades this handle for the length of one call: if the window is
    /// still valid, runs `body` on its wrapper and gives what `body` gave;
    /// if the window has been destroyed, gives `AlreadyDropped` and does not
    /// run `body`. The wrapper does not outlive the call.
    pub fn upgrade_and_run<H, S, R, F: FnOnce(&Surface<H, S>) -> R>(
        self,
        registry: &Registry<H, S>,
        body: F,
    ) -> (outcome: HandleResult<R>)
        requires
            forall|surface: Surface<H, S>| #[trigger]
                surface.upgrades(self, registry@) ==> body.requires((&surface,)),
        ensures
            outcome is Ok <==> registry@.live(self),
            outcome matches Ok(value) ==> exists|surface: Surface<H, S>| #[trigger]
                surface.upgrades(self, registry@) && body.ensures((&surface,), value),
            outcome matches Err(err) ==> err == HandleErr::AlreadyDropped,
    {
        match Surface::from_handle(registry, &self) {
            Ok(surface) => {
                let value = body(&surface);
                Ok(value)
            },
            Err(err) => Err(err),
        }
    }
}

} // verus!
