//! The registry: the user-data slots of the wrapped objects and the
//! liveliness cells of their lineages.
//!
//! The code that drives the toolkit calls `wrap` when the toolkit has made a
//! window, and then splices one listener per kind into the window's
//! notification lists. Whenever a listener fires it copies the window's
//! fields anew with `sync` and calls `dispatch`. What `dispatch` lists as
//! unspliced it removes from the lists; after a destroy notification that is
//! every listener that was left.
//!
//! Display surfaces, which back the windows while they are mapped, are
//! wrapped with `wrap_surface` and end with `destroy_surface`. Each has a
//! lineage and a handler slot of its own; the handler that a window's
//! `on_map` hands back goes there.
use vstd::prelude::*;
use std::collections::HashMap;
use crate::event::{Event, EventKind};
use crate::handle::Handle;
use crate::handler::{called, deliver, Delivery, Handler};
use crate::liveliness::{alive, Liveliness, StrongToken, WeakToken};
use crate::model::{Backing, Model, Slot};
use crate::native::NativeSurface;
use crate::shell::Shell;

verus! {

/// A defect in the code that drives the bridge. Neither is part of normal
/// operation.
#[derive(Clone, Copy, Debug, PartialEq, Eq, Structural)]
pub enum Defect {
    /// The object was never wrapped: its user-data slot is empty.
    UnregisteredNative,
    /// The object is wrapped already: its user-data slot is taken.
    DoubleWrap,
}

/// The state block of one wrapped object: what its user-data slot holds.
pub struct State<H> {
    token: StrongToken,
    native: NativeSurface,
    shell: Shell<H>,
}

/// The state block of one wrapped display surface: its lineage and the
/// handler slot of its dispatch table.
pub struct SurfaceState<S> {
    token: StrongToken,
    handler: Option<S>,
}

/// The user-data slots of all wrapped windows and display surfaces, by
/// address, and the table of liveliness cells. Its view is the model that
/// the contracts speak of.
pub struct Registry<H, S> {
    liveliness: Liveliness,
    slots: HashMap<usize, State<H>>,
    surfaces: HashMap<usize, SurfaceState<S>>,
}

/// What one notification came to.
pub struct Dispatch<S> {
    /// What the handler was told, if it was told anything.
    pub delivery: Option<Delivery>,
    /// The display surface that the handler that `on_map` handed back was
    /// attached to.
    pub handed_to: Option<Handle>,
    /// The handler that `on_map` handed back and that could be attached
    /// nowhere, because no wrapped display surface backs the window.
    pub secondary: Option<S>,
    /// The records that were taken out of the dispatch table, by position:
    /// each still has to be removed from the object's notification list.
    pub unspliced: Vec<EventKind>,
}

impl<H> State<H> {
    /// The state block as the contracts see it.
    pub closed spec fn slot(&self) -> Slot {
        Slot {
            token: self.token.weak(),
            native: self.native,
            attached: self.shell.attached(),
            records: self.shell.records(),
        }
    }

    /// The weak token of the lineage.
    pub(crate) fn lineage(&self) -> (token: WeakToken)
        ensures
            token == self.slot().token,
    {
        self.token.downgrade()
    }

    /// The copy of the object's fields.
    pub(crate) fn native(&self) -> (native: &NativeSurface)
        ensures
            *native == self.slot().native,
    {
        &self.native
    }
}

impl<S> SurfaceState<S> {
    /// The state block as the contracts see it.
    pub closed spec fn backing(&self) -> Backing {
        Backing { token: self.token.weak(), attached: self.handler is Some }
    }
}

impl<H, S> View for Registry<H, S> {
    type V = Model;

    closed spec fn view(&self) -> Model {
        Model {
            cells: self.liveliness@,
            slots: self.slots@.map_values(|state: State<H>| state.slot()),
            surfaces: self.surfaces@.map_values(
                |state: SurfaceState<S>| state.backing(),
            ),
        }
    }
}

impl<H, S> Registry<H, S> {
    /// The handler that is attached to the object at `ptr`, if any.
    pub closed spec fn handler_of(&self, ptr: usize) -> Option<H> {
        if self.slots@.contains_key(ptr) {
            self.slots@[ptr].shell.handler()
        } else {
            None
        }
    }

    /// The handler that is attached to the display surface at `ptr`, if any.
    pub closed spec fn surface_handler_of(&self, ptr: usize) -> Option<S> {
        if self.surfaces@.contains_key(ptr) {
            self.surfaces@[ptr].handler
        } else {
            None
        }
    }

    /// The model says "attached" of exactly the objects that hold a handler.
    pub proof fn lemma_handler_of(&self, ptr: usize)
        ensures
            self.handler_of(ptr) is Some <==> self@.registered(ptr) && self@.slots[ptr].attached,
            self.surface_handler_of(ptr) is Some <==> self@.surface_registered(ptr)
                && self@.surfaces[ptr].attached,
    {
    }

    /// A registry with nothing wrapped.
    pub fn new() -> (registry: Self)
        ensures
            registry@ == Model::empty(),
            registry@.wf(),
            forall|q: usize| #[trigger] registry.handler_of(q) is None,
            forall|s: usize| #[trigger] registry.surface_handler_of(s) is None,
    {
        let registry = Registry {
            liveliness: Liveliness::new(),
            slots: HashMap::new(),
            surfaces: HashMap::new(),
        };
        assert(registry@.slots =~= Map::<usize, Slot>::empty());
        assert(registry@.surfaces =~= Map::<usize, Backing>::empty());
        registry
    }

    /// Whether the object at `ptr` is wrapped.
    pub fn is_registered(&self, ptr: usize) -> (registered: bool)
        ensures
            registered == self@.registered(ptr),
    {
        broadcast use vstd::std_specs::hash::group_hash_axioms;

        self.slots.contains_key(&ptr)
    }

    /// The state block of the object at `ptr`, if it is wrapped.
    pub(crate) fn state(&self, ptr: usize) -> (state: Option<&State<H>>)
        ensures
            state is Some <==> self@.registered(ptr),
            state matches Some(block) ==> block.slot() == self@.slots[ptr],
    {
        broadcast use vstd::std_specs::hash::group_hash_axioms;

        self.slots.get(&ptr)
    }

    /// Gives the object at `ptr`, which is not wrapped yet, a fresh lineage
    /// and a state block.
    pub(crate) fn install(&mut self, ptr: usize, native: NativeSurface)
        requires
            !old(self)@.registered(ptr),
        ensures
            old(self)@.wf() ==> final(self)@.wf(),
            final(self)@ == old(self)@.wrapped(ptr, native),
            final(self)@.cells.len() <= usize::MAX,
            forall|q: usize| #[trigger] final(self).handler_of(q) == old(self).handler_of(q),
            forall|s: usize|
                #[trigger] final(self).surface_handler_of(s) == old(self).surface_handler_of(s),
    {
        broadcast use vstd::std_specs::hash::group_hash_axioms;

        let token = self.liveliness.new_token();
        let shell = Shell::new(None);
        self.slots.insert(ptr, State { token, native, shell });
        proof {
            assert(self@.slots =~= old(self)@.wrapped(ptr, native).slots);
            if old(self)@.wf() {
                old(self)@.lemma_wrapped_wf(ptr, native);
            }
        }
    }

    /// The handle of the object at `ptr`: its address with the weak token of
    /// the lineage kept in its state block. `None` if it is not wrapped.
    pub fn handle_of(&self, ptr: usize) -> (handle: Option<Handle>)
        ensures
            handle == self@.handle_of(ptr),
    {
        broadcast use vstd::std_specs::hash::group_hash_axioms;

        match self.slots.get(&ptr) {
            Some(state) => Some(Handle { ptr, token: state.token.downgrade() }),
            None => None,
        }
    }

    /// Whether the lineage that `token` names is still alive.
    pub fn is_alive(&self, token: WeakToken) -> (live: bool)
        ensures
            live == alive(self@.cells, token.id()),
    {
        self.liveliness.is_alive(token)
    }

    /// Whether `handle` can be upgraded.
    pub fn is_live(&self, handle: &Handle) -> (live: bool)
        ensures
            live == self@.live(*handle),
    {
        broadcast use vstd::std_specs::hash::group_hash_axioms;

        match self.slots.get(&handle.ptr) {
            Some(state) => state.token.downgrade() == handle.token && self.liveliness.is_alive(
                handle.token,
            ),
            None => false,
        }
    }

    /// The handle of the display surface that backs the window at `ptr`.
    pub fn related(&self, ptr: usize) -> (surface: Option<Handle>)
        ensures
            surface == self@.related(ptr),
    {
        broadcast use vstd::std_specs::hash::group_hash_axioms;

        match self.slots.get(&ptr) {
            Some(state) => {
                if state.native.surface != 0 {
                    self.surface_handle_of(state.native.surface)
                } else {
                    None
                }
            },
            None => None,
        }
    }

    /// Replaces the copy of the fields of the object at `ptr` by `native`.
    /// Refused, with nothing changed, if the object is not wrapped.
    pub fn sync(&mut self, ptr: usize, native: NativeSurface) -> (done: Result<(), Defect>)
        ensures
            old(self)@.wf() ==> final(self)@.wf(),
            final(self)@ == old(self)@.synced(ptr, native),
            forall|q: usize| #[trigger] final(self).handler_of(q) == old(self).handler_of(q),
            forall|s: usize|
                #[trigger] final(self).surface_handler_of(s) == old(self).surface_handler_of(s),
            done is Ok <==> old(self)@.registered(ptr),
            done is Err ==> done == Err::<(), Defect>(Defect::UnregisteredNative),
    {
        broadcast use vstd::std_specs::hash::group_hash_axioms;

        proof {
            if old(self)@.wf() {
                old(self)@.lemma_synced_wf(ptr, native);
            }
        }
        match self.slots.remove(&ptr) {
            Some(state) => {
                let State { token, native: _, shell } = state;
                self.slots.insert(ptr, State { token, native, shell });
                assert(self@.slots =~= old(self)@.synced(ptr, native).slots);
                Ok(())
            },
            None => {
                assert(self@.slots =~= old(self)@.slots);
                Err(Defect::UnregisteredNative)
            },
        }
    }

    /// Attaches `handler` to the object at `ptr` and hands back the handler
    /// that was attached before, if any. Refused, with nothing changed, if
    /// the object is not wrapped.
    pub fn attach(&mut self, ptr: usize, handler: H) -> (previous: Result<Option<H>, Defect>)
        ensures
            old(self)@.wf() ==> final(self)@.wf(),
            final(self)@ == old(self)@.with_handler(ptr, true),
            previous is Ok <==> old(self)@.registered(ptr),
            previous matches Ok(before) ==> before == old(self).handler_of(ptr)
                && final(self).handler_of(ptr) == Some(handler),
            previous matches Err(defect) ==> defect == Defect::UnregisteredNative,
            forall|q: usize|
                q != ptr ==> #[trigger] final(self).handler_of(q) == old(self).handler_of(q),
            forall|s: usize|
                #[trigger] final(self).surface_handler_of(s) == old(self).surface_handler_of(s),
    {
        broadcast use vstd::std_specs::hash::group_hash_axioms;

        proof {
            if old(self)@.wf() {
                old(self)@.lemma_with_handler_wf(ptr, true);
            }
        }
        match self.slots.remove(&ptr) {
            Some(state) => {
                let State { token, native, mut shell } = state;
                let before = shell.attach(handler);
                self.slots.insert(ptr, State { token, native, shell });
                assert(self@.slots =~= old(self)@.with_handler(ptr, true).slots);
                Ok(before)
            },
            None => {
                assert(self@.slots =~= old(self)@.slots);
                Err(Defect::UnregisteredNative)
            },
        }
    }

    /// Detaches the handler of the object at `ptr` and hands it back. From
    /// then on the object's notifications are dropped, except that a destroy
    /// notification still ends the lineage.
    pub fn detach(&mut self, ptr: usize) -> (previous: Option<H>)
        ensures
            old(self)@.wf() ==> final(self)@.wf(),
            final(self)@ == old(self)@.with_handler(ptr, false),
            previous == old(self).handler_of(ptr),
            final(self).handler_of(ptr) is None,
            forall|q: usize|
                q != ptr ==> #[trigger] final(self).handler_of(q) == old(self).handler_of(q),
            forall|s: usize|
                #[trigger] final(self).surface_handler_of(s) == old(self).surface_handler_of(s),
    {
        broadcast use vstd::std_specs::hash::group_hash_axioms;

        proof {
            if old(self)@.wf() {
                old(self)@.lemma_with_handler_wf(ptr, false);
            }
        }
        match self.slots.remove(&ptr) {
            Some(state) => {
                let State { token, native, mut shell } = state;
                let before = shell.detach();
                self.slots.insert(ptr, State { token, native, shell });
                assert(self@.slots =~= old(self)@.with_handler(ptr, false).slots);
                before
            },
            None => {
                assert(self@.slots =~= old(self)@.slots);
                None
            },
        }
    }

    /// Takes the record of `kind` out of the dispatch table of the window at
    /// `ptr`. The answer says whether the record was spliced in until now:
    /// only then is there anything to remove from the window's notification
    /// list. A second call answers `false` and changes nothing.
    ///
    /// The destroy record is not given up: for it the answer is `false` and
    /// nothing changes. Without it the bridge would not hear that the window
    /// is gone.
    pub fn deregister(&mut self, ptr: usize, kind: EventKind) -> (removed: bool)
        ensures
            old(self)@.wf() ==> final(self)@.wf(),
            final(self)@ == old(self)@.deregistered(ptr, kind),
            removed == (kind != EventKind::Destroy && old(self)@.registered(ptr) && old(
                self,
            )@.slots[ptr].records[kind.position()]),
            !removed ==> final(self)@ == old(self)@,
            forall|q: usize| #[trigger] final(self).handler_of(q) == old(self).handler_of(q),
            forall|s: usize|
                #[trigger] final(self).surface_handler_of(s) == old(self).surface_handler_of(s),
    {
        broadcast use vstd::std_specs::hash::group_hash_axioms;

        proof {
            if old(self)@.wf() {
                old(self)@.lemma_deregistered_wf(ptr, kind);
            }
        }
        if let EventKind::Destroy = kind {
            return false;
        }
        match self.slots.remove(&ptr) {
            Some(state) => {
                let State { token, native, mut shell } = state;
                let removed = shell.deregister(kind);
                self.slots.insert(ptr, State { token, native, shell });
                assert(self@.slots =~= old(self)@.deregistered(ptr, kind).slots);
                if !removed {
                    assert(self@.slots =~= old(self)@.slots);
                }
                removed
            },
            None => {
                assert(self@.slots =~= old(self)@.slots);
                false
            },
        }
    }

    /// Whether the display surface at `ptr` is wrapped.
    pub fn is_surface_registered(&self, ptr: usize) -> (registered: bool)
        ensures
            registered == self@.surface_registered(ptr),
    {
        broadcast use vstd::std_specs::hash::group_hash_axioms;

        self.surfaces.contains_key(&ptr)
    }

    /// The handle of the display surface at `ptr`: its address with the weak
    /// token of the lineage kept in its state block. `None` if it is not
    /// wrapped.
    pub fn surface_handle_of(&self, ptr: usize) -> (handle: Option<Handle>)
        ensures
            handle == self@.surface_handle_of(ptr),
    {
        broadcast use vstd::std_specs::hash::group_hash_axioms;

        match self.surfaces.get(&ptr) {
            Some(state) => Some(Handle { ptr, token: state.token.downgrade() }),
            None => None,
        }
    }

    /// Whether `handle` refers to a display surface that is still valid.
    pub fn is_surface_live(&self, handle: &Handle) -> (live: bool)
        ensures
            live == self@.surface_live(*handle),
    {
        broadcast use vstd::std_specs::hash::group_hash_axioms;

        match self.surfaces.get(&handle.ptr) {
            Some(state) => state.token.downgrade() == handle.token && self.liveliness.is_alive(
                handle.token,
            ),
            None => false,
        }
    }

    /// Wraps the display surface at `ptr`: gives it a fresh lineage and a
    /// state block with no handler attached, and hands back its handle.
    /// Refused with `DoubleWrap`, and nothing changed, if it is wrapped
    /// already.
    pub fn wrap_surface(&mut self, ptr: usize) -> (wrapped: Result<Handle, Defect>)
        ensures
            old(self)@.wf() ==> final(self)@.wf(),
            final(self)@ == old(self)@.surface_wrapped(ptr),
            wrapped is Ok <==> !old(self)@.surface_registered(ptr),
            wrapped matches Ok(handle) ==> Some(handle) == final(self)@.surface_handle_of(ptr)
                && handle.lineage().id() == old(self)@.cells.len(),
            wrapped matches Err(defect) ==> defect == Defect::DoubleWrap,
            forall|q: usize| #[trigger] final(self).handler_of(q) == old(self).handler_of(q),
            forall|s: usize|
                #[trigger] final(self).surface_handler_of(s) == old(self).surface_handler_of(s),
    {
        broadcast use vstd::std_specs::hash::group_hash_axioms;

        if self.surfaces.contains_key(&ptr) {
            return Err(Defect::DoubleWrap);
        }
        let token = self.liveliness.new_token();
        let handle = Handle { ptr, token: token.downgrade() };
        self.surfaces.insert(ptr, SurfaceState { token, handler: None });
        proof {
            assert(self@.surfaces =~= old(self)@.surface_wrapped(ptr).surfaces);
            if old(self)@.wf() {
                old(self)@.lemma_surface_wrapped_wf(ptr);
            }
        }
        Ok(handle)
    }

    /// Attaches `handler` to the display surface at `ptr` and hands back the
    /// handler that was attached before, if any. Refused, with nothing
    /// changed, if the display surface is not wrapped.
    pub fn attach_surface(&mut self, ptr: usize, handler: S) -> (previous: Result<
        Option<S>,
        Defect,
    >)
        ensures
            old(self)@.wf() ==> final(self)@.wf(),
            final(self)@ == old(self)@.with_surface_handler(ptr, true),
            previous is Ok <==> old(self)@.surface_registered(ptr),
            previous matches Ok(before) ==> before == old(self).surface_handler_of(ptr)
                && final(self).surface_handler_of(ptr) == Some(handler),
            previous matches Err(defect) ==> defect == Defect::UnregisteredNative,
            forall|s: usize|
                s != ptr ==> #[trigger] final(self).surface_handler_of(s) == old(
                    self,
                ).surface_handler_of(s),
            forall|q: usize| #[trigger] final(self).handler_of(q) == old(self).handler_of(q),
    {
        broadcast use vstd::std_specs::hash::group_hash_axioms;

        proof {
            if old(self)@.wf() {
                old(self)@.lemma_with_surface_handler_wf(ptr, true);
            }
        }
        match self.surfaces.remove(&ptr) {
            Some(state) => {
                let SurfaceState { token, handler: before } = state;
                self.surfaces.insert(ptr, SurfaceState { token, handler: Some(handler) });
                assert(self@.surfaces =~= old(self)@.with_surface_handler(ptr, true).surfaces);
                Ok(before)
            },
            None => {
                assert(self@.surfaces =~= old(self)@.surfaces);
                Err(Defect::UnregisteredNative)
            },
        }
    }

    /// Detaches the handler of the display surface at `ptr` and hands it
    /// back.
    pub fn detach_surface(&mut self, ptr: usize) -> (previous: Option<S>)
        ensures
            old(self)@.wf() ==> final(self)@.wf(),
            final(self)@ == old(self)@.with_surface_handler(ptr, false),
            previous == old(self).surface_handler_of(ptr),
            final(self).surface_handler_of(ptr) is None,
            forall|s: usize|
                s != ptr ==> #[trigger] final(self).surface_handler_of(s) == old(
                    self,
                ).surface_handler_of(s),
            forall|q: usize| #[trigger] final(self).handler_of(q) == old(self).handler_of(q),
    {
        broadcast use vstd::std_specs::hash::group_hash_axioms;

        proof {
            if old(self)@.wf() {
                old(self)@.lemma_with_surface_handler_wf(ptr, false);
            }
        }
        match self.surfaces.remove(&ptr) {
            Some(state) => {
                let SurfaceState { token, handler: before } = state;
                self.surfaces.insert(ptr, SurfaceState { token, handler: None });
                assert(self@.surfaces =~= old(self)@.with_surface_handler(ptr, false).surfaces);
                before
            },
            None => {
                assert(self@.surfaces =~= old(self)@.surfaces);
                None
            },
        }
    }

    /// Handles the destroy notification of the display surface at `ptr`:
    /// flips the cell of its lineage to dead and releases its state block,
    /// with the handler in it. The answer says whether there was a state
    /// block to release.
    pub fn destroy_surface(&mut self, ptr: usize) -> (released: bool)
        ensures
            old(self)@.wf() ==> final(self)@.wf(),
            final(self)@ == old(self)@.surface_destroyed(ptr),
            released == old(self)@.surface_registered(ptr),
            final(self).surface_handler_of(ptr) is None,
            forall|s: usize|
                s != ptr ==> #[trigger] final(self).surface_handler_of(s) == old(
                    self,
                ).surface_handler_of(s),
            forall|q: usize| #[trigger] final(self).handler_of(q) == old(self).handler_of(q),
    {
        broadcast use vstd::std_specs::hash::group_hash_axioms;

        proof {
            if old(self)@.wf() {
                old(self)@.lemma_surface_destroyed_wf(ptr);
            }
        }
        match self.surfaces.remove(&ptr) {
            Some(state) => {
                self.liveliness.kill(&state.token);
                assert(self@.surfaces =~= old(self)@.surface_destroyed(ptr).surfaces);
                true
            },
            None => {
                assert(self@.surfaces =~= old(self)@.surfaces);
                false
            },
        }
    }
}

impl<H: Handler> Registry<H, H::SurfaceHandler> {
    /// Handles one notification from the toolkit: `event` fired on the
    /// window at `ptr`.
    ///
    /// A notification that the bridge does not hear (the window is not
    /// wrapped, or the record of the event's kind was taken out) changes
    /// nothing. Otherwise the attached handler, if there is one, is told
    /// once, with the window's handle and the event; with no handler the
    /// event is dropped, not kept for later.
    ///
    /// The handler is told through the one method that belongs to the
    /// event's kind. While it runs it is out of its slot; what the method
    /// makes of it is attached again afterwards.
    ///
    /// A destroy notification ends the lineage whether or not a handler is
    /// attached. The liveliness cell is flipped to dead before the handler
    /// is told, so the window's handle no longer upgrades while `destroyed`
    /// runs; the state block is still in place then. Only after the handler
    /// has returned is every record taken out and the state block, with the
    /// handler in it, released.
    ///
    /// A handler that `on_map` hands back is attached to the display surface
    /// that backs the window, in place of the handler that was attached
    /// there. If no wrapped display surface backs the window, it is handed
    /// on to the caller.
    pub fn dispatch(&mut self, ptr: usize, event: Event) -> (outcome: Dispatch<H::SurfaceHandler>)
        ensures
            old(self)@.wf() ==> final(self)@.wf(),
            final(self)@ == old(self)@.fired(ptr, event.kind()).handed_off(outcome.handed_to),
            outcome.delivery == old(self)@.delivery(ptr, event),
            outcome.unspliced@ == old(self)@.unspliced(ptr, event.kind()),
            outcome.delivery is None || !(event is MapNotify) ==> outcome.secondary is None
                && outcome.handed_to is None,
            forall|q: usize|
                q != ptr ==> #[trigger] final(self).handler_of(q) == old(self).handler_of(q),
            forall|s: usize|
                !(outcome.handed_to matches Some(surface) && surface.addr() == s)
                    ==> #[trigger] final(self).surface_handler_of(s) == old(
                    self,
                ).surface_handler_of(s),
            outcome.delivery is None && final(self)@.registered(ptr) ==> final(self).handler_of(ptr)
                == old(self).handler_of(ptr),
            outcome.delivery matches Some(told) ==> exists|
                call: &mut H,
                seen: Registry<H, H::SurfaceHandler>,
                handed: Option<H::SurfaceHandler>,
            |
                {
                    &&& old(self).handler_of(ptr) == Some(*call)
                    &&& seen@ == old(self)@.telling(ptr, event.kind())
                    &&& forall|q: usize|
                        q != ptr ==> #[trigger] seen.handler_of(q) == old(self).handler_of(q)
                    &&& forall|s: usize|
                        #[trigger] seen.surface_handler_of(s) == old(self).surface_handler_of(s)
                    &&& !(event is Destroy) ==> final(self).handler_of(ptr) == Some(*final(call))
                    &&& #[trigger] called(call, &seen, told, handed)
                    &&& outcome.handed_to == old(self)@.handed_to(ptr, event, handed is Some)
                    &&& if handed is Some && told.surface is Some {
                        &&& outcome.handed_to == told.surface
                        &&& outcome.secondary is None
                        &&& final(self).surface_handler_of(told.surface->0.addr()) == handed
                    } else {
                        &&& outcome.handed_to is None
                        &&& outcome.secondary == handed
                    }
                },
    {
        broadcast use vstd::std_specs::hash::group_hash_axioms;

        proof {
            if old(self)@.wf() {
                old(self)@.lemma_fired_wf(ptr, event.kind());
            }
        }
        let kind = event.kind();
        let surface = self.related(ptr);
        let state = match self.slots.remove(&ptr) {
            Some(state) => state,
            None => {
                assert(self@.slots =~= old(self)@.slots);
                return Dispatch {
                    delivery: None,
                    handed_to: None,
                    secondary: None,
                    unspliced: Vec::new(),
                };
            },
        };
        let State { token, native, mut shell } = state;
        if !shell.is_registered(kind) || !self.liveliness.is_alive(token.downgrade()) {
            self.slots.insert(ptr, State { token, native, shell });
            assert(self@.slots =~= old(self)@.slots);
            return Dispatch {
                delivery: None,
                handed_to: None,
                secondary: None,
                unspliced: Vec::new(),
            };
        }
        let handle = Handle { ptr, token: token.downgrade() };
        let delivery = Delivery { surface, handle, event };
        let handler = shell.detach();
        match event {
            Event::Destroy => {
                self.liveliness.kill(&token);
                self.slots.insert(ptr, State { token, native, shell });
                assert(self@.slots =~= old(self)@.telling(ptr, kind).slots);
                let told = match handler {
                    Some(mut handler) => {
                        let _ = deliver(&mut handler, &*self, &delivery);
                        Some(delivery)
                    },
                    None => None,
                };
                let unspliced = match self.slots.remove(&ptr) {
                    Some(state) => {
                        let mut shell = state.shell;
                        shell.deregister_all()
                    },
                    None => Vec::new(),
                };
                assert(self@.slots =~= old(self)@.fired(ptr, kind).slots);
                Dispatch { delivery: told, handed_to: None, secondary: None, unspliced }
            },
            _ => {
                match handler {
                    Some(mut handler) => {
                        self.slots.insert(ptr, State { token, native, shell });
                        assert(self@.slots =~= old(self)@.with_handler(ptr, false).slots);
                        let handed = deliver(&mut handler, &*self, &delivery);
                        match self.slots.remove(&ptr) {
                            Some(state) => {
                                let State { token, native, mut shell } = state;
                                let _ = shell.attach(handler);
                                self.slots.insert(ptr, State { token, native, shell });
                            },
                            None => {},
                        }
                        assert(self@.slots =~= old(self)@.slots);
                        let (handed_to, secondary) = self.hand_off(surface, handed);
                        proof {
                            if old(self)@.wf() {
                                old(self)@.lemma_handed_off_wf(handed_to);
                            }
                        }
                        Dispatch {
                            delivery: Some(delivery),
                            handed_to,
                            secondary,
                            unspliced: Vec::new(),
                        }
                    },
                    None => {
                        self.slots.insert(ptr, State { token, native, shell });
                        assert(self@.slots =~= old(self)@.slots);
                        Dispatch {
                            delivery: None,
                            handed_to: None,
                            secondary: None,
                            unspliced: Vec::new(),
                        }
                    },
                }
            },
        }
    }

    /// Attaches `handed`, the handler that `on_map` gave back, to the
    /// display surface that `surface` names, in place of the handler that
    /// was attached there. The answer names the display surface that now
    /// holds the handler, or gives the handler back where there is none to
    /// hold it.
    fn hand_off(&mut self, surface: Option<Handle>, handed: Option<H::SurfaceHandler>) -> (answer: (
        Option<Handle>,
        Option<H::SurfaceHandler>,
    ))
        requires
            surface matches Some(named) ==> old(self)@.surface_registered(named.ptr),
        ensures
            final(self)@ == old(self)@.handed_off(answer.0),
            forall|q: usize| #[trigger] final(self).handler_of(q) == old(self).handler_of(q),
            forall|s: usize|
                !(answer.0 matches Some(named) && named.ptr == s)
                    ==> #[trigger] final(self).surface_handler_of(s) == old(
                    self,
                ).surface_handler_of(s),
            if handed is Some && surface is Some {
                &&& answer.0 == surface
                &&& answer.1 is None
                &&& final(self).surface_handler_of(surface->0.ptr) == handed
            } else {
                &&& answer.0 is None
                &&& answer.1 == handed
            },
    {
        broadcast use vstd::std_specs::hash::group_hash_axioms;

        match (surface, handed) {
            (Some(named), Some(handler)) => {
                match self.surfaces.remove(&named.ptr) {
                    Some(state) => {
                        let SurfaceState { token, handler: _ } = state;
                        self.surfaces.insert(named.ptr, SurfaceState { token, handler: Some(handler) });
                        assert(self@.surfaces =~= old(self)@.handed_off(surface).surfaces);
                        (surface, None)
                    },
                    None => (None, Some(handler)),
                }
            },
            (_, handed) => (None, handed),
        }
    }
}

} // verus!
