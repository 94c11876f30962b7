//! The bridge as mathematics: which objects are wrapped, which lineages are
//! alive, and what each operation makes of that.
//!
//! The executable registry is specified against this model: every operation
//! says which of the functions below gives its new state and its result.
use vstd::prelude::*;
use crate::event::{Event, EventKind, RECORDS};
use crate::handle::Handle;
use crate::handler::Delivery;
use crate::liveliness::{alive, killed, WeakToken};
use crate::native::NativeSurface;

verus! {

/// The state block of one wrapped object, as the contracts see it.
pub struct Slot {
    /// The lineage that the object was wrapped with.
    pub token: WeakToken,
    /// The latest copy of the object's fields.
    pub native: NativeSurface,
    /// Whether a handler is attached.
    pub attached: bool,
    /// For each kind of notification, by position, whether its record is
    /// spliced into the object's notification list.
    pub records: Seq<bool>,
}

/// The state block of one wrapped display surface, as the contracts see it.
pub struct Backing {
    /// The lineage that the display surface was wrapped with.
    pub token: WeakToken,
    /// Whether a handler is attached.
    pub attached: bool,
}

/// The whole bridge: the liveliness cells and the state blocks, by address,
/// of the wrapped windows and of the wrapped display surfaces.
pub struct Model {
    pub cells: Seq<bool>,
    pub slots: Map<usize, Slot>,
    pub surfaces: Map<usize, Backing>,
}

/// A table in which every record is spliced in.
pub open spec fn all_registered() -> Seq<bool> {
    Seq::new(RECORDS as nat, |i: int| true)
}

/// The kinds among the first `n` whose record is spliced in, by position.
pub open spec fn registered_kinds(records: Seq<bool>, n: int) -> Seq<EventKind>
    decreases n,
{
    if n <= 0 {
        Seq::empty()
    } else {
        let rest = registered_kinds(records, n - 1);
        if n - 1 < records.len() && records[n - 1] && EventKind::at(n - 1) is Some {
            rest.push(EventKind::at(n - 1)->0)
        } else {
            rest
        }
    }
}

impl Model {
    /// The bridge before anything was wrapped.
    pub open spec fn empty() -> Model {
        Model { cells: Seq::empty(), slots: Map::empty(), surfaces: Map::empty() }
    }

    /// The invariant of the bridge between notifications: every state block
    /// belongs to a lineage that is alive, no two state blocks share a
    /// lineage, and every dispatch table has one record per kind, with the
    /// destroy record spliced in.
    pub open spec fn wf(self) -> bool {
        &&& self.cells.len() <= usize::MAX
        &&& forall|p: usize| #[trigger]
            self.slots.contains_key(p) ==> {
                &&& alive(self.cells, self.slots[p].token.id())
                &&& self.slots[p].records.len() == RECORDS
                &&& self.slots[p].records[EventKind::Destroy.position()]
            }
        &&& forall|s: usize| #[trigger]
            self.surfaces.contains_key(s) ==> alive(self.cells, self.surfaces[s].token.id())
        &&& forall|p: usize, q: usize|
            #![trigger self.slots[p], self.slots[q]]
            self.slots.contains_key(p) && self.slots.contains_key(q) && self.slots[p].token
                == self.slots[q].token ==> p == q
        &&& forall|s: usize, t: usize|
            #![trigger self.surfaces[s], self.surfaces[t]]
            self.surfaces.contains_key(s) && self.surfaces.contains_key(t)
                && self.surfaces[s].token == self.surfaces[t].token ==> s == t
        &&& forall|p: usize, s: usize|
            #![trigger self.slots[p], self.surfaces[s]]
            self.slots.contains_key(p) && self.surfaces.contains_key(s) ==> self.slots[p].token
                != self.surfaces[s].token
    }

    /// Whether the window at `ptr` is wrapped: its user-data slot holds a
    /// state block.
    pub open spec fn registered(self, ptr: usize) -> bool {
        self.slots.contains_key(ptr)
    }

    /// The handle of the window at `ptr`, if it is wrapped.
    pub open spec fn handle_of(self, ptr: usize) -> Option<Handle> {
        if self.registered(ptr) {
            Some(Handle::made(ptr, self.slots[ptr].token))
        } else {
            None
        }
    }

    /// Whether `handle` can be upgraded: the window at its address is
    /// wrapped, is of the lineage that the handle was taken from, and that
    /// lineage is alive.
    pub open spec fn live(self, handle: Handle) -> bool {
        &&& self.registered(handle.addr())
        &&& self.slots[handle.addr()].token == handle.lineage()
        &&& alive(self.cells, handle.lineage().id())
    }

    /// Whether the display surface at `ptr` is wrapped.
    pub open spec fn surface_registered(self, ptr: usize) -> bool {
        self.surfaces.contains_key(ptr)
    }

    /// The handle of the display surface at `ptr`, if it is wrapped.
    pub open spec fn surface_handle_of(self, ptr: usize) -> Option<Handle> {
        if self.surface_registered(ptr) {
            Some(Handle::made(ptr, self.surfaces[ptr].token))
        } else {
            None
        }
    }

    /// Whether `handle` refers to a display surface that is still valid: the
    /// display surface at its address is wrapped, is of the lineage that the
    /// handle was taken from, and that lineage is alive.
    pub open spec fn surface_live(self, handle: Handle) -> bool {
        &&& self.surface_registered(handle.addr())
        &&& self.surfaces[handle.addr()].token == handle.lineage()
        &&& alive(self.cells, handle.lineage().id())
    }

    /// The handle of the display surface that backs the window at `ptr`:
    /// none while the window has no such surface or that surface is not
    /// wrapped.
    pub open spec fn related(self, ptr: usize) -> Option<Handle> {
        if self.registered(ptr) && self.slots[ptr].native.surface != 0 {
            self.surface_handle_of(self.slots[ptr].native.surface)
        } else {
            None
        }
    }

    /// The bridge after `wrap`: a wrapped address is refused and nothing
    /// changes; a new one gets a fresh cell and a state block with no
    /// handler and every record spliced in.
    pub open spec fn wrapped(self, ptr: usize, native: NativeSurface) -> Model {
        if self.registered(ptr) {
            self
        } else {
            Model {
                cells: self.cells.push(true),
                slots: self.slots.insert(
                    ptr,
                    Slot {
                        token: WeakToken::at(self.cells.len() as int),
                        native,
                        attached: false,
                        records: all_registered(),
                    },
                ),
                ..self
            }
        }
    }

    /// The bridge after `wrap_surface`: a wrapped address is refused and
    /// nothing changes; a new one gets a fresh cell and a state block with
    /// no handler.
    pub open spec fn surface_wrapped(self, ptr: usize) -> Model {
        if self.surface_registered(ptr) {
            self
        } else {
            Model {
                cells: self.cells.push(true),
                surfaces: self.surfaces.insert(
                    ptr,
                    Backing { token: WeakToken::at(self.cells.len() as int), attached: false },
                ),
                ..self
            }
        }
    }

    /// The bridge after the destroy notification of the display surface at
    /// `ptr`: the cell of its lineage is dead and its state block released.
    pub open spec fn surface_destroyed(self, ptr: usize) -> Model {
        if self.surface_registered(ptr) {
            Model {
                cells: killed(self.cells, self.surfaces[ptr].token.id()),
                surfaces: self.surfaces.remove(ptr),
                ..self
            }
        } else {
            self
        }
    }

    /// The bridge after the handler slot of the display surface at `ptr` was
    /// filled (`attached`) or emptied.
    pub open spec fn with_surface_handler(self, ptr: usize, attached: bool) -> Model {
        if self.surface_registered(ptr) {
            Model {
                surfaces: self.surfaces.insert(ptr, Backing { attached, ..self.surfaces[ptr] }),
                ..self
            }
        } else {
            self
        }
    }

    /// The bridge after a handler was handed off to the display surface
    /// that `to` names, if it names one.
    pub open spec fn handed_off(self, to: Option<Handle>) -> Model {
        match to {
            Some(surface) => self.with_surface_handler(surface.addr(), true),
            None => self,
        }
    }

    /// The bridge after the fields of the window at `ptr` were copied anew.
    pub open spec fn synced(self, ptr: usize, native: NativeSurface) -> Model {
        if self.registered(ptr) {
            Model { slots: self.slots.insert(ptr, Slot { native, ..self.slots[ptr] }), ..self }
        } else {
            self
        }
    }

    /// The bridge after the handler slot of the window at `ptr` was filled
    /// (`attached`) or emptied.
    pub open spec fn with_handler(self, ptr: usize, attached: bool) -> Model {
        if self.registered(ptr) {
            Model { slots: self.slots.insert(ptr, Slot { attached, ..self.slots[ptr] }), ..self }
        } else {
            self
        }
    }

    /// The bridge after `deregister` of the record of `kind` of the window
    /// at `ptr`. The destroy record is not given up: it stays spliced in
    /// until the destroy notification itself takes every record out.
    pub open spec fn deregistered(self, ptr: usize, kind: EventKind) -> Model {
        if self.registered(ptr) && kind != EventKind::Destroy {
            Model {
                slots: self.slots.insert(
                    ptr,
                    Slot {
                        records: self.slots[ptr].records.update(kind.position(), false),
                        ..self.slots[ptr]
                    },
                ),
                ..self
            }
        } else {
            self
        }
    }

    /// Whether a notification of `kind` about the window at `ptr` reaches
    /// the bridge: the window is wrapped, its lineage is alive, and the
    /// record of that kind is spliced in.
    pub open spec fn hears(self, ptr: usize, kind: EventKind) -> bool {
        &&& self.registered(ptr)
        &&& alive(self.cells, self.slots[ptr].token.id())
        &&& self.slots[ptr].records[kind.position()]
    }

    /// What the handler is told when `event` fires on the window at `ptr`:
    /// nothing unless the notification is heard and a handler is attached.
    pub open spec fn delivery(self, ptr: usize, event: Event) -> Option<Delivery> {
        if self.hears(ptr, event.kind()) && self.slots[ptr].attached {
            Some(
                Delivery {
                    surface: self.related(ptr),
                    handle: Handle::made(ptr, self.slots[ptr].token),
                    event,
                },
            )
        } else {
            None
        }
    }

    /// The display surface that gets the handler that `on_map` hands back
    /// when `event` fires on the window at `ptr`: the one that the delivery
    /// names, if the event is a map notification that is told and `handed`
    /// says that a handler came back.
    pub open spec fn handed_to(self, ptr: usize, event: Event, handed: bool) -> Option<Handle> {
        if handed && event is MapNotify && self.delivery(ptr, event) is Some {
            self.delivery(ptr, event)->0.surface
        } else {
            None
        }
    }

    /// The bridge as the handler sees it while it is told of a notification
    /// of `kind` on the window at `ptr`: the handler is out of its slot, and
    /// for a destroy notification the cell of the lineage is dead already,
    /// while the state block is still in place.
    pub open spec fn telling(self, ptr: usize, kind: EventKind) -> Model {
        let detached = self.with_handler(ptr, false);
        if kind == EventKind::Destroy && self.hears(ptr, kind) {
            Model { cells: killed(self.cells, self.slots[ptr].token.id()), ..detached }
        } else {
            detached
        }
    }

    /// The bridge after a notification of `kind` fired on the window at
    /// `ptr`, before anything is handed off. Only a destroy notification
    /// that is heard changes anything: it flips the lineage's cell to dead
    /// and releases the state block.
    pub open spec fn fired(self, ptr: usize, kind: EventKind) -> Model {
        if kind == EventKind::Destroy && self.hears(ptr, kind) {
            Model {
                cells: killed(self.cells, self.slots[ptr].token.id()),
                slots: self.slots.remove(ptr),
                ..self
            }
        } else {
            self
        }
    }

    /// The records that a notification of `kind` on the window at `ptr`
    /// takes out of the window's notification lists: on a destroy that is
    /// heard, every record that was still spliced in; otherwise none.
    pub open spec fn unspliced(self, ptr: usize, kind: EventKind) -> Seq<EventKind> {
        if kind == EventKind::Destroy && self.hears(ptr, kind) {
            registered_kinds(self.slots[ptr].records, RECORDS as int)
        } else {
            Seq::empty()
        }
    }

    /// Wrapping keeps the invariant.
    pub proof fn lemma_wrapped_wf(self, ptr: usize, native: NativeSurface)
        requires
            self.wf(),
            self.cells.len() < usize::MAX,
        ensures
            self.wrapped(ptr, native).wf(),
    {
    }

    /// Copying the fields anew keeps the invariant.
    pub proof fn lemma_synced_wf(self, ptr: usize, native: NativeSurface)
        requires
            self.wf(),
        ensures
            self.synced(ptr, native).wf(),
    {
    }

    /// Filling or emptying the handler slot keeps the invariant.
    pub proof fn lemma_with_handler_wf(self, ptr: usize, attached: bool)
        requires
            self.wf(),
        ensures
            self.with_handler(ptr, attached).wf(),
    {
    }

    /// Taking a record out keeps the invariant.
    pub proof fn lemma_deregistered_wf(self, ptr: usize, kind: EventKind)
        requires
            self.wf(),
        ensures
            self.deregistered(ptr, kind).wf(),
    {
    }

    /// Wrapping a display surface keeps the invariant.
    pub proof fn lemma_surface_wrapped_wf(self, ptr: usize)
        requires
            self.wf(),
            self.cells.len() < usize::MAX,
        ensures
            self.surface_wrapped(ptr).wf(),
    {
    }

    /// The destroy notification of a display surface keeps the invariant.
    pub proof fn lemma_surface_destroyed_wf(self, ptr: usize)
        requires
            self.wf(),
        ensures
            self.surface_destroyed(ptr).wf(),
    {
    }

    /// Filling or emptying the handler slot of a display surface keeps the
    /// invariant.
    pub proof fn lemma_with_surface_handler_wf(self, ptr: usize, attached: bool)
        requires
            self.wf(),
        ensures
            self.with_surface_handler(ptr, attached).wf(),
    {
    }

    /// Handing a handler off keeps the invariant.
    pub proof fn lemma_handed_off_wf(self, to: Option<Handle>)
        requires
            self.wf(),
        ensures
            self.handed_off(to).wf(),
    {
    }

    /// Firing a notification keeps the invariant.
    pub proof fn lemma_fired_wf(self, ptr: usize, kind: EventKind)
        requires
            self.wf(),
        ensures
            self.fired(ptr, kind).wf(),
    {
    }
}

} // verus!
