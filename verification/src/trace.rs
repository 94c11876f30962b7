//! Histories: what holds of the bridge over any sequence of operations.
//!
//! The contracts of the operations say what one call does. The laws here are
//! about many calls: they hold for every history, whoever makes the calls
//! and in whatever order.
use vstd::prelude::*;
use crate::event::{Event, EventKind};
use crate::handle::Handle;
use crate::liveliness::{alive, WeakToken};
use crate::handler::Delivery;
use crate::model::Model;
use crate::native::NativeSurface;

verus! {

/// One operation on the bridge, as it appears in a history.
pub enum Op {
    /// `wrap` of the object at `ptr`.
    Wrap { ptr: usize, native: NativeSurface },
    /// `sync` of the object at `ptr`.
    Sync { ptr: usize, native: NativeSurface },
    /// `attach` of a handler to the object at `ptr`.
    Attach { ptr: usize },
    /// `detach` of the handler of the object at `ptr`.
    Detach { ptr: usize },
    /// `deregister` of the record of `kind` of the object at `ptr`.
    Deregister { ptr: usize, kind: EventKind },
    /// `dispatch` of `event` on the object at `ptr`; `handed` says whether
    /// the handler, if it was told of a map notification, handed a handler
    /// back.
    Fire { ptr: usize, event: Event, handed: bool },
    /// `wrap_surface` of the display surface at `ptr`.
    WrapSurface { ptr: usize },
    /// `attach_surface` of a handler to the display surface at `ptr`.
    AttachSurface { ptr: usize },
    /// `detach_surface` of the handler of the display surface at `ptr`.
    DetachSurface { ptr: usize },
    /// `destroy_surface` of the display surface at `ptr`.
    DestroySurface { ptr: usize },
}

impl Op {
    /// Whether this operation is the dispatch of `event` on the object at
    /// `ptr`.
    pub open spec fn fires(self, ptr: usize, event: Event) -> bool {
        match self {
            Op::Fire { ptr: at, event: fired, handed } => at == ptr && fired == event,
            _ => false,
        }
    }
}

impl Model {
    /// The bridge after one operation.
    pub open spec fn step(self, op: Op) -> Model {
        match op {
            Op::Wrap { ptr, native } => self.wrapped(ptr, native),
            Op::Sync { ptr, native } => self.synced(ptr, native),
            Op::Attach { ptr } => self.with_handler(ptr, true),
            Op::Detach { ptr } => self.with_handler(ptr, false),
            Op::Deregister { ptr, kind } => self.deregistered(ptr, kind),
            Op::Fire { ptr, event, handed } => self.fired(ptr, event.kind()).handed_off(
                self.handed_to(ptr, event, handed),
            ),
            Op::WrapSurface { ptr } => self.surface_wrapped(ptr),
            Op::AttachSurface { ptr } => self.with_surface_handler(ptr, true),
            Op::DetachSurface { ptr } => self.with_surface_handler(ptr, false),
            Op::DestroySurface { ptr } => self.surface_destroyed(ptr),
        }
    }

    /// What the handler is told by one operation: only a notification tells
    /// it anything.
    pub open spec fn told(self, op: Op) -> Option<Delivery> {
        match op {
            Op::Fire { ptr, event, handed } => self.delivery(ptr, event),
            _ => None,
        }
    }

    /// The bridge after a history.
    pub open spec fn run(self, ops: Seq<Op>) -> Model
        decreases ops.len(),
    {
        if ops.len() == 0 {
            self
        } else {
            self.run(ops.drop_last()).step(ops.last())
        }
    }

    /// What the handler is told by operation `i` of a history.
    pub open spec fn told_at(self, ops: Seq<Op>, i: int) -> Option<Delivery> {
        self.run(ops.take(i)).told(ops[i])
    }

    /// Whether the table of liveliness cells has room for a history: an
    /// operation adds at most one cell, and a cell's position is a `usize`.
    pub open spec fn has_room(self, ops: Seq<Op>) -> bool {
        self.cells.len() + ops.len() <= usize::MAX
    }

    /// One operation keeps the invariant, adds at most one cell, and leaves
    /// every dead cell dead.
    pub proof fn lemma_step(self, op: Op, lineage: int)
        requires
            self.wf(),
            self.cells.len() < usize::MAX,
        ensures
            self.step(op).wf(),
            self.cells.len() <= self.step(op).cells.len() <= self.cells.len() + 1,
            0 <= lineage < self.cells.len() && !self.cells[lineage] ==> !self.step(op).cells[lineage],
    {
        match op {
            Op::Wrap { ptr, native } => {
                self.lemma_wrapped_wf(ptr, native);
            },
            Op::Sync { ptr, native } => {
                self.lemma_synced_wf(ptr, native);
            },
            Op::Attach { ptr } => {
                self.lemma_with_handler_wf(ptr, true);
            },
            Op::Detach { ptr } => {
                self.lemma_with_handler_wf(ptr, false);
            },
            Op::Deregister { ptr, kind } => {
                self.lemma_deregistered_wf(ptr, kind);
            },
            Op::Fire { ptr, event, handed } => {
                self.lemma_fired_wf(ptr, event.kind());
                self.fired(ptr, event.kind()).lemma_handed_off_wf(self.handed_to(ptr, event, handed));
            },
            Op::WrapSurface { ptr } => {
                self.lemma_surface_wrapped_wf(ptr);
            },
            Op::AttachSurface { ptr } => {
                self.lemma_with_surface_handler_wf(ptr, true);
            },
            Op::DetachSurface { ptr } => {
                self.lemma_with_surface_handler_wf(ptr, false);
            },
            Op::DestroySurface { ptr } => {
                self.lemma_surface_destroyed_wf(ptr);
            },
        }
    }

    /// A history keeps the invariant and leaves every dead cell dead.
    pub proof fn lemma_run(self, ops: Seq<Op>, lineage: int)
        requires
            self.wf(),
            self.has_room(ops),
        ensures
            self.run(ops).wf(),
            self.cells.len() <= self.run(ops).cells.len() <= self.cells.len() + ops.len(),
            0 <= lineage < self.cells.len() && !self.cells[lineage] ==> !self.run(ops).cells[lineage],
        decreases ops.len(),
    {
        if ops.len() > 0 {
            self.lemma_run(ops.drop_last(), lineage);
            self.run(ops.drop_last()).lemma_step(ops.last(), lineage);
        }
    }

    /// Running a history is running its first `i` operations and then the
    /// rest.
    pub proof fn lemma_run_split(self, ops: Seq<Op>, i: int)
        requires
            0 <= i <= ops.len(),
        ensures
            self.run(ops) == self.run(ops.take(i)).run(ops.skip(i)),
        decreases ops.len(),
    {
        if i == ops.len() {
            assert(ops.take(i) =~= ops);
        } else {
            let front = ops.drop_last();
            self.lemma_run_split(front, i);
            assert(front.take(i) =~= ops.take(i));
            assert(ops.skip(i).drop_last() =~= front.skip(i));
        }
    }

    /// Whoever is told anything is told about a lineage that is alive just
    /// before, by the notification that fired, about the object it fired on.
    pub proof fn lemma_told(self, op: Op)
        requires
            self.wf(),
        ensures
            self.told(op) matches Some(delivery) ==> {
                &&& op.fires(delivery.handle.addr(), delivery.event)
                &&& self.live(delivery.handle)
                &&& alive(self.cells, delivery.handle.lineage().id())
                &&& delivery.event is Destroy ==> !alive(
                    self.step(op).cells,
                    delivery.handle.lineage().id(),
                )
            },
    {
    }

    /// Nothing is ever told about a lineage that is dead.
    pub proof fn lemma_dead_is_silent(self, ops: Seq<Op>, lineage: int, i: int)
        requires
            self.wf(),
            self.has_room(ops),
            0 <= lineage < self.cells.len(),
            !self.cells[lineage],
            0 <= i < ops.len(),
        ensures
            self.told_at(ops, i) matches Some(delivery) ==> delivery.handle.lineage().id() != lineage,
    {
        self.lemma_run(ops.take(i), lineage);
        self.run(ops.take(i)).lemma_told(ops[i]);
    }
}

/// A handle of a lineage that is dead can never be upgraded again, whatever
/// is done to the bridge afterwards.
pub proof fn law_dead_lineage_stays_dropped(model: Model, ops: Seq<Op>, handle: Handle)
    requires
        model.wf(),
        model.has_room(ops),
        handle.lineage().id() < model.cells.len(),
        !alive(model.cells, handle.lineage().id()),
    ensures
        !model.run(ops).live(handle),
        !model.run(ops).surface_live(handle),
{
    model.lemma_run(ops, handle.lineage().id());
}

/// Once the destroy notification of a wrapped object has been dispatched,
/// every handle of its lineage fails to upgrade: at once, and after any
/// further history. This holds of every handle of the lineage, however many
/// were made, and whether or not a handler was attached.
pub proof fn law_upgrade_fails_after_destroy(model: Model, ptr: usize, handle: Handle, ops: Seq<Op>)
    requires
        model.wf(),
        model.has_room(ops),
        model.registered(ptr),
        handle.lineage() == model.slots[ptr].token,
    ensures
        model.hears(ptr, EventKind::Destroy),
        !model.fired(ptr, EventKind::Destroy).live(handle),
        !model.fired(ptr, EventKind::Destroy).run(ops).live(handle),
{
    let after = model.fired(ptr, EventKind::Destroy);
    model.lemma_fired_wf(ptr, EventKind::Destroy);
    law_dead_lineage_stays_dropped(after, ops, handle);
    law_dead_lineage_stays_dropped(after, Seq::<Op>::empty(), handle);
}

/// Once the destroy notification of a display surface has been handled, no
/// handle of its lineage refers to a valid display surface again, whatever
/// happens to the bridge afterwards.
pub proof fn law_surface_stays_dropped(model: Model, ptr: usize, handle: Handle, ops: Seq<Op>)
    requires
        model.wf(),
        model.has_room(ops),
        model.surface_registered(ptr),
        handle.lineage() == model.surfaces[ptr].token,
    ensures
        !model.surface_destroyed(ptr).surface_live(handle),
        !model.surface_destroyed(ptr).run(ops).surface_live(handle),
{
    let after = model.surface_destroyed(ptr);
    model.lemma_surface_destroyed_wf(ptr);
    law_dead_lineage_stays_dropped(after, ops, handle);
    law_dead_lineage_stays_dropped(after, Seq::<Op>::empty(), handle);
}

/// At every moment of every history, each wrapped object has exactly one
/// state block, the lineage of that block is alive, and no other object
/// shares it.
pub proof fn law_one_lineage_per_object(model: Model, ops: Seq<Op>, p: usize, q: usize)
    requires
        model.wf(),
        model.has_room(ops),
    ensures
        model.run(ops).wf(),
        model.run(ops).registered(p) ==> alive(
            model.run(ops).cells,
            model.run(ops).slots[p].token.id(),
        ),
        model.run(ops).registered(p) && model.run(ops).registered(q) && model.run(ops).slots[p].token
            == model.run(ops).slots[q].token ==> p == q,
{
    model.lemma_run(ops, 0);
}

/// Wrapping an object that is wrapped already changes nothing: the state
/// block and the lineage that are there are kept, and the wrapper that
/// `from_existing` gives is of that same lineage before and after.
pub proof fn law_wrap_keeps_lineage(model: Model, ptr: usize, native: NativeSurface)
    requires
        model.wf(),
        model.registered(ptr),
    ensures
        model.wrapped(ptr, native) == model,
        model.wrapped(ptr, native).handle_of(ptr) == model.handle_of(ptr),
{
}

/// A first wrap starts a lineage that no handle made before belongs to, and
/// `from_existing` gives that lineage back.
pub proof fn law_wrap_starts_lineage(model: Model, ptr: usize, native: NativeSurface, earlier: Handle)
    requires
        model.wf(),
        model.cells.len() < usize::MAX,
        !model.registered(ptr),
        earlier.lineage().id() < model.cells.len(),
    ensures
        model.wrapped(ptr, native).handle_of(ptr) == Some(
            Handle::made(ptr, WeakToken::at(model.cells.len() as int)),
        ),
        model.wrapped(ptr, native).handle_of(ptr)->0.lineage() != earlier.lineage(),
        model.wrapped(ptr, native).live(earlier) == model.live(earlier),
{
}

/// After the destroy notification of a lineage has been told, nothing more
/// is told about that lineage: the destroy call is the last one.
pub proof fn law_destroy_is_last(model: Model, ops: Seq<Op>, i: int, j: int)
    requires
        model.wf(),
        model.has_room(ops),
        0 <= i < j < ops.len(),
        model.told_at(ops, i) is Some,
        model.told_at(ops, i)->0.event is Destroy,
    ensures
        model.told_at(ops, j) matches Some(later) ==> later.handle.lineage() != model.told_at(
            ops,
            i,
        )->0.handle.lineage(),
{
    let destroyed = model.told_at(ops, i)->0;
    let lineage = destroyed.handle.lineage().id();
    let before = model.run(ops.take(i));
    let after = model.run(ops.take(i + 1));
    model.lemma_run(ops.take(i), 0);
    before.lemma_told(ops[i]);
    assert(ops.take(i + 1).drop_last() =~= ops.take(i));
    before.lemma_step(ops[i], 0);
    let rest = ops.skip(i + 1);
    let k = j - i - 1;
    model.lemma_run_split(ops.take(j), i + 1);
    assert(ops.take(j).take(i + 1) =~= ops.take(i + 1));
    assert(ops.take(j).skip(i + 1) =~= rest.take(k));
    after.lemma_dead_is_silent(rest, lineage, k);
}

/// The unmap call of a window comes strictly before its destroy call: if
/// both are told about one lineage, the unmap is told first.
pub proof fn law_unmap_before_destroy(model: Model, ops: Seq<Op>, unmap: int, destroy: int)
    requires
        model.wf(),
        model.has_room(ops),
        0 <= unmap < ops.len(),
        0 <= destroy < ops.len(),
        model.told_at(ops, unmap) is Some,
        model.told_at(ops, destroy) is Some,
        model.told_at(ops, unmap)->0.event is UnmapNotify,
        model.told_at(ops, destroy)->0.event is Destroy,
        model.told_at(ops, unmap)->0.handle.lineage() == model.told_at(ops, destroy)->0.handle.lineage(),
    ensures
        unmap < destroy,
{
    if destroy < unmap {
        law_destroy_is_last(model, ops, destroy, unmap);
    }
}

/// What is told is what fired: the call made by operation `i` is for the
/// notification that operation `i` dispatched, on the object it fired on.
/// Calls are neither reordered nor merged nor made up; so a window whose
/// unmap notification never fires is never told of an unmap.
pub proof fn law_told_is_fired(model: Model, ops: Seq<Op>, i: int)
    requires
        model.wf(),
        model.has_room(ops),
        0 <= i < ops.len(),
    ensures
        model.told_at(ops, i) matches Some(delivery) ==> ops[i].fires(
            delivery.handle.addr(),
            delivery.event,
        ),
{
    model.lemma_run(ops.take(i), 0);
    model.run(ops.take(i)).lemma_told(ops[i]);
}

/// A window whose unmap notification never fires, as the toolkit never fires
/// it for a window that was never mapped, is never told of an unmap.
pub proof fn law_unmap_needs_its_notification(model: Model, ops: Seq<Op>, ptr: usize, i: int)
    requires
        model.wf(),
        model.has_room(ops),
        0 <= i < ops.len(),
        forall|k: int| 0 <= k < ops.len() ==> !(#[trigger] ops[k]).fires(ptr, Event::UnmapNotify),
    ensures
        model.told_at(ops, i) matches Some(delivery) ==> !(delivery.handle.addr() == ptr
            && delivery.event is UnmapNotify),
{
    law_told_is_fired(model, ops, i);
}

/// Taking a record out a second time changes nothing, and the second call
/// is answered "nothing was removed". The destroy record is never given up:
/// asking for it changes nothing the first time either.
pub proof fn law_deregister_twice(model: Model, ptr: usize, kind: EventKind)
    requires
        model.wf(),
    ensures
        kind != EventKind::Destroy ==> !model.deregistered(ptr, kind).hears(ptr, kind),
        kind == EventKind::Destroy ==> model.deregistered(ptr, kind) == model,
        model.deregistered(ptr, kind).deregistered(ptr, kind) == model.deregistered(ptr, kind),
{
    let once = model.deregistered(ptr, kind);
    let twice = once.deregistered(ptr, kind);
    if model.registered(ptr) && kind != EventKind::Destroy {
        assert(once.slots[ptr].records.update(kind.position(), false) =~= once.slots[ptr].records);
        assert(twice.slots =~= once.slots);
    }
}

/// A destroy notification that is heard while a handler is attached is told
/// to that handler, with the handle of the lineage that ends.
pub proof fn law_destroy_is_told(model: Model, ptr: usize)
    requires
        model.wf(),
        model.registered(ptr),
        model.slots[ptr].attached,
    ensures
        model.delivery(ptr, Event::Destroy) is Some,
        model.delivery(ptr, Event::Destroy)->0.event is Destroy,
        model.delivery(ptr, Event::Destroy)->0.handle == Handle::made(ptr, model.slots[ptr].token),
{
}

/// In every history the destroy call of a lineage is made at most once.
pub proof fn law_destroy_told_once(model: Model, ops: Seq<Op>, i: int, j: int)
    requires
        model.wf(),
        model.has_room(ops),
        0 <= i < ops.len(),
        0 <= j < ops.len(),
        model.told_at(ops, i) is Some,
        model.told_at(ops, j) is Some,
        model.told_at(ops, i)->0.event is Destroy,
        model.told_at(ops, j)->0.event is Destroy,
        model.told_at(ops, i)->0.handle.lineage() == model.told_at(ops, j)->0.handle.lineage(),
    ensures
        i == j,
{
    if i < j {
        law_destroy_is_last(model, ops, i, j);
    }
    if j < i {
        law_destroy_is_last(model, ops, j, i);
    }
}

} // verus!
