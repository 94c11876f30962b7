//! The listener dispatch table of one wrapped object.
//!
//! The table holds the handler slot and one registration record per kind of
//! notification. A record is either spliced into the object's notification
//! list or it is not; taking it out is remembered, so that it is never taken
//! out of a list twice.
use vstd::prelude::*;
use crate::event::{EventKind, RECORDS};
use crate::model::{all_registered, registered_kinds};

verus! {

/// A table in which no record is spliced in.
pub open spec fn none_registered() -> Seq<bool> {
    Seq::new(RECORDS as nat, |i: int| false)
}

/// The dispatch table: the handler, if one is attached, and the records.
pub struct Shell<H> {
    handler: Option<H>,
    records: [bool; RECORDS],
}

impl<H> Shell<H> {
    /// The handler slot.
    pub closed spec fn handler(&self) -> Option<H> {
        self.handler
    }

    /// Whether a handler is attached.
    pub open spec fn attached(&self) -> bool {
        self.handler() is Some
    }

    /// For each kind, by position, whether its record is spliced in.
    pub closed spec fn records(&self) -> Seq<bool> {
        self.records@
    }

    /// A table has one record per kind.
    pub proof fn lemma_records_len(&self)
        ensures
            self.records().len() == RECORDS,
    {
        broadcast use vstd::array::array_len_matches_n;

    }

    /// Builds the table of a newly wrapped object: every record spliced in,
    /// the handler slot as given.
    pub fn new(handler: Option<H>) -> (shell: Self)
        ensures
            shell.handler() == handler,
            shell.records() == all_registered(),
    {
        let records: [bool; RECORDS] = [true; RECORDS];
        Shell { handler, records }
    }

    /// Whether the record of `kind` is spliced in.
    pub fn is_registered(&self, kind: EventKind) -> (registered: bool)
        ensures
            registered == self.records()[kind.position()],
    {
        self.records[kind.index()]
    }

    /// Whether a handler is attached.
    pub fn has_handler(&self) -> (attached: bool)
        ensures
            attached == self.attached(),
    {
        self.handler.is_some()
    }

    /// Fills the handler slot and hands back what it held.
    pub fn attach(&mut self, handler: H) -> (previous: Option<H>)
        ensures
            previous == old(self).handler(),
            final(self).handler() == Some(handler),
            final(self).records() == old(self).records(),
    {
        let previous = self.handler.take();
        self.handler = Some(handler);
        previous
    }

    /// Empties the handler slot and hands back what it held.
    pub fn detach(&mut self) -> (previous: Option<H>)
        ensures
            previous == old(self).handler(),
            final(self).handler() is None,
            final(self).records() == old(self).records(),
    {
        self.handler.take()
    }

    /// Takes the record of `kind` out. The answer says whether the record
    /// was spliced in until now: only then is there anything to remove from
    /// the object's notification list. A second call for the same kind
    /// answers `false` and changes nothing.
    pub fn deregister(&mut self, kind: EventKind) -> (removed: bool)
        ensures
            removed == old(self).records()[kind.position()],
            final(self).records() == old(self).records().update(kind.position(), false),
            final(self).handler() == old(self).handler(),
            !removed ==> final(self).records() == old(self).records(),
    {
        let at: usize = kind.index();
        let removed = self.records[at];
        if removed {
            self.records[at] = false;
        }
        removed
    }

    /// Takes every record out and lists, by position, the kinds whose record
    /// was spliced in until now.
    pub fn deregister_all(&mut self) -> (removed: Vec<EventKind>)
        ensures
            removed@ == registered_kinds(old(self).records(), RECORDS as int),
            final(self).records() == none_registered(),
            final(self).handler() == old(self).handler(),
    {
        let mut removed: Vec<EventKind> = Vec::new();
        let mut i: usize = 0;
        while i < RECORDS
            invariant
                i <= RECORDS,
                removed@ == registered_kinds(old(self).records@, i as int),
                forall|j: int| 0 <= j < i ==> !self.records@[j],
                forall|j: int| i <= j < RECORDS ==> self.records@[j] == old(self).records@[j],
                self.handler == old(self).handler,
            decreases RECORDS - i,
        {
            let spliced = self.records[i];
            let kind = EventKind::from_index(i);
            if spliced {
                match kind {
                    Some(kind) => {
                        removed.push(kind);
                    },
                    None => {},
                }
                self.records[i] = false;
            }
            i += 1;
        }
        removed
    }
}

/// Taking a record out twice is the same as taking it out once.
pub proof fn law_record_stays_out(records: Seq<bool>, kind: EventKind)
    requires
        records.len() == RECORDS,
    ensures
        records.update(kind.position(), false).update(kind.position(), false) == records.update(
            kind.position(),
            false,
        ),
        !records.update(kind.position(), false)[kind.position()],
{
    assert(records.update(kind.position(), false).update(kind.position(), false)
        =~= records.update(kind.position(), false));
}

} // verus!
