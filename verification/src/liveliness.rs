//! Liveliness tokens.
//!
//! Every foreign object that gets wrapped is given one boolean cell that says
//! whether the object is still valid. The cells live in a table; a token is
//! the position of a cell. Only the holder of the strong form of a token can
//! flip its cell, and a cell that was flipped never comes back.
use vstd::prelude::*;

verus! {

/// Whether cell `id` exists in `cells` and still says "alive".
pub open spec fn alive(cells: Seq<bool>, id: int) -> bool {
    0 <= id < cells.len() && cells[id]
}

/// The cells after cell `id` was flipped to "dead". A position outside the
/// table leaves the table as it is.
pub open spec fn killed(cells: Seq<bool>, id: int) -> Seq<bool> {
    if 0 <= id < cells.len() {
        cells.update(id, false)
    } else {
        cells
    }
}

/// The owning form of a token. It is neither `Clone` nor `Copy`: whoever
/// holds it holds the one right to end the lineage.
#[derive(Debug)]
pub struct StrongToken {
    id: usize,
}

/// The non-owning form of a token: names a cell, by its position in the
/// table, without keeping it alive.
#[derive(Clone, Copy, Debug, PartialEq, Eq, Structural, Hash)]
pub struct WeakToken {
    pub(crate) id: usize,
}

/// The table of liveliness cells. Its view is the sequence of cells, oldest
/// first; `true` means alive.
pub struct Liveliness {
    cells: Vec<bool>,
}

impl WeakToken {
    /// The position of the cell that this token names.
    pub open(crate) spec fn id(&self) -> int {
        self.id as int
    }

    /// The token that names the cell at position `id`.
    pub open(crate) spec fn at(id: int) -> WeakToken {
        WeakToken { id: id as usize }
    }

    /// The position of the cell that this token names.
    pub fn position(&self) -> (position: usize)
        ensures
            position == self.id(),
    {
        self.id
    }
}

impl StrongToken {
    /// The weak form of this token.
    pub closed spec fn weak(&self) -> WeakToken {
        WeakToken { id: self.id }
    }

    /// Makes a weak token for the same cell. Any number can be made.
    pub fn downgrade(&self) -> (weak: WeakToken)
        ensures
            weak == self.weak(),
    {
        WeakToken { id: self.id }
    }
}

impl View for Liveliness {
    type V = Seq<bool>;

    closed spec fn view(&self) -> Seq<bool> {
        self.cells@
    }
}

impl Liveliness {
    /// An empty table.
    pub fn new() -> (table: Self)
        ensures
            table@ == Seq::<bool>::empty(),
    {
        Liveliness { cells: Vec::new() }
    }

    /// Adds a cell that says "alive" and returns the strong token for it.
    /// Cells are never reused, so the token differs from every earlier one.
    pub fn new_token(&mut self) -> (token: StrongToken)
        ensures
            final(self)@ == old(self)@.push(true),
            token.weak().id() == old(self)@.len(),
            final(self)@.len() <= usize::MAX,
    {
        let id: usize = self.cells.len();
        self.cells.push(true);
        assert(self.cells@.len() == self.cells.len());
        StrongToken { id }
    }

    /// Whether the cell that `token` names is still alive.
    pub fn is_alive(&self, token: WeakToken) -> (live: bool)
        ensures
            live == alive(self@, token.id()),
    {
        token.id < self.cells.len() && self.cells[token.id]
    }

    /// Flips the cell of `token` to "dead", for good. Every other cell keeps
    /// its value, and a cell that is dead stays so.
    pub fn kill(&mut self, token: &StrongToken)
        ensures
            final(self)@ == killed(old(self)@, token.weak().id()),
    {
        if token.id < self.cells.len() {
            self.cells.set(token.id, false);
        }
    }
}

/// Killing is for good and harms no other lineage: the killed cell is dead,
/// a dead cell stays dead, and every other cell keeps its value.
pub proof fn law_kill_is_monotone(cells: Seq<bool>, id: int, other: int)
    ensures
        !alive(killed(cells, id), id),
        !alive(cells, other) ==> !alive(killed(cells, id), other),
        other != id ==> alive(killed(cells, id), other) == alive(cells, other),
        killed(cells, id).len() == cells.len(),
{
}

/// A new token is alive and revives nothing: every cell that was there keeps
/// its value.
pub proof fn law_new_token_is_fresh(cells: Seq<bool>, other: int)
    ensures
        alive(cells.push(true), cells.len() as int),
        other != cells.len() ==> alive(cells.push(true), other) == alive(cells, other),
{
}

} // verus!
