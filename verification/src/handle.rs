//! Handles: weak references to foreign objects.
use vstd::prelude::*;
use vstd::std_specs::cmp::PartialEqSpecImpl;
use crate::liveliness::WeakToken;

verus! {

/// Why a handle could not be used.
#[derive(Clone, Copy, Debug, PartialEq, Eq, Structural)]
pub enum HandleErr {
    /// The object that the handle refers to has been destroyed.
    AlreadyDropped,
}

/// What using a handle gives.
pub type HandleResult<T> = Result<T, HandleErr>;

/// A weak reference to a foreign object: the object's address and the weak
/// token of the lineage it was taken from. It can be copied and kept for any
/// length of time; it keeps nothing alive and has nothing to clean up.
///
/// Two handles are equal when they hold the same address, whatever lineage
/// each was taken from.
///
/// A handle cannot be made up: the only handles there are come from a
/// registry, and each is meant for the registry that it came from.
#[derive(Clone, Copy, Debug)]
pub struct Handle {
    pub(crate) ptr: usize,
    pub(crate) token: WeakToken,
}

impl PartialEq for Handle {
    fn eq(&self, other: &Self) -> (same: bool) {
        self.ptr == other.ptr
    }
}

impl Eq for Handle {

}

impl PartialEqSpecImpl for Handle {
    open spec fn obeys_eq_spec() -> bool {
        true
    }

    open spec fn eq_spec(&self, other: &Self) -> bool {
        self.addr() == other.addr()
    }
}

impl core::hash::Hash for Handle {
    /// Feeds the address, and nothing else, to `state` through
    /// `<usize as Hash>::hash`, so that equal handles hash alike. Nothing is
    /// claimed of the hasher's state afterwards.
    #[verifier::external_body]
    fn hash<S: core::hash::Hasher>(&self, state: &mut S) {
        self.ptr.hash(state)
    }
}

impl Handle {
    /// The address of the object that this handle refers to.
    pub open(crate) spec fn addr(&self) -> usize {
        self.ptr
    }

    /// The lineage that this handle was taken from.
    pub open(crate) spec fn lineage(&self) -> WeakToken {
        self.token
    }

    /// The handle of the object at `ptr` in the lineage `token`.
    pub open(crate) spec fn made(ptr: usize, token: WeakToken) -> Handle {
        Handle { ptr, token }
    }

    /// The address of the object that this handle refers to.
    pub fn as_ptr(&self) -> (ptr: usize)
        ensures
            ptr == self.addr(),
    {
        self.ptr
    }

    /// The weak token of the lineage that this handle was taken from.
    pub fn token(&self) -> (token: WeakToken)
        ensures
            token == self.lineage(),
    {
        self.token
    }
}

} // verus!
