//! Storage for a node's cached subtree size, present or left out as a whole.
use vstd::prelude::*;

verus! {

/// Where a node keeps its cached subtree size: `usize` keeps it, `()` keeps
/// nothing and takes no space.
pub trait SizeCache: Sized {
    /// Whether this storage keeps a size at all.
    spec fn enabled() -> bool;

    /// The size kept.
    spec fn size(&self) -> usize;

    /// The storage of a fresh node, whose subtree is the node alone.
    fn single() -> (r: Self)
        ensures
            Self::enabled() ==> r.size() == 1,
    ;

    /// Reads the size kept.
    fn get(&self) -> (r: usize)
        requires
            Self::enabled(),
        ensures
            r == self.size(),
    ;

    /// Replaces the size kept.
    fn put(&mut self, size: usize)
        requires
            Self::enabled(),
        ensures
            final(self).size() == size,
    ;
}

impl SizeCache for usize {
    open spec fn enabled() -> bool {
        true
    }

    open spec fn size(&self) -> usize {
        *self
    }

    fn single() -> (r: usize) {
        1
    }

    fn get(&self) -> (r: usize) {
        *self
    }

    fn put(&mut self, size: usize) {
        *self = size;
    }
}

impl SizeCache for () {
    open spec fn enabled() -> bool {
        false
    }

    open spec fn size(&self) -> usize {
        0
    }

    fn single() -> (r: ()) {
    }

    fn get(&self) -> (r: usize) {
        0
    }

    fn put(&mut self, size: usize) {
    }
}

} // verus!
