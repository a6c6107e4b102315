//! The operations every node representation offers, whatever its link width.
use vstd::prelude::*;

use smallnum::SmallUnsignedLabel;

verus! {

/// `v` is a value that `T::default()` may return.
pub open spec fn is_default<T: Default>(v: T) -> bool {
    call_ensures(T::default, (), v)
}

/// A child link fits a node whose links hold indices up to `max`.
pub open spec fn link_fits(link: Option<usize>, max: nat) -> bool {
    match link {
        Some(i) => i as nat <= max,
        None => true,
    }
}

/// Uniform access to a node's key, value, child links and, where the node
/// keeps one, cached subtree size, with child links seen as native `usize`
/// indices.
pub trait SmallNode<K: Default, V: Default>: Sized {
    /// The key held.
    spec fn spec_key(&self) -> K;

    /// The value held.
    spec fn spec_val(&self) -> V;

    /// The left child link.
    spec fn spec_left_idx(&self) -> Option<usize>;

    /// The right child link.
    spec fn spec_right_idx(&self) -> Option<usize>;

    /// Whether nodes of this type keep a cached subtree size.
    spec fn tracks_size() -> bool;

    /// The cached size of the subtree rooted here.
    spec fn spec_subtree_size(&self) -> usize;

    /// The label of the node's link width.
    spec fn spec_label(&self) -> SmallUnsignedLabel;

    /// The largest child index the node's link width can hold.
    spec fn spec_max_index(&self) -> nat;

    /// Get key.
    fn key(&self) -> (r: &K)
        ensures
            *r == self.spec_key(),
    ;

    /// Set key.
    fn set_key(&mut self, key: K)
        ensures
            final(self).spec_key() == key,
            final(self).spec_val() == old(self).spec_val(),
            final(self).spec_left_idx() == old(self).spec_left_idx(),
            final(self).spec_right_idx() == old(self).spec_right_idx(),
            final(self).spec_subtree_size() == old(self).spec_subtree_size(),
            final(self).spec_max_index() == old(self).spec_max_index(),
            final(self).spec_label() == old(self).spec_label(),
    ;

    /// Take key, replacing current with `K::default()`.
    fn take_key(&mut self) -> (r: K)
        ensures
            r == old(self).spec_key(),
            is_default(final(self).spec_key()),
            final(self).spec_val() == old(self).spec_val(),
            final(self).spec_left_idx() == old(self).spec_left_idx(),
            final(self).spec_right_idx() == old(self).spec_right_idx(),
            final(self).spec_subtree_size() == old(self).spec_subtree_size(),
            final(self).spec_max_index() == old(self).spec_max_index(),
            final(self).spec_label() == old(self).spec_label(),
    ;

    /// Get value.
    fn val(&self) -> (r: &V)
        ensures
            *r == self.spec_val(),
    ;

    /// Get key and mutable value.
    fn get_mut(&mut self) -> (r: (&K, &mut V))
        ensures
            *r.0 == old(self).spec_key(),
            *r.1 == old(self).spec_val(),
            final(self).spec_val() == *final(r.1),
            final(self).spec_key() == old(self).spec_key(),
            final(self).spec_left_idx() == old(self).spec_left_idx(),
            final(self).spec_right_idx() == old(self).spec_right_idx(),
            final(self).spec_subtree_size() == old(self).spec_subtree_size(),
            final(self).spec_max_index() == old(self).spec_max_index(),
            final(self).spec_label() == old(self).spec_label(),
    ;

    /// Set value.
    fn set_val(&mut self, val: V)
        ensures
            final(self).spec_val() == val,
            final(self).spec_key() == old(self).spec_key(),
            final(self).spec_left_idx() == old(self).spec_left_idx(),
            final(self).spec_right_idx() == old(self).spec_right_idx(),
            final(self).spec_subtree_size() == old(self).spec_subtree_size(),
            final(self).spec_max_index() == old(self).spec_max_index(),
            final(self).spec_label() == old(self).spec_label(),
    ;

    /// Take value, replacing current with `V::default()`.
    fn take_val(&mut self) -> (r: V)
        ensures
            r == old(self).spec_val(),
            is_default(final(self).spec_val()),
            final(self).spec_key() == old(self).spec_key(),
            final(self).spec_left_idx() == old(self).spec_left_idx(),
            final(self).spec_right_idx() == old(self).spec_right_idx(),
            final(self).spec_subtree_size() == old(self).spec_subtree_size(),
            final(self).spec_max_index() == old(self).spec_max_index(),
            final(self).spec_label() == old(self).spec_label(),
    ;

    /// Get left index as `usize`.
    fn left_idx(&self) -> (r: Option<usize>)
        ensures
            r == self.spec_left_idx(),
    ;

    /// Set left index; an index must fit the node's link width.
    fn set_left_idx(&mut self, opt_idx: Option<usize>)
        requires
            link_fits(opt_idx, old(self).spec_max_index()),
        ensures
            final(self).spec_left_idx() == opt_idx,
            final(self).spec_key() == old(self).spec_key(),
            final(self).spec_val() == old(self).spec_val(),
            final(self).spec_right_idx() == old(self).spec_right_idx(),
            final(self).spec_subtree_size() == old(self).spec_subtree_size(),
            final(self).spec_max_index() == old(self).spec_max_index(),
            final(self).spec_label() == old(self).spec_label(),
    ;

    /// Get right index as `usize`.
    fn right_idx(&self) -> (r: Option<usize>)
        ensures
            r == self.spec_right_idx(),
    ;

    /// Set right index; an index must fit the node's link width.
    fn set_right_idx(&mut self, opt_idx: Option<usize>)
        requires
            link_fits(opt_idx, old(self).spec_max_index()),
        ensures
            final(self).spec_right_idx() == opt_idx,
            final(self).spec_key() == old(self).spec_key(),
            final(self).spec_val() == old(self).spec_val(),
            final(self).spec_left_idx() == old(self).spec_left_idx(),
            final(self).spec_subtree_size() == old(self).spec_subtree_size(),
            final(self).spec_max_index() == old(self).spec_max_index(),
            final(self).spec_label() == old(self).spec_label(),
    ;

    /// Get subtree size.
    fn subtree_size(&self) -> (r: usize)
        requires
            Self::tracks_size(),
        ensures
            r == self.spec_subtree_size(),
    ;

    /// Set subtree size.
    fn set_subtree_size(&mut self, size: usize)
        requires
            Self::tracks_size(),
        ensures
            final(self).spec_subtree_size() == size,
            final(self).spec_key() == old(self).spec_key(),
            final(self).spec_val() == old(self).spec_val(),
            final(self).spec_left_idx() == old(self).spec_left_idx(),
            final(self).spec_right_idx() == old(self).spec_right_idx(),
            final(self).spec_max_index() == old(self).spec_max_index(),
            final(self).spec_label() == old(self).spec_label(),
    ;
}

} // verus!
