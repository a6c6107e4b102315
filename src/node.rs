//! A tree node whose child links are stored at a chosen integer width.
use vstd::prelude::*;

use smallnum::SmallUnsignedLabel;

use crate::size_cache::SizeCache;
use crate::small_node::{SmallNode, link_fits};
use crate::width::IndexWidth;

verus! {

/// A stored link, seen as a native index.
pub open spec fn widen<W: IndexWidth>(link: Option<W>) -> Option<usize> {
    match link {
        Some(w) => Some(w.value() as usize),
        None => None,
    }
}

/// A stored link is within its width's bound.
pub open spec fn stored_fits<W: IndexWidth>(link: Option<W>) -> bool {
    match link {
        Some(w) => w.value() <= W::max_index(),
        None => true,
    }
}

/// A child link stored at width `W`, always within that width's bound.
pub struct Link<W: IndexWidth> {
    slot: Option<W>,
}

impl<W: IndexWidth> Link<W> {
    #[verifier::type_invariant]
    spec fn fits(&self) -> bool {
        stored_fits(self.slot)
    }

    /// The link as a native index.
    pub closed spec fn view_idx(&self) -> Option<usize> {
        widen(self.slot)
    }

    /// Stores a native index, which must fit the width.
    fn store(opt_idx: Option<usize>) -> (r: Self)
        requires
            link_fits(opt_idx, W::max_index()),
        ensures
            r.view_idx() == opt_idx,
    {
        match opt_idx {
            Some(i) => {
                let w = W::from_usize(i);
                proof {
                    W::lemma_max_index_fits();
                }
                Link { slot: Some(w) }
            },
            None => Link { slot: None },
        }
    }

    /// Reads the link back as a native index.
    fn load(&self) -> (r: Option<usize>)
        ensures
            r == self.view_idx(),
    {
        proof {
            use_type_invariant(self);
        }
        match self.slot {
            Some(w) => Some(w.to_usize()),
            None => None,
        }
    }
}

impl<W: IndexWidth> Clone for Link<W> {
    fn clone(&self) -> (r: Self)
        ensures
            r == *self,
    {
        proof {
            use_type_invariant(self);
        }
        Link { slot: self.slot }
    }
}

/// Key, value, two child links of width `W`, and the cached subtree size
/// that `S` keeps, if any.
#[derive(Clone)]
pub struct Node<K, V, W: IndexWidth, S: SizeCache> {
    key: K,
    val: V,
    left: Link<W>,
    right: Link<W>,
    subtree_size: S,
}

impl<K, V, W: IndexWidth, S: SizeCache> Node<K, V, W, S> {
    /// A node with no children, counting only itself in its subtree.
    pub fn new(key: K, val: V) -> (r: Self)
        where K: Default, V: Default,
        ensures
            r.spec_key() == key,
            r.spec_val() == val,
            r.spec_left_idx() == None::<usize>,
            r.spec_right_idx() == None::<usize>,
            S::enabled() ==> r.spec_subtree_size() == 1,
            r.spec_max_index() == W::max_index(),
            r.spec_label() == W::label(),
    {
        Node { key, val, left: Link { slot: None }, right: Link { slot: None }, subtree_size: S::single() }
    }
}

impl<K: Default, V: Default, W: IndexWidth, S: SizeCache> SmallNode<K, V> for Node<K, V, W, S> {
    closed spec fn spec_key(&self) -> K {
        self.key
    }

    closed spec fn spec_val(&self) -> V {
        self.val
    }

    closed spec fn spec_left_idx(&self) -> Option<usize> {
        self.left.view_idx()
    }

    closed spec fn spec_right_idx(&self) -> Option<usize> {
        self.right.view_idx()
    }

    open spec fn tracks_size() -> bool {
        S::enabled()
    }

    closed spec fn spec_subtree_size(&self) -> usize {
        self.subtree_size.size()
    }

    open spec fn spec_label(&self) -> SmallUnsignedLabel {
        W::label()
    }

    open spec fn spec_max_index(&self) -> nat {
        W::max_index()
    }

    fn key(&self) -> (r: &K) {
        &self.key
    }

    fn set_key(&mut self, key: K) {
        self.key = key;
    }

    fn take_key(&mut self) -> (r: K) {
        let mut key = K::default();
        core::mem::swap(&mut self.key, &mut key);
        key
    }

    fn val(&self) -> (r: &V) {
        &self.val
    }

    fn get_mut(&mut self) -> (r: (&K, &mut V)) {
        (&self.key, &mut self.val)
    }

    fn set_val(&mut self, val: V) {
        self.val = val;
    }

    fn take_val(&mut self) -> (r: V) {
        let mut val = V::default();
        core::mem::swap(&mut self.val, &mut val);
        val
    }

    fn left_idx(&self) -> (r: Option<usize>) {
        self.left.load()
    }

    fn set_left_idx(&mut self, opt_idx: Option<usize>) {
        self.left = Link::store(opt_idx);
    }

    fn right_idx(&self) -> (r: Option<usize>) {
        self.right.load()
    }

    fn set_right_idx(&mut self, opt_idx: Option<usize>) {
        self.right = Link::store(opt_idx);
    }

    fn subtree_size(&self) -> (r: usize) {
        self.subtree_size.get()
    }

    fn set_subtree_size(&mut self, size: usize) {
        self.subtree_size.put(size);
    }
}

} // verus!
