//! One node handle over every supported link width, chosen once at
//! construction from a width label.
use vstd::prelude::*;

use smallnum::SmallUnsignedLabel;

use crate::node::Node;
use crate::size_cache::SizeCache;
use crate::small_node::SmallNode;
use crate::width::{IndexWidth, label_max_index, supported_label};

verus! {

/// A node whose link width is one of a closed set, fixed at construction.
///
/// Each variant holds the concrete node for one width; every operation of
/// [`SmallNode`] is forwarded to whichever variant is present.
#[allow(non_camel_case_types)]
#[derive(Clone)]
pub enum SmallNodeDispatch<K: Default, V: Default, S: SizeCache> {
    /// Links of native width.
    NodeUSIZE(Node<K, V, usize, S>),
    /// Links of 8 bits.
    NodeU8(Node<K, V, u8, S>),
    /// Links of 16 bits.
    NodeU16(Node<K, V, u16, S>),
    /// Links of 32 bits.
    NodeU32(Node<K, V, u32, S>),
    /// Links of 64 bits.
    NodeU64(Node<K, V, u64, S>),
}

impl<K: Default, V: Default, S: SizeCache> SmallNodeDispatch<K, V, S> {
    /// A childless node holding `key` and `val`, with links of the width
    /// that `uint` names.
    pub fn new(key: K, val: V, uint: SmallUnsignedLabel) -> (r: Self)
        requires
            supported_label(uint),
        ensures
            r.spec_label() == uint,
            r.spec_max_index() == label_max_index(uint),
            r.spec_key() == key,
            r.spec_val() == val,
            r.spec_left_idx() == None::<usize>,
            r.spec_right_idx() == None::<usize>,
            S::enabled() ==> r.spec_subtree_size() == 1,
    {
        match uint {
            SmallUnsignedLabel::USIZE => SmallNodeDispatch::NodeUSIZE(Node::<K, V, usize, S>::new(key, val)),
            SmallUnsignedLabel::U8 => SmallNodeDispatch::NodeU8(Node::<K, V, u8, S>::new(key, val)),
            SmallUnsignedLabel::U16 => SmallNodeDispatch::NodeU16(Node::<K, V, u16, S>::new(key, val)),
            SmallUnsignedLabel::U32 => SmallNodeDispatch::NodeU32(Node::<K, V, u32, S>::new(key, val)),
            SmallUnsignedLabel::U64 => SmallNodeDispatch::NodeU64(Node::<K, V, u64, S>::new(key, val)),
            SmallUnsignedLabel::U128 => unreached(),
        }
    }
}

impl<K: Default, V: Default, S: SizeCache> SmallNode<K, V> for SmallNodeDispatch<K, V, S> {
    open spec fn spec_key(&self) -> K {
        match self {
            SmallNodeDispatch::NodeUSIZE(node) => node.spec_key(),
            SmallNodeDispatch::NodeU8(node) => node.spec_key(),
            SmallNodeDispatch::NodeU16(node) => node.spec_key(),
            SmallNodeDispatch::NodeU32(node) => node.spec_key(),
            SmallNodeDispatch::NodeU64(node) => node.spec_key(),
        }
    }

    open spec fn spec_val(&self) -> V {
        match self {
            SmallNodeDispatch::NodeUSIZE(node) => node.spec_val(),
            SmallNodeDispatch::NodeU8(node) => node.spec_val(),
            SmallNodeDispatch::NodeU16(node) => node.spec_val(),
            SmallNodeDispatch::NodeU32(node) => node.spec_val(),
            SmallNodeDispatch::NodeU64(node) => node.spec_val(),
        }
    }

    open spec fn spec_left_idx(&self) -> Option<usize> {
        match self {
            SmallNodeDispatch::NodeUSIZE(node) => node.spec_left_idx(),
            SmallNodeDispatch::NodeU8(node) => node.spec_left_idx(),
            SmallNodeDispatch::NodeU16(node) => node.spec_left_idx(),
            SmallNodeDispatch::NodeU32(node) => node.spec_left_idx(),
            SmallNodeDispatch::NodeU64(node) => node.spec_left_idx(),
        }
    }

    open spec fn spec_right_idx(&self) -> Option<usize> {
        match self {
            SmallNodeDispatch::NodeUSIZE(node) => node.spec_right_idx(),
            SmallNodeDispatch::NodeU8(node) => node.spec_right_idx(),
            SmallNodeDispatch::NodeU16(node) => node.spec_right_idx(),
            SmallNodeDispatch::NodeU32(node) => node.spec_right_idx(),
            SmallNodeDispatch::NodeU64(node) => node.spec_right_idx(),
        }
    }

    open spec fn tracks_size() -> bool {
        S::enabled()
    }

    open spec fn spec_subtree_size(&self) -> usize {
        match self {
            SmallNodeDispatch::NodeUSIZE(node) => node.spec_subtree_size(),
            SmallNodeDispatch::NodeU8(node) => node.spec_subtree_size(),
            SmallNodeDispatch::NodeU16(node) => node.spec_subtree_size(),
            SmallNodeDispatch::NodeU32(node) => node.spec_subtree_size(),
            SmallNodeDispatch::NodeU64(node) => node.spec_subtree_size(),
        }
    }

    open spec fn spec_label(&self) -> SmallUnsignedLabel {
        match self {
            SmallNodeDispatch::NodeUSIZE(node) => node.spec_label(),
            SmallNodeDispatch::NodeU8(node) => node.spec_label(),
            SmallNodeDispatch::NodeU16(node) => node.spec_label(),
            SmallNodeDispatch::NodeU32(node) => node.spec_label(),
            SmallNodeDispatch::NodeU64(node) => node.spec_label(),
        }
    }

    open spec fn spec_max_index(&self) -> nat {
        match self {
            SmallNodeDispatch::NodeUSIZE(node) => node.spec_max_index(),
            SmallNodeDispatch::NodeU8(node) => node.spec_max_index(),
            SmallNodeDispatch::NodeU16(node) => node.spec_max_index(),
            SmallNodeDispatch::NodeU32(node) => node.spec_max_index(),
            SmallNodeDispatch::NodeU64(node) => node.spec_max_index(),
        }
    }

    fn key(&self) -> (r: &K) {
        match self {
            SmallNodeDispatch::NodeUSIZE(node) => node.key(),
            SmallNodeDispatch::NodeU8(node) => node.key(),
            SmallNodeDispatch::NodeU16(node) => node.key(),
            SmallNodeDispatch::NodeU32(node) => node.key(),
            SmallNodeDispatch::NodeU64(node) => node.key(),
        }
    }

    fn set_key(&mut self, key: K) {
        match self {
            SmallNodeDispatch::NodeUSIZE(node) => node.set_key(key),
            SmallNodeDispatch::NodeU8(node) => node.set_key(key),
            SmallNodeDispatch::NodeU16(node) => node.set_key(key),
            SmallNodeDispatch::NodeU32(node) => node.set_key(key),
            SmallNodeDispatch::NodeU64(node) => node.set_key(key),
        }
    }

    fn take_key(&mut self) -> (r: K) {
        match self {
            SmallNodeDispatch::NodeUSIZE(node) => node.take_key(),
            SmallNodeDispatch::NodeU8(node) => node.take_key(),
            SmallNodeDispatch::NodeU16(node) => node.take_key(),
            SmallNodeDispatch::NodeU32(node) => node.take_key(),
            SmallNodeDispatch::NodeU64(node) => node.take_key(),
        }
    }

    fn val(&self) -> (r: &V) {
        match self {
            SmallNodeDispatch::NodeUSIZE(node) => node.val(),
            SmallNodeDispatch::NodeU8(node) => node.val(),
            SmallNodeDispatch::NodeU16(node) => node.val(),
            SmallNodeDispatch::NodeU32(node) => node.val(),
            SmallNodeDispatch::NodeU64(node) => node.val(),
        }
    }

    fn get_mut(&mut self) -> (r: (&K, &mut V)) {
        match self {
            SmallNodeDispatch::NodeUSIZE(node) => node.get_mut(),
            SmallNodeDispatch::NodeU8(node) => node.get_mut(),
            SmallNodeDispatch::NodeU16(node) => node.get_mut(),
            SmallNodeDispatch::NodeU32(node) => node.get_mut(),
            SmallNodeDispatch::NodeU64(node) => node.get_mut(),
        }
    }

    fn set_val(&mut self, val: V) {
        match self {
            SmallNodeDispatch::NodeUSIZE(node) => node.set_val(val),
            SmallNodeDispatch::NodeU8(node) => node.set_val(val),
            SmallNodeDispatch::NodeU16(node) => node.set_val(val),
            SmallNodeDispatch::NodeU32(node) => node.set_val(val),
            SmallNodeDispatch::NodeU64(node) => node.set_val(val),
        }
    }

    fn take_val(&mut self) -> (r: V) {
        match self {
            SmallNodeDispatch::NodeUSIZE(node) => node.take_val(),
            SmallNodeDispatch::NodeU8(node) => node.take_val(),
            SmallNodeDispatch::NodeU16(node) => node.take_val(),
            SmallNodeDispatch::NodeU32(node) => node.take_val(),
            SmallNodeDispatch::NodeU64(node) => node.take_val(),
        }
    }

    fn left_idx(&self) -> (r: Option<usize>) {
        match self {
            SmallNodeDispatch::NodeUSIZE(node) => node.left_idx(),
            SmallNodeDispatch::NodeU8(node) => node.left_idx(),
            SmallNodeDispatch::NodeU16(node) => node.left_idx(),
            SmallNodeDispatch::NodeU32(node) => node.left_idx(),
            SmallNodeDispatch::NodeU64(node) => node.left_idx(),
        }
    }

    fn set_left_idx(&mut self, opt_idx: Option<usize>) {
        match self {
            SmallNodeDispatch::NodeUSIZE(node) => node.set_left_idx(opt_idx),
            SmallNodeDispatch::NodeU8(node) => node.set_left_idx(opt_idx),
            SmallNodeDispatch::NodeU16(node) => node.set_left_idx(opt_idx),
            SmallNodeDispatch::NodeU32(node) => node.set_left_idx(opt_idx),
            SmallNodeDispatch::NodeU64(node) => node.set_left_idx(opt_idx),
        }
    }

    fn right_idx(&self) -> (r: Option<usize>) {
        match self {
            SmallNodeDispatch::NodeUSIZE(node) => node.right_idx(),
            SmallNodeDispatch::NodeU8(node) => node.right_idx(),
            SmallNodeDispatch::NodeU16(node) => node.right_idx(),
            SmallNodeDispatch::NodeU32(node) => node.right_idx(),
            SmallNodeDispatch::NodeU64(node) => node.right_idx(),
        }
    }

    fn set_right_idx(&mut self, opt_idx: Option<usize>) {
        match self {
            SmallNodeDispatch::NodeUSIZE(node) => node.set_right_idx(opt_idx),
            SmallNodeDispatch::NodeU8(node) => node.set_right_idx(opt_idx),
            SmallNodeDispatch::NodeU16(node) => node.set_right_idx(opt_idx),
            SmallNodeDispatch::NodeU32(node) => node.set_right_idx(opt_idx),
            SmallNodeDispatch::NodeU64(node) => node.set_right_idx(opt_idx),
        }
    }

    fn subtree_size(&self) -> (r: usize) {
        match self {
            SmallNodeDispatch::NodeUSIZE(node) => node.subtree_size(),
            SmallNodeDispatch::NodeU8(node) => node.subtree_size(),
            SmallNodeDispatch::NodeU16(node) => node.subtree_size(),
            SmallNodeDispatch::NodeU32(node) => node.subtree_size(),
            SmallNodeDispatch::NodeU64(node) => node.subtree_size(),
        }
    }

    fn set_subtree_size(&mut self, size: usize) {
        match self {
            SmallNodeDispatch::NodeUSIZE(node) => node.set_subtree_size(size),
            SmallNodeDispatch::NodeU8(node) => node.set_subtree_size(size),
            SmallNodeDispatch::NodeU16(node) => node.set_subtree_size(size),
            SmallNodeDispatch::NodeU32(node) => node.set_subtree_size(size),
            SmallNodeDispatch::NodeU64(node) => node.set_subtree_size(size),
        }
    }
}

/// Two nodes with the same width label are the same variant and admit the
/// same child indices: the label alone decides the concrete width.
pub proof fn lemma_label_fixes_variant<K: Default, V: Default, S: SizeCache>(
    a: SmallNodeDispatch<K, V, S>,
    b: SmallNodeDispatch<K, V, S>,
)
    requires
        a.spec_label() == b.spec_label(),
    ensures
        (a is NodeUSIZE) == (b is NodeUSIZE),
        (a is NodeU8) == (b is NodeU8),
        (a is NodeU16) == (b is NodeU16),
        (a is NodeU32) == (b is NodeU32),
        (a is NodeU64) == (b is NodeU64),
        a.spec_max_index() == b.spec_max_index(),
        a.spec_max_index() == label_max_index(a.spec_label()),
{
    <usize as IndexWidth>::lemma_max_index_fits();
    <u8 as IndexWidth>::lemma_max_index_fits();
    <u16 as IndexWidth>::lemma_max_index_fits();
    <u32 as IndexWidth>::lemma_max_index_fits();
    <u64 as IndexWidth>::lemma_max_index_fits();
}

} // verus!
