//! Unsigned integer types that can hold an arena slot index.
use vstd::prelude::*;

use smallnum::SmallUnsignedLabel;

verus! {

#[verifier::external_type_specification]
pub struct ExSmallUnsignedLabel(SmallUnsignedLabel);

/// Labels for which a link width exists: all but the 128-bit one, which no
/// native index can need.
pub open spec fn supported_label(label: SmallUnsignedLabel) -> bool {
    label != SmallUnsignedLabel::U128
}

/// The largest index a link of the width that `label` names can hold.
pub open spec fn label_max_index(label: SmallUnsignedLabel) -> nat {
    match label {
        SmallUnsignedLabel::USIZE => usize::MAX as nat,
        SmallUnsignedLabel::U8 => u8::MAX as nat,
        SmallUnsignedLabel::U16 => u16::MAX as nat,
        SmallUnsignedLabel::U32 => u32::MAX as nat,
        SmallUnsignedLabel::U64 => usize::MAX as nat,
        SmallUnsignedLabel::U128 => 0,
    }
}

/// An unsigned integer type used to store a child link.
///
/// A value within [`IndexWidth::max_index`] converts losslessly to `usize`,
/// and every `usize` up to that bound converts back.
pub trait IndexWidth: Sized + Copy {
    /// The index this stored value stands for.
    spec fn value(&self) -> nat;

    /// The label that names this width.
    spec fn label() -> SmallUnsignedLabel;

    /// The largest index this width can hold.
    spec fn max_index() -> nat;

    /// The bound fits in `usize`, and is the one that the width's label names.
    proof fn lemma_max_index_fits()
        ensures
            Self::max_index() <= usize::MAX,
            Self::max_index() == label_max_index(Self::label()),
            supported_label(Self::label()),
    ;

    /// Widens the stored value to the native index type.
    fn to_usize(&self) -> (r: usize)
        requires
            self.value() <= Self::max_index(),
        ensures
            r as nat == self.value(),
    ;

    /// Narrows a native index to this width; the index must fit.
    fn from_usize(idx: usize) -> (r: Self)
        requires
            idx as nat <= Self::max_index(),
        ensures
            r.value() == idx as nat,
    ;
}

impl IndexWidth for usize {
    open spec fn value(&self) -> nat {
        *self as nat
    }

    open spec fn label() -> SmallUnsignedLabel {
        SmallUnsignedLabel::USIZE
    }

    open spec fn max_index() -> nat {
        usize::MAX as nat
    }

    proof fn lemma_max_index_fits() {
    }

    fn to_usize(&self) -> (r: usize) {
        *self
    }

    fn from_usize(idx: usize) -> (r: usize) {
        idx
    }
}

impl IndexWidth for u8 {
    open spec fn value(&self) -> nat {
        *self as nat
    }

    open spec fn label() -> SmallUnsignedLabel {
        SmallUnsignedLabel::U8
    }

    open spec fn max_index() -> nat {
        u8::MAX as nat
    }

    proof fn lemma_max_index_fits() {
    }

    fn to_usize(&self) -> (r: usize) {
        *self as usize
    }

    fn from_usize(idx: usize) -> (r: u8) {
        idx as u8
    }
}

impl IndexWidth for u16 {
    open spec fn value(&self) -> nat {
        *self as nat
    }

    open spec fn label() -> SmallUnsignedLabel {
        SmallUnsignedLabel::U16
    }

    open spec fn max_index() -> nat {
        u16::MAX as nat
    }

    proof fn lemma_max_index_fits() {
    }

    fn to_usize(&self) -> (r: usize) {
        *self as usize
    }

    fn from_usize(idx: usize) -> (r: u16) {
        idx as u16
    }
}

impl IndexWidth for u32 {
    open spec fn value(&self) -> nat {
        *self as nat
    }

    open spec fn label() -> SmallUnsignedLabel {
        SmallUnsignedLabel::U32
    }

    open spec fn max_index() -> nat {
        u32::MAX as nat
    }

    proof fn lemma_max_index_fits() {
    }

    fn to_usize(&self) -> (r: usize) {
        *self as usize
    }

    fn from_usize(idx: usize) -> (r: u32) {
        idx as u32
    }
}

impl IndexWidth for u64 {
    open spec fn value(&self) -> nat {
        *self as nat
    }

    open spec fn label() -> SmallUnsignedLabel {
        SmallUnsignedLabel::U64
    }

    open spec fn max_index() -> nat {
        usize::MAX as nat
    }

    proof fn lemma_max_index_fits() {
    }

    fn to_usize(&self) -> (r: usize) {
        *self as usize
    }

    fn from_usize(idx: usize) -> (r: u64) {
        idx as u64
    }
}

} // verus!
