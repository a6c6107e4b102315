use core::mem::{size_of, size_of_val};

use small_node::{IndexWidth, Node, SmallNode, SmallNodeDispatch};
use smallnum::SmallUnsignedLabel;

/// Size of the concrete node that the handle holds.
fn held_node_size<K: Default, V: Default>(node: &SmallNodeDispatch<K, V, ()>) -> usize {
    match node {
        SmallNodeDispatch::NodeUSIZE(n) => size_of_val(n),
        SmallNodeDispatch::NodeU8(n) => size_of_val(n),
        SmallNodeDispatch::NodeU16(n) => size_of_val(n),
        SmallNodeDispatch::NodeU32(n) => size_of_val(n),
        SmallNodeDispatch::NodeU64(n) => size_of_val(n),
    }
}

fn labels() -> Vec<SmallUnsignedLabel> {
    vec![
        SmallUnsignedLabel::USIZE,
        SmallUnsignedLabel::U8,
        SmallUnsignedLabel::U16,
        SmallUnsignedLabel::U32,
        SmallUnsignedLabel::U64,
    ]
}

#[test]
fn test_node_dispatch_packing() {
    let label_100 = SmallUnsignedLabel::new(100);
    let label_1_000 = SmallUnsignedLabel::new(1_000);

    assert_eq!(label_100, SmallUnsignedLabel::U8);
    assert_eq!(label_1_000, SmallUnsignedLabel::U16);

    let small_node = SmallNodeDispatch::<i32, i32, ()>::new(0, 0, label_100);
    let big_node = SmallNodeDispatch::<i32, i32, ()>::new(0, 0, label_1_000);

    let small_node_size = held_node_size(&small_node);
    let big_node_size = held_node_size(&big_node);

    println!("\nSmallNodeDispatch sizes:\n");
    println!("Small: {} bytes", small_node_size);
    println!("Big: {} bytes", big_node_size);

    assert!(small_node_size < big_node_size);
}

#[test]
fn narrower_width_gives_smaller_node() {
    let s8 = size_of::<Node<i32, i32, u8, ()>>();
    let s16 = size_of::<Node<i32, i32, u16, ()>>();
    let s32 = size_of::<Node<i32, i32, u32, ()>>();
    let s64 = size_of::<Node<i32, i32, u64, ()>>();
    assert!(s8 < s16);
    assert!(s16 < s32);
    assert!(s32 < s64);
    assert_eq!(s8, 12);
    assert_eq!(s16, 16);
}

#[test]
fn key_and_value_round_trip() {
    for label in labels() {
        let mut node = SmallNodeDispatch::<String, Vec<u8>, ()>::new("a".to_string(), vec![1], label);
        assert_eq!(node.key(), "a");
        assert_eq!(node.val(), &vec![1]);
        node.set_key("bee".to_string());
        assert_eq!(node.key(), "bee");
        assert_eq!(node.val(), &vec![1]);
        node.set_val(vec![7, 8]);
        assert_eq!(node.val(), &vec![7, 8]);
        assert_eq!(node.key(), "bee");
    }
}

#[test]
fn take_resets_to_default() {
    for label in labels() {
        let mut node = SmallNodeDispatch::<String, u64, ()>::new("k".to_string(), 42, label);
        assert_eq!(node.take_key(), "k");
        assert_eq!(node.key(), "");
        assert_eq!(node.take_val(), 42);
        assert_eq!(*node.val(), 0);
        assert_eq!(node.take_key(), "");
    }
}

#[test]
fn get_mut_changes_value_only() {
    let mut node = SmallNodeDispatch::<u32, u32, ()>::new(5, 6, SmallUnsignedLabel::U16);
    {
        let (k, v) = node.get_mut();
        assert_eq!(*k, 5);
        assert_eq!(*v, 6);
        *v = 60;
    }
    assert_eq!(*node.key(), 5);
    assert_eq!(*node.val(), 60);
}

#[test]
fn child_links_round_trip_and_stay_independent() {
    let mut node = SmallNodeDispatch::<u8, u8, ()>::new(0, 0, SmallUnsignedLabel::U8);
    assert_eq!(node.left_idx(), None);
    assert_eq!(node.right_idx(), None);
    node.set_left_idx(Some(255));
    assert_eq!(node.left_idx(), Some(255));
    assert_eq!(node.right_idx(), None);
    node.set_right_idx(Some(0));
    assert_eq!(node.right_idx(), Some(0));
    assert_eq!(node.left_idx(), Some(255));
    node.set_left_idx(None);
    assert_eq!(node.left_idx(), None);
    assert_eq!(node.right_idx(), Some(0));
}

#[test]
fn child_links_at_each_width_bound() {
    let cases: Vec<(SmallUnsignedLabel, usize)> = vec![
        (SmallUnsignedLabel::U8, u8::MAX as usize),
        (SmallUnsignedLabel::U16, u16::MAX as usize),
        (SmallUnsignedLabel::U32, u32::MAX as usize),
        (SmallUnsignedLabel::U64, usize::MAX),
        (SmallUnsignedLabel::USIZE, usize::MAX),
    ];
    for (label, max) in cases {
        let mut node = SmallNodeDispatch::<i32, i32, ()>::new(1, 2, label);
        node.set_left_idx(Some(max));
        node.set_right_idx(Some(max - 1));
        assert_eq!(node.left_idx(), Some(max));
        assert_eq!(node.right_idx(), Some(max - 1));
        assert_eq!(*node.key(), 1);
        assert_eq!(*node.val(), 2);
    }
}

#[test]
fn same_label_same_variant() {
    for label in labels() {
        let a = SmallNodeDispatch::<i32, i32, ()>::new(1, 1, label);
        let b = SmallNodeDispatch::<i32, i32, ()>::new(2, 3, label);
        assert_eq!(core::mem::discriminant(&a), core::mem::discriminant(&b));
    }
    let n = SmallNodeDispatch::<i32, i32, ()>::new(0, 0, SmallUnsignedLabel::U8);
    assert!(matches!(n, SmallNodeDispatch::NodeU8(_)));
    let n = SmallNodeDispatch::<i32, i32, ()>::new(0, 0, SmallUnsignedLabel::U16);
    assert!(matches!(n, SmallNodeDispatch::NodeU16(_)));
    let n = SmallNodeDispatch::<i32, i32, ()>::new(0, 0, SmallUnsignedLabel::U32);
    assert!(matches!(n, SmallNodeDispatch::NodeU32(_)));
    let n = SmallNodeDispatch::<i32, i32, ()>::new(0, 0, SmallUnsignedLabel::U64);
    assert!(matches!(n, SmallNodeDispatch::NodeU64(_)));
    let n = SmallNodeDispatch::<i32, i32, ()>::new(0, 0, SmallUnsignedLabel::USIZE);
    assert!(matches!(n, SmallNodeDispatch::NodeUSIZE(_)));
}

#[test]
fn subtree_size_round_trip() {
    for label in labels() {
        let mut node = SmallNodeDispatch::<i32, i32, usize>::new(3, 4, label);
        assert_eq!(node.subtree_size(), 1);
        node.set_left_idx(Some(9));
        node.set_subtree_size(usize::MAX);
        assert_eq!(node.subtree_size(), usize::MAX);
        node.set_subtree_size(0);
        assert_eq!(node.subtree_size(), 0);
        assert_eq!(node.left_idx(), Some(9));
        assert_eq!(node.right_idx(), None);
        assert_eq!(*node.key(), 3);
        assert_eq!(*node.val(), 4);
        node.set_key(10);
        assert_eq!(node.subtree_size(), 0);
    }
}

#[test]
fn size_tracking_costs_space_only_when_enabled() {
    assert!(size_of::<Node<i32, i32, u8, ()>>() < size_of::<Node<i32, i32, u8, usize>>());
}

#[test]
fn clone_keeps_contents() {
    let mut node = SmallNodeDispatch::<String, i32, usize>::new("x".to_string(), 7, SmallUnsignedLabel::U32);
    node.set_right_idx(Some(70_000));
    node.set_subtree_size(3);
    let copy = node.clone();
    assert_eq!(copy.key(), "x");
    assert_eq!(*copy.val(), 7);
    assert_eq!(copy.right_idx(), Some(70_000));
    assert_eq!(copy.left_idx(), None);
    assert_eq!(copy.subtree_size(), 3);
}

#[test]
fn width_conversions_are_exact() {
    assert_eq!(<u8 as IndexWidth>::from_usize(200), 200u8);
    assert_eq!(<u8 as IndexWidth>::from_usize(255).to_usize(), 255);
    assert_eq!(<u16 as IndexWidth>::from_usize(1000), 1000u16);
    assert_eq!(70_000u32.to_usize(), 70_000);
    assert_eq!(<u64 as IndexWidth>::from_usize(usize::MAX).to_usize(), usize::MAX);
    assert_eq!(<usize as IndexWidth>::from_usize(12).to_usize(), 12);
}
