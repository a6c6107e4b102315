//! Compact binary-tree nodes whose child links are stored in the narrowest
//! unsigned integer type that can address the arena.
use vstd::prelude::*;

pub mod node;
pub mod node_dispatch;
pub mod size_cache;
pub mod small_node;
pub mod width;

pub use node::Node;
pub use node_dispatch::SmallNodeDispatch;
pub use size_cache::SizeCache;
pub use small_node::SmallNode;
pub use width::IndexWidth;

verus! {

} // verus!
