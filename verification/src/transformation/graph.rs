//! Graph-shaped nodes and the graph computation contract.

use vstd::prelude::*;

pub mod select;
pub mod single_graph;

mod computation;

pub use computation::{
    broadcast_per_hop_u32s, broadcast_per_hop_aggregators, resolve_per_hop_edge_types,
};

verus! {

/// Collections of multiple graphs (sampling over graph sets is a future
/// extension point).
pub trait MultipleGraphsBase: Sized {

}

} // verus!
