//! The transformation engine: contexts, per-node handles, and the node
//! algebra of a lazily-built computation plan.

use crate::feature::{Field, ResourceOp, Topology};
use crate::feature_registry::{resource_entries, store_put_all, FeatureRegistry};
use crate::feature_store::FeatureStore;
use crate::identity::two_slashes;
use crate::storage::{StorageProvider, StoreEntry};
use crate::GfsError;
use vstd::prelude::*;

pub mod built_in_fns;
pub mod cypher_result;
pub mod dataframe;
pub mod graph;
pub mod snapshot;
pub mod transformation_context;

pub use built_in_fns::{Aggregator, Expression, RandomWalkPath, SamplingSpec};
pub use cypher_result::{CypherResultDataFrame, CypherResultGraph};
pub use dataframe::{Column, DataFrame};
pub use graph::select::{DataFrameSet, EdgeSelectGraph, Selector, VertexSelectGraph};
pub use graph::single_graph::SingleGraph;
pub use graph::MultipleGraphsBase;
pub use transformation_context::{
    DataNode, DataNodeView, DataTransformationContext, TransformationContext,
};

verus! {

/// The id of a data node within one transformation context.
pub type DataIdT = u32;

/// A node registered in a transformation context; its handle exposes the
/// node's id without granting access to the rest of the node.
pub trait TransformationData: Sized {
    /// The id this node carries.
    spec fn spec_data_id(&self) -> DataIdT;

    /// The node's context handle.
    fn get_context(&self) -> (c: &DataTransformationContext)
        ensures
            c.id == self.spec_data_id(),
    ;
}

/// Shared behavior of every node kind, derived from the context handle.
pub trait InnerTransformationData: TransformationData {
    /// The node's unique-within-context id.
    fn get_data_id(&self) -> (id: DataIdT)
        ensures
            id == self.spec_data_id(),
    ;
}

impl<T: TransformationData> InnerTransformationData for T {
    fn get_data_id(&self) -> (id: DataIdT) {
        self.get_context().id
    }
}

impl TransformationData for SingleGraph {
    open spec fn spec_data_id(&self) -> DataIdT {
        self.context.id
    }

    fn get_context(&self) -> (c: &DataTransformationContext) {
        &self.context
    }
}

impl TransformationData for VertexSelectGraph {
    open spec fn spec_data_id(&self) -> DataIdT {
        self.context.id
    }

    fn get_context(&self) -> (c: &DataTransformationContext) {
        &self.context
    }
}

impl TransformationData for EdgeSelectGraph {
    open spec fn spec_data_id(&self) -> DataIdT {
        self.context.id
    }

    fn get_context(&self) -> (c: &DataTransformationContext) {
        &self.context
    }
}

impl TransformationData for CypherResultGraph {
    open spec fn spec_data_id(&self) -> DataIdT {
        self.context.id
    }

    fn get_context(&self) -> (c: &DataTransformationContext) {
        &self.context
    }
}

impl TransformationData for DataFrame {
    open spec fn spec_data_id(&self) -> DataIdT {
        self.context.id
    }

    fn get_context(&self) -> (c: &DataTransformationContext) {
        &self.context
    }
}

impl TransformationData for CypherResultDataFrame {
    open spec fn spec_data_id(&self) -> DataIdT {
        self.context.id
    }

    fn get_context(&self) -> (c: &DataTransformationContext) {
        &self.context
    }
}

/// How finalize leaves the in-progress transformation: the record it had,
/// with the lineage snapshot of the context's counter and node list as its
/// body and the variant cleared, everything else untouched.
pub open spec fn spec_finalized_record(
    t: crate::feature::TransformationView,
    t0: crate::feature::TransformationView,
    next_data_id: DataIdT,
    nodes: Seq<DataNodeView>,
) -> bool {
    &&& t.name == t0.name
    &&& t.variant is None
    &&& t.body == snapshot::spec_context_snapshot(next_data_id, nodes)
    &&& t.export_resources == t0.export_resources
    &&& t.source_field_ids == t0.source_field_ids
    &&& t.dest_type == t0.dest_type
    &&& t.transformation_type == t0.transformation_type
    &&& t.description == t0.description
    &&& t.tags == t0.tags
    &&& t.owners == t0.owners
}

/// The registration list finalize works through, in order: the finalized
/// transformation first, then every field, then every topology.
pub open spec fn spec_finalize_items(
    t: crate::feature::TransformationView,
    fields: Seq<&Field>,
    topos: Seq<&Topology>,
) -> Seq<StoreEntry> {
    seq![
        (
            crate::feature::spec_transformation_id(t),
            crate::codec::enc_toks(crate::feature::spec_transformation_tokens(t)),
        ),
    ] + resource_entries(fields) + resource_entries(topos)
}

/// Finalizes the context's transformation and registers it together with
/// the given derived fields and topologies, sequentially and best-effort:
/// a mid-list failure surfaces immediately, leaves everything registered
/// before it committed, and attempts nothing after it.
pub fn finalize_transformation<S: StorageProvider>(
    fs: &mut FeatureStore<S>,
    tc: &mut TransformationContext,
    fields: &Vec<&Field>,
    topos: &Vec<&Topology>,
) -> (r: Result<(), GfsError>)
    requires
        old(tc).transformation is Some,
        forall|i: int| 0 <= i < fields@.len() ==> two_slashes((#[trigger] fields@[i])@.entity_id),
    ensures
        final(tc).next_data_id == old(tc).next_data_id,
        final(tc).data_vec == old(tc).data_vec,
        final(tc).transformation is Some,
        spec_finalized_record(
            final(tc).transformation.unwrap()@,
            old(tc).transformation.unwrap()@,
            old(tc).next_data_id,
            old(tc).data_vec.deep_view(),
        ),
        match r {
            Ok(()) => final(fs).registry.storage.entries() == store_put_all(
                old(fs).registry.storage.entries(),
                spec_finalize_items(final(tc).transformation.unwrap()@, fields@, topos@),
            ),
            Err(e) => e == GfsError::BackendError && (exists|n: int|
                0 <= n <= spec_finalize_items(
                    final(tc).transformation.unwrap()@,
                    fields@,
                    topos@,
                ).len() && final(fs).registry.storage.entries() == store_put_all(
                    old(fs).registry.storage.entries(),
                    spec_finalize_items(final(tc).transformation.unwrap()@, fields@, topos@)
                        .subrange(0, n),
                )),
        },
{
    let built = tc.build_transformation(None, None)?;
    let transformation = match built {
        Some(t) => t,
        None => {
            proof {
                assert(false);
            }
            vstd::pervasive::unreached()
        },
    };
    let ghost items = spec_finalize_items(transformation@, fields@, topos@);
    let ghost t_entry: StoreEntry = (
        crate::feature::spec_transformation_id(transformation@),
        crate::codec::enc_toks(crate::feature::spec_transformation_tokens(transformation@)),
    );
    proof {
        assert(items[0] == t_entry);
    }
    match fs.registry.register_resource(&transformation) {
        Ok(()) => (),
        Err(e) => {
            proof {
                assert(items.subrange(0, 0) =~= Seq::<StoreEntry>::empty());
                assert(store_put_all(old(fs).registry.storage.entries(), items.subrange(0, 0))
                    == old(fs).registry.storage.entries());
            }
            return Err(e);
        },
    }
    proof {
        assert(store_put_all(old(fs).registry.storage.entries(), seq![t_entry])
            == crate::storage::store_put(
            old(fs).registry.storage.entries(),
            t_entry.0,
            t_entry.1,
        )) by {
            let single = seq![t_entry];
            assert(single[0] == t_entry);
            assert(single.drop_first() =~= Seq::<StoreEntry>::empty());
            assert(store_put_all(
                crate::storage::store_put(
                    old(fs).registry.storage.entries(),
                    t_entry.0,
                    t_entry.1,
                ),
                Seq::<StoreEntry>::empty(),
            ) == crate::storage::store_put(
                old(fs).registry.storage.entries(),
                t_entry.0,
                t_entry.1,
            ));
        }
    }
    match fs.registry.register_resources(fields) {
        Ok(()) => (),
        Err((i, e)) => {
            proof {
                lemma_store_put_all_app(
                    old(fs).registry.storage.entries(),
                    seq![t_entry],
                    resource_entries(fields@).subrange(0, i as int),
                );
                assert(seq![t_entry] + resource_entries(fields@).subrange(0, i as int)
                    =~= items.subrange(0, 1 + i));
                assert(0 <= 1 + i <= items.len() && final(fs).registry.storage.entries()
                    == store_put_all(
                    old(fs).registry.storage.entries(),
                    items.subrange(0, 1 + i),
                ));
            }
            return Err(e);
        },
    }
    proof {
        lemma_store_put_all_app(
            old(fs).registry.storage.entries(),
            seq![t_entry],
            resource_entries(fields@),
        );
    }
    match fs.registry.register_resources(topos) {
        Ok(()) => (),
        Err((i, e)) => {
            proof {
                lemma_store_put_all_app(
                    old(fs).registry.storage.entries(),
                    seq![t_entry] + resource_entries(fields@),
                    resource_entries(topos@).subrange(0, i as int),
                );
                let n = 1 + fields@.len() + i;
                assert((seq![t_entry] + resource_entries(fields@)) + resource_entries(
                    topos@,
                ).subrange(0, i as int) =~= items.subrange(0, n as int));
                assert(0 <= n <= items.len() && final(fs).registry.storage.entries()
                    == store_put_all(
                    old(fs).registry.storage.entries(),
                    items.subrange(0, n as int),
                ));
            }
            return Err(e);
        },
    }
    proof {
        lemma_store_put_all_app(
            old(fs).registry.storage.entries(),
            seq![t_entry] + resource_entries(fields@),
            resource_entries(topos@),
        );
        assert((seq![t_entry] + resource_entries(fields@)) + resource_entries(topos@)
            =~= items);
    }
    Ok(())
}

/// Registering one batch after another registers their concatenation.
pub proof fn lemma_store_put_all_app(es: Seq<StoreEntry>, a: Seq<StoreEntry>, b: Seq<StoreEntry>)
    ensures
        store_put_all(store_put_all(es, a), b) == store_put_all(es, a + b),
    decreases a.len(),
{
    if a.len() == 0 {
        assert(a + b =~= b);
    } else {
        lemma_store_put_all_app(
            crate::storage::store_put(es, a[0].0, a[0].1),
            a.drop_first(),
            b,
        );
        assert((a + b)[0] == a[0]);
        assert((a + b).drop_first() =~= a.drop_first() + b);
    }
}

} // verus!
