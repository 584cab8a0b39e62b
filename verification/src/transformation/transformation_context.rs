//! The transformation context: id allocation, the append-only node arena,
//! and the lazily-created in-progress transformation record.

use crate::clock::now_seconds;
use crate::codec::dec_digits;
use crate::feature::{ResourceOp, Transformation, TransformationType, TransformationView};
use crate::transformation::cypher_result::{
    CypherResultDataFrame, CypherResultDataFrameView, CypherResultGraph, CypherResultGraphView,
};
use crate::transformation::dataframe::{DataFrame, DataFrameView};
use crate::transformation::graph::select::{
    EdgeSelectGraph, EdgeSelectGraphView, VertexSelectGraph, VertexSelectGraphView,
};
use crate::transformation::graph::single_graph::{SingleGraph, SingleGraphView};
use crate::transformation::DataIdT;
use crate::GfsError;
use crate::ResourceId;
use vstd::prelude::*;
use vstd::string::*;

verus! {

/// The per-node handle: a node's unique-within-context id.  The original
/// back-reference to the owning context is recomputed from the arena, so
/// the handle carries only the id; every operation that needs the context
/// takes it explicitly.
#[derive(Debug, Clone, Copy)]
pub struct DataTransformationContext {
    pub id: DataIdT,
}

/// The closed set of node kinds owned by a context, dispatched by
/// exhaustive matching.
#[derive(Debug)]
pub enum DataNode {
    SingleGraph(SingleGraph),
    VertexSelect(VertexSelectGraph),
    EdgeSelect(EdgeSelectGraph),
    CypherGraph(CypherResultGraph),
    DataFrame(DataFrame),
    CypherDataFrame(CypherResultDataFrame),
}

pub ghost enum DataNodeView {
    SingleGraph(SingleGraphView),
    VertexSelect(VertexSelectGraphView),
    EdgeSelect(EdgeSelectGraphView),
    CypherGraph(CypherResultGraphView),
    DataFrame(DataFrameView),
    CypherDataFrame(CypherResultDataFrameView),
}

impl View for DataNode {
    type V = DataNodeView;

    open spec fn view(&self) -> DataNodeView {
        match self {
            DataNode::SingleGraph(g) => DataNodeView::SingleGraph(g@),
            DataNode::VertexSelect(g) => DataNodeView::VertexSelect(g@),
            DataNode::EdgeSelect(g) => DataNodeView::EdgeSelect(g@),
            DataNode::CypherGraph(g) => DataNodeView::CypherGraph(g@),
            DataNode::DataFrame(d) => DataNodeView::DataFrame(d@),
            DataNode::CypherDataFrame(d) => DataNodeView::CypherDataFrame(d@),
        }
    }
}

impl DeepView for DataNode {
    type V = DataNodeView;

    open spec fn deep_view(&self) -> DataNodeView {
        self.view()
    }
}

/// A transformation context: all data nodes involved in one data flow, in
/// construction order, plus a monotonic id counter and at most one
/// lazily-created in-progress transformation.  Sessions are single-shot.
#[derive(Debug)]
pub struct TransformationContext {
    pub next_data_id: DataIdT,
    pub data_vec: Vec<DataNode>,
    pub transformation: Option<Transformation>,
}

impl TransformationContext {
    /// An empty context: counter at zero, no nodes, no in-progress
    /// transformation.
    pub fn new() -> (r: TransformationContext)
        ensures
            r.next_data_id == 0,
            r.data_vec.deep_view() == Seq::<DataNodeView>::empty(),
            r.transformation is None,
    {
        let r = TransformationContext {
            next_data_id: 0,
            data_vec: Vec::new(),
            transformation: None,
        };
        proof {
            assert(r.data_vec.deep_view() =~= Seq::<DataNodeView>::empty());
        }
        r
    }

    /// Returns and post-increments the id counter; an id is never reused.
    pub fn new_data_id(&mut self) -> (id: DataIdT)
        requires
            old(self).next_data_id < DataIdT::MAX,
        ensures
            id == old(self).next_data_id,
            final(self).next_data_id == old(self).next_data_id + 1,
            final(self).data_vec == old(self).data_vec,
            final(self).transformation == old(self).transformation,
    {
        let id = self.next_data_id;
        self.next_data_id = self.next_data_id + 1;
        id
    }

    /// Appends a node to the owned node list; the list never shrinks and
    /// grows by exactly one per node-creating operation.
    pub fn add_data(&mut self, data: DataNode)
        ensures
            final(self).data_vec.deep_view() == old(self).data_vec.deep_view().push(data@),
            final(self).data_vec@.len() == old(self).data_vec@.len() + 1,
            final(self).next_data_id == old(self).next_data_id,
            final(self).transformation == old(self).transformation,
    {
        let ghost prev = self.data_vec.deep_view();
        let ghost dv = data@;
        self.data_vec.push(data);
        proof {
            assert(self.data_vec.deep_view() =~= prev.push(dv));
        }
    }

    /// Creates the in-progress transformation if there is none yet: an
    /// anonymous record named by a fixed prefix plus the creation
    /// timestamp, with placeholder destination type and kind, mutable
    /// until finalize.
    pub fn ensure_transformation(&mut self)
        ensures
            final(self).transformation is Some,
            old(self).transformation is Some ==> final(self).transformation == old(
                self,
            ).transformation,
            old(self).transformation is None ==> spec_fresh_transformation(
                final(self).transformation.unwrap()@,
            ),
            final(self).next_data_id == old(self).next_data_id,
            final(self).data_vec == old(self).data_vec,
    {
        if self.transformation.is_none() {
            let ts = now_seconds();
            let mut name = String::from_str("TRANSFORMATION_");
            let num = crate::codec::fmt_u64(#[verifier::truncate] (ts as u64));
            name.append(num.as_str());
            let t = Transformation {
                name,
                variant: None,
                export_resources: Vec::new(),
                source_field_ids: Vec::new(),
                dest_type: crate::FeatureValueType::Boolean,
                transformation_type: TransformationType::Cypher,
                body: String::new(),
                description: None,
                tags: Vec::new(),
                owners: Vec::new(),
            };
            proof {
                assert(t@.export_resources =~= Seq::<(DataIdT, Seq<char>)>::empty());
                assert(t@.source_field_ids =~= Seq::<Seq<char>>::empty());
                assert(t@.tags =~= Seq::<(Seq<char>, Seq<char>)>::empty());
                assert(t@.owners =~= Seq::<Seq<char>>::empty());
            }
            self.transformation = Some(t);
        }
    }

    /// Returns (creating on first call) a copy of the in-progress
    /// transformation.
    pub fn get_transformation(&mut self) -> (t: Transformation)
        ensures
            final(self).transformation is Some,
            t@ == final(self).transformation.unwrap()@,
            old(self).transformation is Some ==> final(self).transformation == old(
                self,
            ).transformation,
            old(self).transformation is None ==> spec_fresh_transformation(t@),
            final(self).next_data_id == old(self).next_data_id,
            final(self).data_vec == old(self).data_vec,
    {
        self.ensure_transformation();
        match &self.transformation {
            Some(t) => t.duplicate(),
            None => {
                proof {
                    assert(false);
                }
                unreached()
            },
        }
    }

    /// Serializes the context (counter and node list, in construction
    /// order) into the in-progress transformation's body as a lineage
    /// snapshot, optionally overriding name and variant, and returns the
    /// finalized record; absent if no transformation is in progress.
    /// Node creation after this call is reflected only by calling it
    /// again.
    pub fn build_transformation(&mut self, name: Option<String>, variant: Option<String>) -> (r:
        Result<Option<Transformation>, GfsError>)
        ensures
            r is Ok,
            final(self).next_data_id == old(self).next_data_id,
            final(self).data_vec == old(self).data_vec,
            match old(self).transformation {
                None => r == Ok::<Option<Transformation>, GfsError>(None)
                    && final(self).transformation is None,
                Some(t0) => {
                    &&& final(self).transformation is Some
                    &&& {
                        let t = final(self).transformation.unwrap()@;
                        &&& t.name == (match name {
                            Some(n) => n@,
                            None => t0@.name,
                        })
                        &&& t.variant == variant.deep_view()
                        &&& t.body == crate::transformation::snapshot::spec_context_snapshot(
                            old(self).next_data_id,
                            old(self).data_vec.deep_view(),
                        )
                        &&& t.export_resources == t0@.export_resources
                        &&& t.source_field_ids == t0@.source_field_ids
                        &&& t.dest_type == t0@.dest_type
                        &&& t.transformation_type == t0@.transformation_type
                        &&& t.description == t0@.description
                        &&& t.tags == t0@.tags
                        &&& t.owners == t0@.owners
                        &&& (match r {
                            Ok(Some(rt)) => rt@ == t,
                            _ => false,
                        })
                    }
                },
            },
    {
        let body = crate::transformation::snapshot::snapshot_string(
            self.next_data_id,
            &self.data_vec,
        );
        if self.transformation.is_none() {
            return Ok(None);
        }
        let prev = match &self.transformation {
            Some(t) => t.duplicate(),
            None => {
                proof {
                    assert(false);
                }
                unreached()
            },
        };
        let new_name = match name {
            Some(n) => n,
            None => prev.name,
        };
        let t = Transformation {
            name: new_name,
            variant,
            export_resources: prev.export_resources,
            source_field_ids: prev.source_field_ids,
            dest_type: prev.dest_type,
            transformation_type: prev.transformation_type,
            body,
            description: prev.description,
            tags: prev.tags,
            owners: prev.owners,
        };
        let out = t.duplicate();
        self.transformation = Some(t);
        Ok(Some(out))
    }
}

/// Shape of a freshly created anonymous in-progress transformation: named
/// by the fixed prefix plus a timestamp, empty provenance, placeholder
/// destination type and kind, and an empty body until finalize.
pub open spec fn spec_fresh_transformation(t: TransformationView) -> bool {
    &&& (exists|n: u64| t.name == "TRANSFORMATION_"@ + dec_digits(n as nat))
    &&& t.variant is None
    &&& t.export_resources == Seq::<(DataIdT, Seq<char>)>::empty()
    &&& t.source_field_ids == Seq::<Seq<char>>::empty()
    &&& t.dest_type == crate::FeatureValueType::Boolean
    &&& t.transformation_type == TransformationType::Cypher
    &&& t.body == Seq::<char>::empty()
    &&& t.description is None
    &&& t.tags == Seq::<(Seq<char>, Seq<char>)>::empty()
    &&& t.owners == Seq::<Seq<char>>::empty()
}

/// Two transformation records that agree on everything but their export
/// lists.
pub open spec fn spec_same_except_exports(t: TransformationView, t0: TransformationView) -> bool {
    &&& t.name == t0.name
    &&& t.variant == t0.variant
    &&& t.source_field_ids == t0.source_field_ids
    &&& t.dest_type == t0.dest_type
    &&& t.transformation_type == t0.transformation_type
    &&& t.body == t0.body
    &&& t.description == t0.description
    &&& t.tags == t0.tags
    &&& t.owners == t0.owners
}

/// A record that is a freshly created anonymous transformation in every
/// field but its export list.
pub open spec fn spec_fresh_except_exports(t: TransformationView) -> bool {
    spec_fresh_transformation(
        TransformationView { export_resources: Seq::<(DataIdT, Seq<char>)>::empty(), ..t },
    )
}

/// The export list of an optional in-progress transformation (empty when
/// none exists yet).
pub open spec fn spec_old_exports(t: Option<Transformation>) -> Seq<(DataIdT, Seq<char>)> {
    match t {
        Some(t0) => t0@.export_resources,
        None => Seq::<(DataIdT, Seq<char>)>::empty(),
    }
}

impl DataTransformationContext {
    /// Appends a freshly built node to the owning context.
    pub fn register_data(&self, ctx: &mut TransformationContext, data: DataNode)
        ensures
            final(ctx).data_vec.deep_view() == old(ctx).data_vec.deep_view().push(data@),
            final(ctx).next_data_id == old(ctx).next_data_id,
            final(ctx).transformation == old(ctx).transformation,
    {
        ctx.add_data(data);
    }

    /// Allocates a handle for a derived child node: a fresh id from the
    /// owning context.
    pub fn new_data_context(&self, ctx: &mut TransformationContext) -> (d:
        DataTransformationContext)
        requires
            old(ctx).next_data_id < DataIdT::MAX,
        ensures
            d.id == old(ctx).next_data_id,
            final(ctx).next_data_id == old(ctx).next_data_id + 1,
            final(ctx).data_vec == old(ctx).data_vec,
            final(ctx).transformation == old(ctx).transformation,
    {
        DataTransformationContext { id: ctx.new_data_id() }
    }

    /// The id of the owning context's in-progress transformation, created
    /// on first use; used to stamp provenance on derived resources before
    /// finalize.
    pub fn get_transformation_id(&self, ctx: &mut TransformationContext) -> (r: ResourceId)
        ensures
            final(ctx).transformation is Some,
            r@ == crate::feature::spec_transformation_id(final(ctx).transformation.unwrap()@),
            old(ctx).transformation is Some ==> final(ctx).transformation == old(
                ctx,
            ).transformation,
            old(ctx).transformation is None ==> spec_fresh_transformation(
                final(ctx).transformation.unwrap()@,
            ),
            final(ctx).next_data_id == old(ctx).next_data_id,
            final(ctx).data_vec == old(ctx).data_vec,
    {
        let t = ctx.get_transformation();
        t.resource_id()
    }

    /// Appends one (node id, resource id) pair to the owning context's
    /// in-progress transformation, creating the record on first use.  The
    /// export list only ever grows.
    pub fn export_resource(
        &self,
        ctx: &mut TransformationContext,
        data_id: DataIdT,
        resource_id: String,
    )
        ensures
            final(ctx).transformation is Some,
            final(ctx).transformation.unwrap()@.export_resources == spec_old_exports(
                old(ctx).transformation,
            ).push((data_id, resource_id@)),
            (match old(ctx).transformation {
                Some(t0) => spec_same_except_exports(
                    final(ctx).transformation.unwrap()@,
                    t0@,
                ),
                None => spec_fresh_except_exports(final(ctx).transformation.unwrap()@),
            }),
            final(ctx).next_data_id == old(ctx).next_data_id,
            final(ctx).data_vec == old(ctx).data_vec,
    {
        ctx.ensure_transformation();
        let ghost before = ctx.transformation.unwrap()@;
        match ctx.transformation.take() {
            Some(mut t) => {
                let ghost prev = t.export_resources.deep_view();
                t.export_resources.push((data_id, resource_id));
                proof {
                    assert(t.export_resources.deep_view() =~= prev.push((data_id, resource_id@)));
                }
                ctx.transformation = Some(t);
            },
            None => {
                proof {
                    assert(false);
                }
            },
        }
        proof {
            match old(ctx).transformation {
                Some(t0) => {
                    assert(ctx.transformation.unwrap()@.export_resources
                        =~= t0@.export_resources.push((data_id, resource_id@)));
                },
                None => {
                    assert(before.export_resources =~= Seq::<(DataIdT, Seq<char>)>::empty());
                    assert(ctx.transformation.unwrap()@.export_resources
                        =~= before.export_resources.push((data_id, resource_id@)));
                },
            }
        }
    }
}

// ---------------------------------------------------------------------------
// Id monotonicity, at the model level
// ---------------------------------------------------------------------------
/// The ids issued by `n` successive allocations starting from counter
/// value `c`.
pub open spec fn spec_issued_ids(c: DataIdT, n: nat) -> Seq<DataIdT>
    decreases n,
{
    if n == 0 || c >= DataIdT::MAX {
        Seq::<DataIdT>::empty()
    } else {
        seq![c] + spec_issued_ids((c + 1) as DataIdT, (n - 1) as nat)
    }
}

/// Id monotonicity: `new_data_id` called `n` times on a fresh context
/// yields `0..n-1` in order, each exactly once.
pub proof fn lemma_id_monotonicity(n: nat)
    requires
        n <= DataIdT::MAX,
    ensures
        spec_issued_ids(0, n) == Seq::new(n, |i: int| i as DataIdT),
        forall|i: int, j: int|
            0 <= i < j < n ==> #[trigger] spec_issued_ids(0, n)[i] != #[trigger] spec_issued_ids(
                0,
                n,
            )[j],
{
    lemma_issued_ids_from(0, n);
    assert(spec_issued_ids(0, n) =~= Seq::new(n, |i: int| i as DataIdT));
}

proof fn lemma_issued_ids_from(c: DataIdT, n: nat)
    requires
        c + n <= DataIdT::MAX,
    ensures
        spec_issued_ids(c, n).len() == n,
        forall|i: int| 0 <= i < n ==> #[trigger] spec_issued_ids(c, n)[i] == (c + i) as DataIdT,
    decreases n,
{
    if n > 0 {
        lemma_issued_ids_from((c + 1) as DataIdT, (n - 1) as nat);
        assert forall|i: int| 0 <= i < n implies #[trigger] spec_issued_ids(c, n)[i] == (c
            + i) as DataIdT by {
            if i > 0 {
                assert(spec_issued_ids(c, n)[i] == spec_issued_ids((c + 1) as DataIdT, (n - 1) as nat)[i - 1]);
            }
        }
    }
}

} // verus!
