//! Query adapters: leaf/op nodes wrapping an externally-executed
//! declarative query.  The query text is stored verbatim and not parsed
//! here; execution belongs to the external query collaborator.

use crate::feature::ResourceOp;
use crate::transformation::dataframe::{Column, DataFrame};
use crate::transformation::transformation_context::{
    DataNode, DataNodeView, DataTransformationContext, TransformationContext,
};
use crate::transformation::DataIdT;
use crate::FeatureValueType;
use crate::Topology;
use vstd::prelude::*;
use vstd::string::*;

verus! {

/// A graph-shaped node standing for the result of a declarative query over
/// an origin graph node.
#[derive(Debug)]
pub struct CypherResultGraph {
    pub context: DataTransformationContext,
    /// Id of the origin graph node.
    pub graph: DataIdT,
    /// The query text, stored verbatim.
    pub query: String,
}

pub ghost struct CypherResultGraphView {
    pub id: DataIdT,
    pub graph: DataIdT,
    pub query: Seq<char>,
}

impl View for CypherResultGraph {
    type V = CypherResultGraphView;

    open spec fn view(&self) -> CypherResultGraphView {
        CypherResultGraphView { id: self.context.id, graph: self.graph, query: self.query@ }
    }
}

/// A tabular node standing for the rows of a declarative query.
#[derive(Debug)]
pub struct CypherResultDataFrame {
    /// The query text, stored verbatim.
    pub query: String,
    pub context: DataTransformationContext,
}

pub ghost struct CypherResultDataFrameView {
    pub id: DataIdT,
    pub query: Seq<char>,
}

impl View for CypherResultDataFrame {
    type V = CypherResultDataFrameView;

    open spec fn view(&self) -> CypherResultDataFrameView {
        CypherResultDataFrameView { id: self.context.id, query: self.query@ }
    }
}

/// Wraps `query` as a new graph-shaped node derived from the node
/// `origin`.
pub fn cypher_to_graph_node(origin: DataIdT, ctx: &mut TransformationContext, query: &str) -> (g:
    CypherResultGraph)
    requires
        old(ctx).next_data_id < DataIdT::MAX,
    ensures
        g@.id == old(ctx).next_data_id,
        g@.graph == origin,
        g@.query == query@,
        final(ctx).next_data_id == old(ctx).next_data_id + 1,
        final(ctx).data_vec.deep_view() == old(ctx).data_vec.deep_view().push(
            DataNodeView::CypherGraph(g@),
        ),
        final(ctx).transformation == old(ctx).transformation,
{
    let id = ctx.new_data_id();
    let g = CypherResultGraph {
        context: DataTransformationContext { id },
        graph: origin,
        query: String::from_str(query),
    };
    let node = CypherResultGraph {
        context: DataTransformationContext { id },
        graph: origin,
        query: String::from_str(query),
    };
    ctx.add_data(DataNode::CypherGraph(node));
    g
}

/// The clauses shared by every tabular query adapter: what the returned
/// handle holds and what enters the plan.  The node appended to the
/// context is a query-result node carrying the query text verbatim; the
/// returned frame is a handle over that node (same id) exposing the query
/// collaborator's fixed result schema for embedding queries.
pub open spec fn spec_cypher_frame(
    df: crate::transformation::dataframe::DataFrameView,
    origin: DataIdT,
    id: DataIdT,
    query: Seq<char>,
) -> bool {
    &&& df.id == id
    &&& df.name == "cypher_to_dataframe"@ + crate::codec::dec_digits(id as nat)
    &&& df.entity_id is None
    &&& df.schema.len() == 2
    &&& df.schema[0].origin == origin
    &&& df.schema[0].expr == Some(query)
    &&& df.schema[0].encoder is None
    &&& df.schema[0].value_type == FeatureValueType::String
    &&& df.schema[1].origin == origin
    &&& df.schema[1].expr == Some(query)
    &&& df.schema[1].encoder is None
    &&& df.schema[1].value_type == FeatureValueType::Array(Box::new(FeatureValueType::Float))
    &&& df.col_names == seq!["user"@, "dims"@]
}

/// Wraps `query` as a new tabular query-result node derived from the node
/// `origin`.  The plan records the query text verbatim.
pub fn cypher_to_dataframe_node(origin: DataIdT, ctx: &mut TransformationContext, query: &str) -> (df:
    DataFrame)
    requires
        old(ctx).next_data_id < DataIdT::MAX,
    ensures
        df.wf(),
        spec_cypher_frame(df@, origin, old(ctx).next_data_id, query@),
        final(ctx).next_data_id == old(ctx).next_data_id + 1,
        final(ctx).data_vec.deep_view() == old(ctx).data_vec.deep_view().push(
            DataNodeView::CypherDataFrame(
                CypherResultDataFrameView { id: old(ctx).next_data_id, query: query@ },
            ),
        ),
        final(ctx).transformation == old(ctx).transformation,
{
    let id = ctx.new_data_id();
    let mut name = String::from_str("cypher_to_dataframe");
    let num = crate::codec::fmt_u64(id as u64);
    name.append(num.as_str());
    proof {
        reveal_strlit("cypher_to_dataframe");
    }
    let mut schema: Vec<Column> = Vec::new();
    schema.push(
        Column {
            origin,
            expr: Some(String::from_str(query)),
            encoder: None,
            value_type: FeatureValueType::String,
        },
    );
    schema.push(
        Column {
            origin,
            expr: Some(String::from_str(query)),
            encoder: None,
            value_type: FeatureValueType::Array(Box::new(FeatureValueType::Float)),
        },
    );
    let mut col_names: Vec<String> = Vec::new();
    col_names.push(String::from_str("user"));
    col_names.push(String::from_str("dims"));
    proof {
        reveal_strlit("user");
        reveal_strlit("dims");
        assert(col_names.deep_view() =~= seq!["user"@, "dims"@]);
    }
    let df = DataFrame {
        context: DataTransformationContext { id },
        name,
        entity_id: None,
        schema,
        col_names,
    };
    let node = CypherResultDataFrame {
        query: String::from_str(query),
        context: DataTransformationContext { id },
    };
    ctx.add_data(DataNode::CypherDataFrame(node));
    df
}

impl CypherResultGraph {
    /// Derives a graph node for `query` over this node.
    pub fn cypher_to_graph(&self, ctx: &mut TransformationContext, query: &str) -> (g:
        CypherResultGraph)
        requires
            old(ctx).next_data_id < DataIdT::MAX,
        ensures
            g@.id == old(ctx).next_data_id,
            g@.graph == self@.id,
            g@.query == query@,
            final(ctx).next_data_id == old(ctx).next_data_id + 1,
            final(ctx).data_vec.deep_view() == old(ctx).data_vec.deep_view().push(
                DataNodeView::CypherGraph(g@),
            ),
            final(ctx).transformation == old(ctx).transformation,
    {
        cypher_to_graph_node(self.context.id, ctx, query)
    }

    /// Derives a tabular query-result node for `query` over this node;
    /// the plan keeps the query text verbatim.
    pub fn cypher_to_dataframe(&self, ctx: &mut TransformationContext, query: &str) -> (df:
        DataFrame)
        requires
            old(ctx).next_data_id < DataIdT::MAX,
        ensures
            df.wf(),
            spec_cypher_frame(df@, self@.id, old(ctx).next_data_id, query@),
            final(ctx).next_data_id == old(ctx).next_data_id + 1,
            final(ctx).data_vec.deep_view() == old(ctx).data_vec.deep_view().push(
                DataNodeView::CypherDataFrame(
                    CypherResultDataFrameView { id: old(ctx).next_data_id, query: query@ },
                ),
            ),
            final(ctx).transformation == old(ctx).transformation,
    {
        cypher_to_dataframe_node(self.context.id, ctx, query)
    }

    /// Builds a topology for a query-result graph: the shape defaults to an
    /// adjacency list and the edge entities are unknown (the result may be
    /// existing edges or a new edge type).
    pub fn export_topology(&self, ctx: &mut TransformationContext, name: &str) -> (r: Topology)
        ensures
            r@.name == name@,
            final(ctx).transformation matches Some(t) && r@.transformation_id == Some(
                crate::feature::spec_transformation_id(t@),
            ),
            r@.topology_type == Some(crate::TopologyType::AdjacencyList),
            r@.edge_entity_ids.len() == 0,
            r@.variant is None,
            final(ctx).transformation matches Some(t) && t@.export_resources
                == crate::transformation::transformation_context::spec_old_exports(
                old(ctx).transformation,
            ) + seq![(self@.id, crate::feature::spec_topology_id(r@))],
            final(ctx).next_data_id == old(ctx).next_data_id,
            final(ctx).data_vec == old(ctx).data_vec,
    {
        let tid = self.context.get_transformation_id(ctx);
        let r = Topology {
            name: String::from_str(name),
            transformation_id: Some(tid),
            topology_type: Some(crate::TopologyType::AdjacencyList),
            edge_entity_ids: Vec::new(),
            variant: None,
            description: None,
            created_at: None,
            tags: Vec::new(),
            owners: Vec::new(),
        };
        let rid = r.resource_id();
        self.context.export_resource(ctx, self.context.id, rid);
        r
    }
}

} // verus!
