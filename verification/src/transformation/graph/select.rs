//! Filter-projection vertex/edge relations over an origin graph node.

use crate::feature::{Field, FieldView};
use crate::transformation::built_in_fns::{Expression, ExpressionView, SamplingSpec, SamplingSpecView};
use crate::transformation::transformation_context::{
    DataNode, DataNodeView, DataTransformationContext, TransformationContext,
};
use crate::transformation::DataIdT;
use vstd::prelude::*;
use vstd::string::*;

verus! {

/// A vertex/edge selection, recursively a union of direct access,
/// filtering, and sampling; evaluated only by an external execution engine.
#[derive(Debug)]
pub enum Selector {
    /// Direct access to a graph's vertex/edge set, optionally restricted to
    /// one type label.
    DirectAccess { ltype: Option<String> },
    /// The subset on which a boolean expression evaluates to true.
    Expression(Expression),
    /// A sampled subset.
    Sampling(SamplingSpec),
    Union(Box<Selector>, Box<Selector>),
}

pub ghost enum SelectorView {
    DirectAccess { ltype: Option<Seq<char>> },
    Expression(ExpressionView),
    Sampling(SamplingSpecView),
    Union(Box<SelectorView>, Box<SelectorView>),
}

/// The view of a selector, by structural recursion.
pub open spec fn selector_view(s: Selector) -> SelectorView
    decreases s,
{
    match s {
        Selector::DirectAccess { ltype } => SelectorView::DirectAccess {
            ltype: ltype.deep_view(),
        },
        Selector::Expression(e) => SelectorView::Expression(e@),
        Selector::Sampling(sp) => SelectorView::Sampling(sp@),
        Selector::Union(a, b) => SelectorView::Union(
            Box::new(selector_view(*a)),
            Box::new(selector_view(*b)),
        ),
    }
}

impl View for Selector {
    type V = SelectorView;

    open spec fn view(&self) -> SelectorView {
        selector_view(*self)
    }
}

/// The fields served for one set of vertices/edges: a single (view name,
/// fields) table, or one table per type label.
#[derive(Debug)]
pub enum DataFrameSet {
    Homo((String, Vec<Field>)),
    Hetero(Vec<(String, (String, Vec<Field>))>),
}

pub ghost enum DataFrameSetView {
    Homo((Seq<char>, Seq<FieldView>)),
    Hetero(Seq<(Seq<char>, (Seq<char>, Seq<FieldView>))>),
}

impl View for DataFrameSet {
    type V = DataFrameSetView;

    open spec fn view(&self) -> DataFrameSetView {
        match self {
            DataFrameSet::Homo(t) => DataFrameSetView::Homo(t.deep_view()),
            DataFrameSet::Hetero(m) => DataFrameSetView::Hetero(m.deep_view()),
        }
    }
}

/// A filter-projection vertex relation derived from an origin graph node.
#[derive(Debug)]
pub struct VertexSelectGraph {
    pub context: DataTransformationContext,
    /// Id of the origin graph node.
    pub graph: DataIdT,
    pub selector: Selector,
    pub df: DataFrameSet,
}

pub ghost struct VertexSelectGraphView {
    pub id: DataIdT,
    pub graph: DataIdT,
    pub selector: SelectorView,
    pub df: DataFrameSetView,
}

impl View for VertexSelectGraph {
    type V = VertexSelectGraphView;

    open spec fn view(&self) -> VertexSelectGraphView {
        VertexSelectGraphView {
            id: self.context.id,
            graph: self.graph,
            selector: self.selector@,
            df: self.df@,
        }
    }
}

/// A filter-projection edge relation derived from an origin graph node.
#[derive(Debug)]
pub struct EdgeSelectGraph {
    pub context: DataTransformationContext,
    /// Id of the origin graph node.
    pub graph: DataIdT,
    pub selector: Selector,
    pub df: DataFrameSet,
}

pub ghost struct EdgeSelectGraphView {
    pub id: DataIdT,
    pub graph: DataIdT,
    pub selector: SelectorView,
    pub df: DataFrameSetView,
}

impl View for EdgeSelectGraph {
    type V = EdgeSelectGraphView;

    open spec fn view(&self) -> EdgeSelectGraphView {
        EdgeSelectGraphView {
            id: self.context.id,
            graph: self.graph,
            selector: self.selector@,
            df: self.df@,
        }
    }
}

impl VertexSelectGraph {
    /// Derives a graph node for `query` over this node.
    pub fn cypher_to_graph(&self, ctx: &mut TransformationContext, query: &str) -> (g:
        crate::transformation::cypher_result::CypherResultGraph)
        requires
            old(ctx).next_data_id < DataIdT::MAX,
        ensures
            g@.id == old(ctx).next_data_id,
            g@.graph == self@.id,
            g@.query == query@,
            final(ctx).next_data_id == old(ctx).next_data_id + 1,
            final(ctx).data_vec.deep_view() == old(ctx).data_vec.deep_view().push(
                DataNodeView::CypherGraph(g@),
            ),
            final(ctx).transformation == old(ctx).transformation,
    {
        crate::transformation::cypher_result::cypher_to_graph_node(self.context.id, ctx, query)
    }

    /// Derives a tabular query-result node for `query` over this node;
    /// the plan keeps the query text verbatim.
    pub fn cypher_to_dataframe(&self, ctx: &mut TransformationContext, query: &str) -> (df:
        crate::transformation::dataframe::DataFrame)
        requires
            old(ctx).next_data_id < DataIdT::MAX,
        ensures
            df.wf(),
            crate::transformation::cypher_result::spec_cypher_frame(
                df@,
                self@.id,
                old(ctx).next_data_id,
                query@,
            ),
            final(ctx).next_data_id == old(ctx).next_data_id + 1,
            final(ctx).data_vec.deep_view() == old(ctx).data_vec.deep_view().push(
                DataNodeView::CypherDataFrame(
                    crate::transformation::cypher_result::CypherResultDataFrameView {
                        id: old(ctx).next_data_id,
                        query: query@,
                    },
                ),
            ),
            final(ctx).transformation == old(ctx).transformation,
    {
        crate::transformation::cypher_result::cypher_to_dataframe_node(self.context.id, ctx, query)
    }
}

impl EdgeSelectGraph {
    /// Derives a graph node for `query` over this node.
    pub fn cypher_to_graph(&self, ctx: &mut TransformationContext, query: &str) -> (g:
        crate::transformation::cypher_result::CypherResultGraph)
        requires
            old(ctx).next_data_id < DataIdT::MAX,
        ensures
            g@.id == old(ctx).next_data_id,
            g@.graph == self@.id,
            g@.query == query@,
            final(ctx).next_data_id == old(ctx).next_data_id + 1,
            final(ctx).data_vec.deep_view() == old(ctx).data_vec.deep_view().push(
                DataNodeView::CypherGraph(g@),
            ),
            final(ctx).transformation == old(ctx).transformation,
    {
        crate::transformation::cypher_result::cypher_to_graph_node(self.context.id, ctx, query)
    }

    /// Derives a tabular query-result node for `query` over this node;
    /// the plan keeps the query text verbatim.
    pub fn cypher_to_dataframe(&self, ctx: &mut TransformationContext, query: &str) -> (df:
        crate::transformation::dataframe::DataFrame)
        requires
            old(ctx).next_data_id < DataIdT::MAX,
        ensures
            df.wf(),
            crate::transformation::cypher_result::spec_cypher_frame(
                df@,
                self@.id,
                old(ctx).next_data_id,
                query@,
            ),
            final(ctx).next_data_id == old(ctx).next_data_id + 1,
            final(ctx).data_vec.deep_view() == old(ctx).data_vec.deep_view().push(
                DataNodeView::CypherDataFrame(
                    crate::transformation::cypher_result::CypherResultDataFrameView {
                        id: old(ctx).next_data_id,
                        query: query@,
                    },
                ),
            ),
            final(ctx).transformation == old(ctx).transformation,
    {
        crate::transformation::cypher_result::cypher_to_dataframe_node(self.context.id, ctx, query)
    }
}

impl VertexSelectGraph {
    /// A homogeneous view over this selection's vertices: a child
    /// selection with an unrestricted direct-access selector over the same
    /// origin graph.
    pub fn vertices(&self, ctx: &mut TransformationContext) -> (r: VertexSelectGraph)
        requires
            old(ctx).next_data_id < DataIdT::MAX,
        ensures
            r@.id == old(ctx).next_data_id,
            r@.graph == self@.graph,
            r@.selector == (SelectorView::DirectAccess { ltype: None::<Seq<char>> }),
            r@.df == self@.df,
            final(ctx).next_data_id == old(ctx).next_data_id + 1,
            final(ctx).data_vec.deep_view() == old(ctx).data_vec.deep_view().push(
                DataNodeView::VertexSelect(r@),
            ),
            final(ctx).transformation == old(ctx).transformation,
    {
        let id = ctx.new_data_id();
        let r = VertexSelectGraph {
            context: DataTransformationContext { id },
            graph: self.graph,
            selector: Selector::DirectAccess { ltype: None },
            df: crate::transformation::graph::computation::dup_dfset(&self.df),
        };
        let node = crate::transformation::graph::computation::dup_vertex_select(&r);
        ctx.add_data(DataNode::VertexSelect(node));
        r
    }

    /// The vertices of one type within this selection, or an explicit
    /// absent result when the type is unknown — including the homogeneous
    /// case, which carries no type labels at all.
    pub fn vertices_by_type(&self, ctx: &mut TransformationContext, t: &str) -> (r: Option<
        VertexSelectGraph,
    >)
        requires
            old(ctx).next_data_id < DataIdT::MAX,
        ensures
            match r {
                Some(g) => {
                    &&& (self@.df matches DataFrameSetView::Hetero(bs)
                        && crate::transformation::graph::single_graph::assoc_get(bs, t@)
                        is Some)
                    &&& g@.id == old(ctx).next_data_id
                    &&& g@.graph == self@.graph
                    &&& g@.selector == (SelectorView::DirectAccess { ltype: Some(t@) })
                    &&& final(ctx).next_data_id == old(ctx).next_data_id + 1
                    &&& final(ctx).data_vec.deep_view() == old(ctx).data_vec.deep_view().push(
                        DataNodeView::VertexSelect(g@),
                    )
                    &&& final(ctx).transformation == old(ctx).transformation
                },
                None => {
                    &&& (match self@.df {
                        DataFrameSetView::Homo(_) => true,
                        DataFrameSetView::Hetero(bs) => crate::transformation::graph::single_graph::assoc_get(
                            bs,
                            t@,
                        ) is None,
                    })
                    &&& final(ctx).next_data_id == old(ctx).next_data_id
                    &&& final(ctx).data_vec == old(ctx).data_vec
                    &&& final(ctx).transformation == old(ctx).transformation
                },
            },
    {
        match &self.df {
            DataFrameSet::Homo(_) => None,
            DataFrameSet::Hetero(bs) => {
                match crate::transformation::graph::single_graph::bucket_get(bs, t) {
                    Some(df) => {
                        let id = ctx.new_data_id();
                        let g = VertexSelectGraph {
                            context: DataTransformationContext { id },
                            graph: self.graph,
                            selector: Selector::DirectAccess {
                                ltype: Some(String::from_str(t)),
                            },
                            df: DataFrameSet::Homo(
                                (df.0.clone(), crate::feature::dup_fields(&df.1)),
                            ),
                        };
                        let node = VertexSelectGraph {
                            context: DataTransformationContext { id },
                            graph: g.graph,
                            selector: Selector::DirectAccess {
                                ltype: Some(String::from_str(t)),
                            },
                            df: DataFrameSet::Homo((df.0, df.1)),
                        };
                        ctx.add_data(DataNode::VertexSelect(node));
                        Some(g)
                    },
                    None => None,
                }
            },
        }
    }
}

impl EdgeSelectGraph {
    /// A homogeneous view over this selection's edges.
    pub fn edges(&self, ctx: &mut TransformationContext) -> (r: EdgeSelectGraph)
        requires
            old(ctx).next_data_id < DataIdT::MAX,
        ensures
            r@.id == old(ctx).next_data_id,
            r@.graph == self@.graph,
            r@.selector == (SelectorView::DirectAccess { ltype: None::<Seq<char>> }),
            r@.df == self@.df,
            final(ctx).next_data_id == old(ctx).next_data_id + 1,
            final(ctx).data_vec.deep_view() == old(ctx).data_vec.deep_view().push(
                DataNodeView::EdgeSelect(r@),
            ),
            final(ctx).transformation == old(ctx).transformation,
    {
        let id = ctx.new_data_id();
        let r = EdgeSelectGraph {
            context: DataTransformationContext { id },
            graph: self.graph,
            selector: Selector::DirectAccess { ltype: None },
            df: crate::transformation::graph::computation::dup_dfset(&self.df),
        };
        let node = EdgeSelectGraph {
            context: DataTransformationContext { id },
            graph: r.graph,
            selector: Selector::DirectAccess { ltype: None },
            df: crate::transformation::graph::computation::dup_dfset(&r.df),
        };
        ctx.add_data(DataNode::EdgeSelect(node));
        r
    }

    /// The edges of one type within this selection, or an explicit absent
    /// result when the type is unknown.
    pub fn edges_by_type(&self, ctx: &mut TransformationContext, t: &str) -> (r: Option<
        EdgeSelectGraph,
    >)
        requires
            old(ctx).next_data_id < DataIdT::MAX,
        ensures
            match r {
                Some(g) => {
                    &&& (self@.df matches DataFrameSetView::Hetero(bs)
                        && crate::transformation::graph::single_graph::assoc_get(bs, t@)
                        is Some)
                    &&& g@.id == old(ctx).next_data_id
                    &&& g@.graph == self@.graph
                    &&& g@.selector == (SelectorView::DirectAccess { ltype: Some(t@) })
                    &&& final(ctx).next_data_id == old(ctx).next_data_id + 1
                    &&& final(ctx).data_vec.deep_view() == old(ctx).data_vec.deep_view().push(
                        DataNodeView::EdgeSelect(g@),
                    )
                    &&& final(ctx).transformation == old(ctx).transformation
                },
                None => {
                    &&& (match self@.df {
                        DataFrameSetView::Homo(_) => true,
                        DataFrameSetView::Hetero(bs) => crate::transformation::graph::single_graph::assoc_get(
                            bs,
                            t@,
                        ) is None,
                    })
                    &&& final(ctx).next_data_id == old(ctx).next_data_id
                    &&& final(ctx).data_vec == old(ctx).data_vec
                    &&& final(ctx).transformation == old(ctx).transformation
                },
            },
    {
        match &self.df {
            DataFrameSet::Homo(_) => None,
            DataFrameSet::Hetero(bs) => {
                match crate::transformation::graph::single_graph::bucket_get(bs, t) {
                    Some(df) => {
                        let id = ctx.new_data_id();
                        let g = EdgeSelectGraph {
                            context: DataTransformationContext { id },
                            graph: self.graph,
                            selector: Selector::DirectAccess {
                                ltype: Some(String::from_str(t)),
                            },
                            df: DataFrameSet::Homo(
                                (df.0.clone(), crate::feature::dup_fields(&df.1)),
                            ),
                        };
                        let node = EdgeSelectGraph {
                            context: DataTransformationContext { id },
                            graph: g.graph,
                            selector: Selector::DirectAccess {
                                ltype: Some(String::from_str(t)),
                            },
                            df: DataFrameSet::Homo((df.0, df.1)),
                        };
                        ctx.add_data(DataNode::EdgeSelect(node));
                        Some(g)
                    },
                    None => None,
                }
            },
        }
    }
}

} // verus!
