//! The graph computation contract: sampling, aggregation and random walks,
//! defined uniformly over graph-shaped nodes.  The operations build plan
//! nodes; executing them belongs to an external engine consuming the plan.

use crate::feature::FeatureValueType;
use crate::transformation::built_in_fns::{Aggregator, RandomWalkPath, SamplingSpec, SamplingSpecView};
use crate::transformation::dataframe::{Column, DataFrame};
use crate::transformation::graph::select::{
    DataFrameSet, DataFrameSetView, Selector, SelectorView, VertexSelectGraph,
};
use crate::transformation::graph::single_graph::{dup_buckets, SingleGraph};
use crate::transformation::transformation_context::{
    DataNode, DataNodeView, DataTransformationContext, TransformationContext,
};
use crate::transformation::DataIdT;
use crate::GfsError;
use vstd::prelude::*;
use vstd::string::*;

verus! {

impl DeepView for Aggregator {
    type V = Aggregator;

    open spec fn deep_view(&self) -> Aggregator {
        *self
    }
}

/// The per-hop fanout list after the broadcast-or-per-hop rule: a single
/// entry is used for all `k` hops; `k` entries are taken as given; any
/// other length is a configuration error.
pub fn broadcast_per_hop_u32s(k: u32, items: &Vec<u32>) -> (r: Result<Vec<u32>, GfsError>)
    ensures
        match r {
            Ok(v) => (items@.len() == 1 || items@.len() == k) && v.deep_view() == (if items@.len()
                == 1 {
                Seq::new(k as nat, |i: int| items@[0])
            } else {
                items.deep_view()
            }),
            Err(e) => e == GfsError::ConfigurationError && items@.len() != 1 && items@.len() != k,
        },
{
    if items.len() == 1 {
        let x = items[0];
        let mut out: Vec<u32> = Vec::new();
        let mut i: u32 = 0;
        while i < k
            invariant
                i <= k,
                items@.len() == 1,
                x == items@[0],
                out.deep_view() == Seq::new(i as nat, |j: int| items@[0]),
            decreases k - i,
        {
            let ghost prev = out.deep_view();
            out.push(x);
            proof {
                assert(out.deep_view() =~= prev.push(items@[0]));
                assert(out.deep_view() =~= Seq::new((i + 1) as nat, |j: int| items@[0]));
            }
            i = i + 1;
        }
        Ok(out)
    } else if items.len() == k as usize {
        let mut out: Vec<u32> = Vec::new();
        let mut i: usize = 0;
        while i < items.len()
            invariant
                i <= items@.len(),
                out.deep_view() == items.deep_view().subrange(0, i as int),
            decreases items@.len() - i,
        {
            let ghost prev = out.deep_view();
            out.push(items[i]);
            proof {
                assert(out.deep_view() =~= prev.push(items.deep_view()[i as int]));
                assert(out.deep_view() =~= items.deep_view().subrange(0, i + 1));
            }
            i = i + 1;
        }
        proof {
            assert(items.deep_view().subrange(0, items@.len() as int) =~= items.deep_view());
        }
        Ok(out)
    } else {
        Err(GfsError::ConfigurationError)
    }
}

/// The per-hop aggregator list after the broadcast-or-per-hop rule.
pub fn broadcast_per_hop_aggregators(k: u32, items: &Vec<Aggregator>) -> (r: Result<
    Vec<Aggregator>,
    GfsError,
>)
    ensures
        match r {
            Ok(v) => (items@.len() == 1 || items@.len() == k) && v.deep_view() == (if items@.len()
                == 1 {
                Seq::new(k as nat, |i: int| items@[0])
            } else {
                items.deep_view()
            }),
            Err(e) => e == GfsError::ConfigurationError && items@.len() != 1 && items@.len() != k,
        },
{
    if items.len() == 1 {
        let x = items[0];
        let mut out: Vec<Aggregator> = Vec::new();
        let mut i: u32 = 0;
        while i < k
            invariant
                i <= k,
                items@.len() == 1,
                x == items@[0],
                out.deep_view() == Seq::new(i as nat, |j: int| items@[0]),
            decreases k - i,
        {
            let ghost prev = out.deep_view();
            out.push(x);
            proof {
                assert(out.deep_view() =~= prev.push(items@[0]));
                assert(out.deep_view() =~= Seq::new((i + 1) as nat, |j: int| items@[0]));
            }
            i = i + 1;
        }
        Ok(out)
    } else if items.len() == k as usize {
        let mut out: Vec<Aggregator> = Vec::new();
        let mut i: usize = 0;
        while i < items.len()
            invariant
                i <= items@.len(),
                out.deep_view() == items.deep_view().subrange(0, i as int),
            decreases items@.len() - i,
        {
            let ghost prev = out.deep_view();
            out.push(items[i]);
            proof {
                assert(out.deep_view() =~= prev.push(items.deep_view()[i as int]));
                assert(out.deep_view() =~= items.deep_view().subrange(0, i + 1));
            }
            i = i + 1;
        }
        proof {
            assert(items.deep_view().subrange(0, items@.len() as int) =~= items.deep_view());
        }
        Ok(out)
    } else {
        Err(GfsError::ConfigurationError)
    }
}

/// The per-hop edge-type list after the broadcast-or-per-hop rule: one
/// entry is used for all `k` hops, `k` entries are taken as given, and any
/// other length — the empty list included — is a configuration error.
pub fn resolve_per_hop_edge_types(k: u32, items: &Vec<String>) -> (r: Result<Vec<String>, GfsError>)
    ensures
        match r {
            Ok(v) => (items@.len() == 1 || items@.len() == k) && v.deep_view() == spec_per_hop_strs(
                k,
                items.deep_view(),
            ),
            Err(e) => e == GfsError::ConfigurationError && items@.len() != 1 && items@.len() != k,
        },
{
    if items.len() == 1 {
        let mut out: Vec<String> = Vec::new();
        let mut i: u32 = 0;
        while i < k
            invariant
                i <= k,
                items@.len() == 1,
                out.deep_view() == Seq::new(i as nat, |j: int| items@[0]@),
            decreases k - i,
        {
            let ghost prev = out.deep_view();
            out.push(items[0].clone());
            proof {
                assert(out.deep_view() =~= prev.push(items@[0]@));
                assert(out.deep_view() =~= Seq::new((i + 1) as nat, |j: int| items@[0]@));
            }
            i = i + 1;
        }
        Ok(out)
    } else if items.len() == k as usize {
        Ok(crate::feature::dup_strings(items))
    } else {
        Err(GfsError::ConfigurationError)
    }
}

/// The list a single entry broadcasts to over `k` hops; a per-hop list is
/// taken as given.
pub open spec fn spec_per_hop_strs(k: u32, items: Seq<Seq<char>>) -> Seq<Seq<char>> {
    if items.len() == 1 {
        Seq::new(k as nat, |i: int| items[0])
    } else {
        items
    }
}

pub open spec fn spec_per_hop_u32s(k: u32, items: Seq<u32>) -> Seq<u32> {
    if items.len() == 1 {
        Seq::new(k as nat, |i: int| items[0])
    } else {
        items
    }
}

pub open spec fn spec_per_hop_aggs(k: u32, items: Seq<Aggregator>) -> Seq<Aggregator> {
    if items.len() == 1 {
        Seq::new(k as nat, |i: int| items[0])
    } else {
        items
    }
}

/// Comma-joined text of a list of parts.
pub open spec fn spec_join_comma(v: Seq<Seq<char>>) -> Seq<char>
    decreases v.len(),
{
    if v.len() == 0 {
        Seq::<char>::empty()
    } else if v.len() == 1 {
        v[0]
    } else {
        spec_join_comma(v.drop_last()) + seq![','] + v.last()
    }
}

fn join_comma(v: &Vec<String>) -> (r: String)
    ensures
        r@ == spec_join_comma(v.deep_view()),
{
    let mut r = String::new();
    let mut i: usize = 0;
    proof {
        assert(v.deep_view().subrange(0, 0) =~= Seq::<Seq<char>>::empty());
        assert(r@ =~= spec_join_comma(v.deep_view().subrange(0, 0)));
    }
    while i < v.len()
        invariant
            i <= v@.len(),
            r@ == spec_join_comma(v.deep_view().subrange(0, i as int)),
        decreases v@.len() - i,
    {
        if i > 0 {
            r.append(",");
        }
        r.append(v[i].as_str());
        proof {
            reveal_strlit(",");
            let prev = v.deep_view().subrange(0, i as int);
            let cur = v.deep_view().subrange(0, i + 1);
            assert(cur.last() == v.deep_view()[i as int]);
            if i == 0 {
                assert(cur.len() == 1);
                assert(r@ =~= cur[0]);
                assert(r@ =~= spec_join_comma(cur));
            } else {
                assert(cur.drop_last() =~= prev);
                assert(r@ =~= spec_join_comma(prev) + seq![','] + cur.last());
            }
        }
        i = i + 1;
    }
    proof {
        assert(v.deep_view().subrange(0, v@.len() as int) =~= v.deep_view());
    }
    r
}

/// The decimal texts of a fanout or probability list.
pub open spec fn spec_dec_texts(v: Seq<u32>) -> Seq<Seq<char>> {
    Seq::new(v.len(), |i: int| crate::codec::dec_digits(v[i] as nat))
}

fn dec_texts(v: &Vec<u32>) -> (r: Vec<String>)
    ensures
        r.deep_view() == spec_dec_texts(v.deep_view()),
{
    let mut out: Vec<String> = Vec::new();
    let mut i: usize = 0;
    while i < v.len()
        invariant
            i <= v@.len(),
            out.deep_view() == spec_dec_texts(v.deep_view()).subrange(0, i as int),
        decreases v@.len() - i,
    {
        let ghost prev = out.deep_view();
        out.push(crate::codec::fmt_u64(v[i] as u64));
        proof {
            assert(out.deep_view() =~= prev.push(spec_dec_texts(v.deep_view())[i as int]));
            assert(out.deep_view() =~= spec_dec_texts(v.deep_view()).subrange(0, i + 1));
        }
        i = i + 1;
    }
    proof {
        assert(spec_dec_texts(v.deep_view()).subrange(0, v@.len() as int) =~= spec_dec_texts(
            v.deep_view(),
        ));
    }
    out
}

/// The name an aggregator goes by in a plan descriptor.
pub open spec fn spec_agg_name(a: Aggregator) -> Seq<char> {
    match a {
        Aggregator::Mean => "mean"@,
        Aggregator::Sum => "sum"@,
        Aggregator::Min => "min"@,
        Aggregator::Max => "max"@,
        Aggregator::Concat => "concat"@,
    }
}

fn agg_name(a: &Aggregator) -> (r: &'static str)
    ensures
        r@ == spec_agg_name(*a),
{
    match a {
        Aggregator::Mean => "mean",
        Aggregator::Sum => "sum",
        Aggregator::Min => "min",
        Aggregator::Max => "max",
        Aggregator::Concat => "concat",
    }
}

pub open spec fn spec_agg_names(v: Seq<Aggregator>) -> Seq<Seq<char>> {
    Seq::new(v.len(), |i: int| spec_agg_name(v[i]))
}

fn agg_names(v: &Vec<Aggregator>) -> (r: Vec<String>)
    ensures
        r.deep_view() == spec_agg_names(v.deep_view()),
{
    let mut out: Vec<String> = Vec::new();
    let mut i: usize = 0;
    while i < v.len()
        invariant
            i <= v@.len(),
            out.deep_view() == spec_agg_names(v.deep_view()).subrange(0, i as int),
        decreases v@.len() - i,
    {
        let ghost prev = out.deep_view();
        out.push(String::from_str(agg_name(&v[i])));
        proof {
            assert(out.deep_view() =~= prev.push(spec_agg_names(v.deep_view())[i as int]));
            assert(out.deep_view() =~= spec_agg_names(v.deep_view()).subrange(0, i + 1));
        }
        i = i + 1;
    }
    proof {
        assert(spec_agg_names(v.deep_view()).subrange(0, v@.len() as int) =~= spec_agg_names(
            v.deep_view(),
        ));
    }
    out
}

/// The per-hop restart probabilities a walk runs with: the given list, or
/// none when absent (probability 0 throughout).
pub open spec fn spec_restart_list(v: Option<Seq<u32>>) -> Seq<u32> {
    match v {
        Some(r) => r,
        None => Seq::<u32>::empty(),
    }
}

/// The descriptor a walk node carries: the probability column, the hop
/// count, and the per-hop restart probabilities in thousandths, each
/// recoverable by an execution engine.
pub open spec fn spec_walk_descriptor(prob: Seq<char>, length: u32, restart: Seq<u32>) -> Seq<
    char,
> {
    "walk("@ + prob + seq![';'] + crate::codec::dec_digits(length as nat) + seq![';']
        + spec_join_comma(spec_dec_texts(restart)) + seq![')']
}

fn walk_descriptor(prob: &str, length: u32, restart: &Option<Vec<u32>>) -> (r: String)
    ensures
        r@ == spec_walk_descriptor(
            prob@,
            length,
            spec_restart_list(
                match restart {
                    Some(v) => Some(v.deep_view()),
                    None => None,
                },
            ),
        ),
{
    let mut r = String::from_str("walk(");
    r.append(prob);
    r.append(";");
    let num = crate::codec::fmt_u64(length as u64);
    r.append(num.as_str());
    r.append(";");
    match restart {
        Some(v) => {
            let parts = dec_texts(v);
            let joined = join_comma(&parts);
            r.append(joined.as_str());
        },
        None => {
            proof {
                assert(spec_dec_texts(Seq::<u32>::empty()) =~= Seq::<Seq<char>>::empty());
            }
        },
    }
    r.append(")");
    proof {
        reveal_strlit(";");
        reveal_strlit(")");
        let rv = spec_restart_list(
            match restart {
                Some(v) => Some(v.deep_view()),
                None => None,
            },
        );
        assert(r@ =~= spec_walk_descriptor(prob@, length, rv));
    }
    r
}

/// The descriptor a one-hop aggregation node carries: the aggregator and
/// the traversed edge type (empty means every type).
pub open spec fn spec_aggregate_descriptor(a: Aggregator, edge_type: Option<Seq<char>>) -> Seq<
    char,
> {
    "aggregate("@ + spec_agg_name(a) + seq![';'] + crate::identity::opt_view(edge_type) + seq![')']
}

fn aggregate_descriptor(a: &Aggregator, edge_type: &Option<String>) -> (r: String)
    ensures
        r@ == spec_aggregate_descriptor(*a, edge_type.deep_view()),
{
    let mut r = String::from_str("aggregate(");
    r.append(agg_name(a));
    r.append(";");
    match edge_type {
        Some(t) => r.append(t.as_str()),
        None => (),
    }
    r.append(")");
    proof {
        reveal_strlit(";");
        reveal_strlit(")");
        assert(r@ =~= spec_aggregate_descriptor(*a, edge_type.deep_view()));
    }
    r
}

/// The descriptor a k-hop aggregation node carries: the hop count and the
/// resolved per-hop aggregators and edge types, broadcast already applied.
pub open spec fn spec_k_hop_aggregate_descriptor(
    k: u32,
    aggs: Seq<Aggregator>,
    edge_types: Seq<Seq<char>>,
) -> Seq<char> {
    "aggregate_k_hop("@ + crate::codec::dec_digits(k as nat) + seq![';'] + spec_join_comma(
        spec_agg_names(aggs),
    ) + seq![';'] + spec_join_comma(edge_types) + seq![')']
}

/// The value type of an aggregated feature column: concatenation yields a
/// string, every numeric aggregator a float.
pub open spec fn spec_aggregate_type(a: Aggregator) -> FeatureValueType {
    match a {
        Aggregator::Concat => FeatureValueType::String,
        _ => FeatureValueType::Float,
    }
}

fn aggregate_type(a: &Aggregator) -> (t: FeatureValueType)
    ensures
        t == spec_aggregate_type(*a),
{
    match a {
        Aggregator::Concat => FeatureValueType::String,
        _ => FeatureValueType::Float,
    }
}

/// A single-column vertex data frame node standing for a computed feature
/// over the origin graph node.
fn computed_frame_node(
    origin: DataIdT,
    ctx: &mut TransformationContext,
    name: &str,
    col_name: &str,
    expr: Option<String>,
    value_type: FeatureValueType,
) -> (df: DataFrame)
    requires
        old(ctx).next_data_id < DataIdT::MAX,
    ensures
        df.wf(),
        df@.id == old(ctx).next_data_id,
        df@.name == name@,
        df@.entity_id is None,
        df@.schema.len() == 1,
        df@.schema[0].origin == origin,
        df@.schema[0].expr == expr.deep_view(),
        df@.schema[0].encoder is None,
        df@.schema[0].value_type == value_type,
        df@.col_names == seq![col_name@],
        final(ctx).next_data_id == old(ctx).next_data_id + 1,
        final(ctx).data_vec.deep_view() == old(ctx).data_vec.deep_view().push(
            DataNodeView::DataFrame(df@),
        ),
        final(ctx).transformation == old(ctx).transformation,
{
    let id = ctx.new_data_id();
    let mut schema: Vec<Column> = Vec::new();
    schema.push(Column { origin, expr, encoder: None, value_type });
    let mut col_names: Vec<String> = Vec::new();
    col_names.push(String::from_str(col_name));
    proof {
        assert(col_names.deep_view() =~= seq![col_name@]);
    }
    let df = DataFrame {
        context: DataTransformationContext { id },
        name: String::from_str(name),
        entity_id: None,
        schema,
        col_names,
    };
    let node = df.duplicate();
    ctx.add_data(DataNode::DataFrame(node));
    df
}

/// A sampling node over the origin graph node.
fn sampling_node(
    origin: DataIdT,
    ctx: &mut TransformationContext,
    spec: SamplingSpec,
    df: DataFrameSet,
) -> (g: VertexSelectGraph)
    requires
        old(ctx).next_data_id < DataIdT::MAX,
    ensures
        g@.id == old(ctx).next_data_id,
        g@.graph == origin,
        g@.selector == SelectorView::Sampling(spec@),
        g@.df == df@,
        final(ctx).next_data_id == old(ctx).next_data_id + 1,
        final(ctx).data_vec.deep_view() == old(ctx).data_vec.deep_view().push(
            DataNodeView::VertexSelect(g@),
        ),
        final(ctx).transformation == old(ctx).transformation,
{
    let id = ctx.new_data_id();
    let ghost dfv = df@;
    let ghost specv = spec@;
    let g = VertexSelectGraph {
        context: DataTransformationContext { id },
        graph: origin,
        selector: Selector::Sampling(spec),
        df,
    };
    let node = dup_vertex_select(&g);
    ctx.add_data(DataNode::VertexSelect(node));
    g
}

/// A copy of a selection node whose equality (by view) with the original
/// is known to verified callers.
pub fn dup_vertex_select(g: &VertexSelectGraph) -> (r: VertexSelectGraph)
    ensures
        r@ == g@,
{
    VertexSelectGraph {
        context: DataTransformationContext { id: g.context.id },
        graph: g.graph,
        selector: dup_selector(&g.selector),
        df: dup_dfset(&g.df),
    }
}

/// A copy of a selector whose equality (by view) with the original is
/// known to verified callers.
pub fn dup_selector(s: &Selector) -> (r: Selector)
    ensures
        r@ == s@,
    decreases s,
{
    match s {
        Selector::DirectAccess { ltype } => Selector::DirectAccess {
            ltype: crate::feature::dup_opt_string(ltype),
        },
        Selector::Expression(e) => Selector::Expression(e.duplicate()),
        Selector::Sampling(sp) => Selector::Sampling(dup_sampling(sp)),
        Selector::Union(a, b) => Selector::Union(
            Box::new(dup_selector(a)),
            Box::new(dup_selector(b)),
        ),
    }
}

/// A copy of a sampling spec whose equality (by view) with the original is
/// known to verified callers.
pub fn dup_sampling(s: &SamplingSpec) -> (r: SamplingSpec)
    ensures
        r@ == s@,
{
    match s {
        SamplingSpec::Neighbor { fanout, edge_type, replace } => SamplingSpec::Neighbor {
            fanout: *fanout,
            edge_type: crate::feature::dup_opt_string(edge_type),
            replace: *replace,
        },
        SamplingSpec::KHopNeighbor { fanouts, edge_types, replace } => {
            let mut fo: Vec<u32> = Vec::new();
            let mut i: usize = 0;
            while i < fanouts.len()
                invariant
                    i <= fanouts@.len(),
                    fo.deep_view() == fanouts.deep_view().subrange(0, i as int),
                decreases fanouts@.len() - i,
            {
                let ghost prev = fo.deep_view();
                fo.push(fanouts[i]);
                proof {
                    assert(fo.deep_view() =~= prev.push(fanouts.deep_view()[i as int]));
                    assert(fo.deep_view() =~= fanouts.deep_view().subrange(0, i + 1));
                }
                i = i + 1;
            }
            proof {
                assert(fanouts.deep_view().subrange(0, fanouts@.len() as int) =~= fanouts.deep_view());
            }
            SamplingSpec::KHopNeighbor {
                fanouts: fo,
                edge_types: crate::feature::dup_strings(edge_types),
                replace: *replace,
            }
        },
    }
}

/// A copy of a dataframe set whose equality (by view) with the original is
/// known to verified callers.
pub fn dup_dfset(d: &DataFrameSet) -> (r: DataFrameSet)
    ensures
        r@ == d@,
{
    match d {
        DataFrameSet::Homo(t) => DataFrameSet::Homo(
            (t.0.clone(), crate::feature::dup_fields(&t.1)),
        ),
        DataFrameSet::Hetero(m) => DataFrameSet::Hetero(dup_buckets(m)),
    }
}

impl SingleGraph {
    /// The vertex data frame set this graph serves: one table when there
    /// is exactly one vertex type, one table per type otherwise.
    fn vertex_df_set(&self) -> (r: DataFrameSet)
        ensures
            r@ == (if self@.vertex_fvs.len() == 1 {
                DataFrameSetView::Homo(self@.vertex_fvs[0].1)
            } else {
                DataFrameSetView::Hetero(self@.vertex_fvs)
            }),
    {
        if self.vertex_fvs.len() == 1 {
            DataFrameSet::Homo(
                (self.vertex_fvs[0].1.0.clone(), crate::feature::dup_fields(&self.vertex_fvs[0].1.1)),
            )
        } else {
            DataFrameSet::Hetero(dup_buckets(&self.vertex_fvs))
        }
    }

    /// Vertices visited by random walks from every start vertex, walking
    /// `path.length` transitions weighted by the edge feature `prob`;
    /// `restart_prob` carries the per-hop early-termination probability in
    /// thousandths (absent means 0).  The node's column records the whole
    /// operation — probability column, hop count and restart list — as its
    /// descriptor, so an execution engine can recover it from the plan.
    pub fn random_walk(&self, ctx: &mut TransformationContext, path: RandomWalkPath, prob: &str, restart_prob: Option<Vec<u32>>) -> (df: DataFrame)
        requires
            old(ctx).next_data_id < DataIdT::MAX,
        ensures
            df.wf(),
            df@.id == old(ctx).next_data_id,
            df@.name == "random_walk"@,
            df@.entity_id is None,
            df@.schema.len() == 1,
            df@.schema[0].origin == self@.id,
            df@.schema[0].expr == Some(
                spec_walk_descriptor(
                    prob@,
                    path.length,
                    spec_restart_list(restart_prob.deep_view()),
                ),
            ),
            df@.schema[0].encoder is None,
            df@.schema[0].value_type == FeatureValueType::Array(
                Box::new(FeatureValueType::String),
            ),
            df@.col_names == seq!["walk"@],
            final(ctx).next_data_id == old(ctx).next_data_id + 1,
            final(ctx).data_vec.deep_view() == old(ctx).data_vec.deep_view().push(
                DataNodeView::DataFrame(df@),
            ),
            final(ctx).transformation == old(ctx).transformation,
    {
        let descriptor = walk_descriptor(prob, path.length, &restart_prob);
        computed_frame_node(
            self.context.id,
            ctx,
            "random_walk",
            "walk",
            Some(descriptor),
            FeatureValueType::Array(Box::new(FeatureValueType::String)),
        )
    }

    /// The edges traversed by the same walks, instead of the vertices.
    pub fn random_walk_edges(&self, ctx: &mut TransformationContext, path: RandomWalkPath, prob: &str, restart_prob: Option<Vec<u32>>) -> (df: DataFrame)
        requires
            old(ctx).next_data_id < DataIdT::MAX,
        ensures
            df.wf(),
            df@.id == old(ctx).next_data_id,
            df@.name == "random_walk_edges"@,
            df@.entity_id is None,
            df@.schema.len() == 1,
            df@.schema[0].origin == self@.id,
            df@.schema[0].expr == Some(
                spec_walk_descriptor(
                    prob@,
                    path.length,
                    spec_restart_list(restart_prob.deep_view()),
                ),
            ),
            df@.schema[0].encoder is None,
            df@.schema[0].value_type == FeatureValueType::Array(
                Box::new(FeatureValueType::String),
            ),
            df@.col_names == seq!["edges"@],
            final(ctx).next_data_id == old(ctx).next_data_id + 1,
            final(ctx).data_vec.deep_view() == old(ctx).data_vec.deep_view().push(
                DataNodeView::DataFrame(df@),
            ),
            final(ctx).transformation == old(ctx).transformation,
    {
        let descriptor = walk_descriptor(prob, path.length, &restart_prob);
        computed_frame_node(
            self.context.id,
            ctx,
            "random_walk_edges",
            "edges",
            Some(descriptor),
            FeatureValueType::Array(Box::new(FeatureValueType::String)),
        )
    }

    /// The same vertex set with one new feature column combining direct
    /// neighbors' features via `edge_type` (any type if absent) with
    /// `aggregator`.
    pub fn aggregate_neighbors(&self, ctx: &mut TransformationContext, edge_type: Option<String>, aggregator: Aggregator, output_col_name: String) -> (df: DataFrame)
        requires
            old(ctx).next_data_id < DataIdT::MAX,
        ensures
            df.wf(),
            df@.id == old(ctx).next_data_id,
            df@.name == "aggregate_neighbors"@,
            df@.entity_id is None,
            df@.schema.len() == 1,
            df@.schema[0].origin == self@.id,
            df@.schema[0].expr == Some(
                spec_aggregate_descriptor(aggregator, edge_type.deep_view()),
            ),
            df@.schema[0].encoder is None,
            df@.schema[0].value_type == spec_aggregate_type(aggregator),
            df@.col_names == seq![output_col_name@],
            final(ctx).next_data_id == old(ctx).next_data_id + 1,
            final(ctx).data_vec.deep_view() == old(ctx).data_vec.deep_view().push(
                DataNodeView::DataFrame(df@),
            ),
            final(ctx).transformation == old(ctx).transformation,
    {
        let vt = aggregate_type(&aggregator);
        let descriptor = aggregate_descriptor(&aggregator, &edge_type);
        computed_frame_node(
            self.context.id,
            ctx,
            "aggregate_neighbors",
            output_col_name.as_str(),
            Some(descriptor),
            vt,
        )
    }

    /// Repeats neighbor aggregation for `k` hops.  Each of `edge_types`
    /// and `aggregator` must have length 1 (broadcast) or exactly `k`
    /// (per-hop) — any other length, the empty list included, is a
    /// configuration error and leaves the context untouched.  The node's
    /// column records the hop count and the resolved per-hop lists.
    pub fn aggregate_k_hop_neighbors(&self, ctx: &mut TransformationContext, k: u32, edge_types: Vec<String>, aggregator: Vec<Aggregator>, output_col_name: String) -> (r: Result<DataFrame, GfsError>)
        requires
            old(ctx).next_data_id < DataIdT::MAX,
            k >= 1,
        ensures
            match r {
                Ok(df) => {
                    &&& (edge_types@.len() == 1 || edge_types@.len() == k)
                    &&& (aggregator@.len() == 1 || aggregator@.len() == k)
                    &&& df.wf()
                    &&& df@.id == old(ctx).next_data_id
                    &&& df@.name == "aggregate_k_hop_neighbors"@
                    &&& df@.entity_id is None
                    &&& df@.schema.len() == 1
                    &&& df@.schema[0].origin == self@.id
                    &&& df@.schema[0].expr == Some(
                        spec_k_hop_aggregate_descriptor(
                            k,
                            spec_per_hop_aggs(k, aggregator.deep_view()),
                            spec_per_hop_strs(k, edge_types.deep_view()),
                        ),
                    )
                    &&& df@.schema[0].encoder is None
                    &&& df@.schema[0].value_type == spec_aggregate_type(
                        aggregator@[aggregator@.len() - 1],
                    )
                    &&& df@.col_names == seq![output_col_name@]
                    &&& final(ctx).next_data_id == old(ctx).next_data_id + 1
                    &&& final(ctx).data_vec.deep_view() == old(ctx).data_vec.deep_view().push(
                        DataNodeView::DataFrame(df@),
                    )
                    &&& final(ctx).transformation == old(ctx).transformation
                },
                Err(e) => {
                    &&& e == GfsError::ConfigurationError
                    &&& ((edge_types@.len() != 1 && edge_types@.len() != k) || (aggregator@.len()
                        != 1 && aggregator@.len() != k))
                    &&& final(ctx).next_data_id == old(ctx).next_data_id
                    &&& final(ctx).data_vec == old(ctx).data_vec
                    &&& final(ctx).transformation == old(ctx).transformation
                },
            },
    {
        let resolved_types = resolve_per_hop_edge_types(k, &edge_types)?;
        let per_hop = broadcast_per_hop_aggregators(k, &aggregator)?;
        proof {
            assert(per_hop.deep_view().len() == per_hop@.len());
            if aggregator@.len() == 1 {
                assert(per_hop.deep_view().len() == k);
            } else {
                assert(per_hop.deep_view().len() == aggregator@.len());
            }
        }
        let last = per_hop[per_hop.len() - 1];
        proof {
            let li = per_hop@.len() - 1;
            assert(per_hop@[li].deep_view() == per_hop.deep_view()[li]);
            if aggregator@.len() == 1 {
                assert(per_hop.deep_view()[li] == aggregator@[0]);
            } else {
                assert(per_hop.deep_view()[li] == aggregator.deep_view()[aggregator@.len() - 1]);
                assert(aggregator@[aggregator@.len() - 1].deep_view() == aggregator.deep_view()[aggregator@.len() - 1]);
            }
            assert(last == aggregator@[aggregator@.len() - 1]);
        }
        let vt = aggregate_type(&last);
        let names = agg_names(&per_hop);
        let joined_aggs = join_comma(&names);
        let joined_types = join_comma(&resolved_types);
        let mut descriptor = String::from_str("aggregate_k_hop(");
        let num = crate::codec::fmt_u64(k as u64);
        descriptor.append(num.as_str());
        descriptor.append(";");
        descriptor.append(joined_aggs.as_str());
        descriptor.append(";");
        descriptor.append(joined_types.as_str());
        descriptor.append(")");
        proof {
            reveal_strlit(";");
            reveal_strlit(")");
            assert(per_hop.deep_view() =~= spec_per_hop_aggs(k, aggregator.deep_view()));
            assert(resolved_types.deep_view() =~= spec_per_hop_strs(k, edge_types.deep_view()));
            assert(descriptor@ =~= spec_k_hop_aggregate_descriptor(
                k,
                spec_per_hop_aggs(k, aggregator.deep_view()),
                spec_per_hop_strs(k, edge_types.deep_view()),
            ));
        }
        let df = computed_frame_node(
            self.context.id,
            ctx,
            "aggregate_k_hop_neighbors",
            output_col_name.as_str(),
            Some(descriptor),
            vt,
        );
        Ok(df)
    }

    /// Up to `fanout` neighbors drawn per vertex along `edge_type` (any
    /// type if absent), with or without replacement: a sampling selection
    /// node over this graph's vertices.
    pub fn sample_neighbors(&self, ctx: &mut TransformationContext, fanout: u32, edge_type: Option<String>, replace: bool) -> (g: VertexSelectGraph)
        requires
            old(ctx).next_data_id < DataIdT::MAX,
        ensures
            g@.id == old(ctx).next_data_id,
            g@.graph == self@.id,
            g@.selector == SelectorView::Sampling(
                SamplingSpecView::Neighbor {
                    fanout: fanout,
                    edge_type: edge_type.deep_view(),
                    replace: replace,
                },
            ),
            final(ctx).next_data_id == old(ctx).next_data_id + 1,
            final(ctx).data_vec.deep_view() == old(ctx).data_vec.deep_view().push(
                DataNodeView::VertexSelect(g@),
            ),
            final(ctx).transformation == old(ctx).transformation,
    {
        let df = self.vertex_df_set();
        sampling_node(
            self.context.id,
            ctx,
            SamplingSpec::Neighbor { fanout, edge_type, replace },
            df,
        )
    }

    /// Iterated neighbor sampling for `k` hops, under the same
    /// broadcast-or-per-hop length rule as aggregation: each given list
    /// must have length 1 or exactly `k` — any other length is a
    /// configuration error and leaves the context untouched.  An absent
    /// edge-type list means every edge type is traversed.
    pub fn sample_k_hop_neighbors(&self, ctx: &mut TransformationContext, k: u32, fanouts: Vec<u32>, edge_types: Option<Vec<String>>, replace: bool) -> (r: Result<VertexSelectGraph, GfsError>)
        requires
            old(ctx).next_data_id < DataIdT::MAX,
            k >= 1,
        ensures
            match r {
                Ok(g) => {
                    &&& (fanouts@.len() == 1 || fanouts@.len() == k)
                    &&& (edge_types matches Some(v) ==> v@.len() == 1 || v@.len() == k)
                    &&& g@.id == old(ctx).next_data_id
                    &&& g@.graph == self@.id
                    &&& (g@.selector matches SelectorView::Sampling(
                        SamplingSpecView::KHopNeighbor { fanouts: f, edge_types: e, replace: rp },
                    ) && f == spec_per_hop_u32s(k, fanouts.deep_view()) && e == (
                    match edge_types {
                        Some(v) => spec_per_hop_strs(k, v.deep_view()),
                        None => Seq::<Seq<char>>::empty(),
                    }) && rp == replace)
                    &&& g@.df == (if self@.vertex_fvs.len() == 1 {
                        crate::transformation::graph::select::DataFrameSetView::Homo(
                            self@.vertex_fvs[0].1,
                        )
                    } else {
                        crate::transformation::graph::select::DataFrameSetView::Hetero(
                            self@.vertex_fvs,
                        )
                    })
                    &&& final(ctx).next_data_id == old(ctx).next_data_id + 1
                    &&& final(ctx).data_vec.deep_view() == old(ctx).data_vec.deep_view().push(
                        DataNodeView::VertexSelect(g@),
                    )
                    &&& final(ctx).transformation == old(ctx).transformation
                },
                Err(e) => {
                    &&& e == GfsError::ConfigurationError
                    &&& ((fanouts@.len() != 1 && fanouts@.len() != k) || (edge_types matches Some(
                        v,
                    ) && v@.len() != 1 && v@.len() != k))
                    &&& final(ctx).next_data_id == old(ctx).next_data_id
                    &&& final(ctx).data_vec == old(ctx).data_vec
                    &&& final(ctx).transformation == old(ctx).transformation
                },
            },
    {
        let per_hop_fanouts = broadcast_per_hop_u32s(k, &fanouts)?;
        let per_hop_types = match &edge_types {
            Some(ts) => resolve_per_hop_edge_types(k, ts)?,
            None => Vec::new(),
        };
        proof {
            match edge_types {
                Some(v) => {},
                None => {
                    assert(per_hop_types.deep_view() =~= Seq::<Seq<char>>::empty());
                },
            }
        }
        let df = self.vertex_df_set();
        let g = sampling_node(
            self.context.id,
            ctx,
            SamplingSpec::KHopNeighbor {
                fanouts: per_hop_fanouts,
                edge_types: per_hop_types,
                replace,
            },
            df,
        );
        Ok(g)
    }
}

} // verus!
