//! The lineage snapshot: a deterministic serialization of a context's
//! counter and node list, in construction order, stored as a
//! transformation's body for audit.

use crate::codec::{dec_digits, enc_toks, encode_tokens};
use crate::feature::{
    toks_opt_topology_type, toks_value_type, write_opt_topology_type, write_value_type, Field,
    FieldView,
};
use crate::record::{
    toks_bool, toks_opt_str, toks_pairs, toks_strs, write_bool, write_opt_str, write_pairs,
    write_str, write_strs, write_u64,
};
use crate::transformation::built_in_fns::{SamplingSpec, SamplingSpecView};
use crate::transformation::dataframe::ColumnView;
use crate::transformation::graph::select::{
    DataFrameSet, DataFrameSetView, Selector, SelectorView,
};
use crate::transformation::graph::single_graph::{Bucket, BucketView};
use crate::transformation::transformation_context::{DataNode, DataNodeView};
use crate::transformation::DataIdT;
use vstd::prelude::*;
use vstd::string::*;

verus! {

/// Pushes one literal token.
fn push_tok(out: &mut Vec<String>, s: &str)
    ensures
        final(out).deep_view() == old(out).deep_view() + seq![s@],
{
    out.push(String::from_str(s));
    proof {
        assert(out.deep_view() =~= old(out).deep_view() + seq![s@]);
    }
}

/// The (name, entity id) pair of each field, the summary the snapshot
/// keeps of resolved field lists.
pub open spec fn field_pairs(fs: Seq<FieldView>) -> Seq<(Seq<char>, Seq<char>)> {
    Seq::new(fs.len(), |i: int| (fs[i].name, fs[i].entity_id))
}

pub open spec fn toks_fields_summary(fs: Seq<FieldView>) -> Seq<Seq<char>> {
    toks_pairs(field_pairs(fs))
}

fn write_fields_summary(out: &mut Vec<String>, fs: &Vec<Field>)
    ensures
        final(out).deep_view() == old(out).deep_view() + toks_fields_summary(fs.deep_view()),
{
    let mut pairs: Vec<(String, String)> = Vec::new();
    let mut i: usize = 0;
    while i < fs.len()
        invariant
            i <= fs@.len(),
            pairs.deep_view() == field_pairs(fs.deep_view()).subrange(0, i as int),
        decreases fs@.len() - i,
    {
        let ghost prev = pairs.deep_view();
        pairs.push((fs[i].name.clone(), fs[i].entity_id.clone()));
        proof {
            assert(pairs.deep_view() =~= prev.push(field_pairs(fs.deep_view())[i as int]));
            assert(pairs.deep_view() =~= field_pairs(fs.deep_view()).subrange(0, i + 1));
        }
        i = i + 1;
    }
    proof {
        assert(field_pairs(fs.deep_view()).subrange(0, fs@.len() as int) =~= field_pairs(
            fs.deep_view(),
        ));
    }
    write_pairs(out, &pairs);
}

/// One bucket: its type label, view name and field summary.
pub open spec fn toks_bucket(b: BucketView) -> Seq<Seq<char>> {
    seq![b.0, b.1.0] + toks_fields_summary(b.1.1)
}

pub open spec fn flat_buckets(bs: Seq<BucketView>) -> Seq<Seq<char>>
    decreases bs.len(),
{
    if bs.len() == 0 {
        Seq::<Seq<char>>::empty()
    } else {
        toks_bucket(bs[0]) + flat_buckets(bs.drop_first())
    }
}

pub open spec fn toks_buckets(bs: Seq<BucketView>) -> Seq<Seq<char>> {
    seq![dec_digits(bs.len())] + flat_buckets(bs)
}

proof fn lemma_flat_buckets_snoc(bs: Seq<BucketView>, x: BucketView)
    ensures
        flat_buckets(bs.push(x)) == flat_buckets(bs) + toks_bucket(x),
    decreases bs.len(),
{
    if bs.len() == 0 {
        assert(bs.push(x)[0] == x);
        assert(bs.push(x).drop_first() =~= Seq::<BucketView>::empty());
        assert(flat_buckets(Seq::<BucketView>::empty()) =~= Seq::<Seq<char>>::empty());
        assert(flat_buckets(bs) =~= Seq::<Seq<char>>::empty());
        assert(flat_buckets(bs.push(x)) =~= flat_buckets(bs) + toks_bucket(x));
    } else {
        lemma_flat_buckets_snoc(bs.drop_first(), x);
        assert(bs.push(x)[0] == bs[0]);
        assert(bs.push(x).drop_first() =~= bs.drop_first().push(x));
        assert(flat_buckets(bs.push(x)) =~= flat_buckets(bs) + toks_bucket(x));
    }
}

fn write_buckets(out: &mut Vec<String>, v: &Vec<Bucket>)
    ensures
        final(out).deep_view() == old(out).deep_view() + toks_buckets(v.deep_view()),
{
    write_u64(out, v.len() as u64);
    let ghost base = out.deep_view();
    let mut i: usize = 0;
    proof {
        assert(flat_buckets(v.deep_view().subrange(0, 0)) =~= Seq::<Seq<char>>::empty()) by {
            assert(v.deep_view().subrange(0, 0) =~= Seq::<BucketView>::empty());
        }
        assert(base + Seq::<Seq<char>>::empty() =~= base);
    }
    while i < v.len()
        invariant
            i <= v@.len(),
            base == old(out).deep_view() + seq![dec_digits(v.deep_view().len())],
            out.deep_view() == base + flat_buckets(v.deep_view().subrange(0, i as int)),
        decreases v@.len() - i,
    {
        write_str(out, v[i].0.as_str());
        write_str(out, v[i].1.0.as_str());
        write_fields_summary(out, &v[i].1.1);
        proof {
            let prev = v.deep_view().subrange(0, i as int);
            let cur = v.deep_view().subrange(0, i + 1);
            lemma_flat_buckets_snoc(prev, v.deep_view()[i as int]);
            assert(cur =~= prev.push(v.deep_view()[i as int]));
            assert(out.deep_view() =~= base + flat_buckets(cur));
        }
        i = i + 1;
    }
    proof {
        assert(v.deep_view().subrange(0, v@.len() as int) =~= v.deep_view());
        assert(out.deep_view() =~= old(out).deep_view() + toks_buckets(v.deep_view()));
    }
}

pub open spec fn toks_u32s(v: Seq<u32>) -> Seq<Seq<char>> {
    seq![dec_digits(v.len())] + Seq::new(v.len(), |i: int| dec_digits(v[i] as nat))
}

fn write_u32s(out: &mut Vec<String>, v: &Vec<u32>)
    ensures
        final(out).deep_view() == old(out).deep_view() + toks_u32s(v.deep_view()),
{
    write_u64(out, v.len() as u64);
    let ghost base = out.deep_view();
    let ghost digits = Seq::new(v.deep_view().len(), |i: int| dec_digits(v.deep_view()[i] as nat));
    let mut i: usize = 0;
    proof {
        assert(base + digits.subrange(0, 0) =~= base);
    }
    while i < v.len()
        invariant
            i <= v@.len(),
            digits == Seq::new(v.deep_view().len(), |k: int| dec_digits(v.deep_view()[k] as nat)),
            base == old(out).deep_view() + seq![dec_digits(v.deep_view().len())],
            out.deep_view() == base + digits.subrange(0, i as int),
        decreases v@.len() - i,
    {
        write_u64(out, v[i] as u64);
        proof {
            assert(out.deep_view() =~= base + digits.subrange(0, i + 1));
        }
        i = i + 1;
    }
    proof {
        assert(digits.subrange(0, v@.len() as int) =~= digits);
        assert(out.deep_view() =~= old(out).deep_view() + toks_u32s(v.deep_view()));
    }
}

pub open spec fn toks_sampling(s: SamplingSpecView) -> Seq<Seq<char>> {
    match s {
        SamplingSpecView::Neighbor { fanout, edge_type, replace } => seq![seq!['1'], dec_digits(fanout as nat)]
            + toks_opt_str(edge_type) + toks_bool(replace),
        SamplingSpecView::KHopNeighbor { fanouts, edge_types, replace } => seq![seq!['k']]
            + toks_u32s(fanouts) + toks_strs(edge_types) + toks_bool(replace),
    }
}

fn write_sampling(out: &mut Vec<String>, s: &SamplingSpec)
    ensures
        final(out).deep_view() == old(out).deep_view() + toks_sampling(s@),
{
    proof {
        reveal_strlit("1");
        reveal_strlit("k");
        assert("1"@ =~= seq!['1']);
        assert("k"@ =~= seq!['k']);
    }
    match s {
        SamplingSpec::Neighbor { fanout, edge_type, replace } => {
            push_tok(out, "1");
            write_u64(out, *fanout as u64);
            write_opt_str(out, edge_type);
            write_bool(out, *replace);
            proof {
                assert(out.deep_view() =~= old(out).deep_view() + toks_sampling(s@));
            }
        },
        SamplingSpec::KHopNeighbor { fanouts, edge_types, replace } => {
            push_tok(out, "k");
            write_u32s(out, fanouts);
            write_strs(out, edge_types);
            write_bool(out, *replace);
            proof {
                assert(out.deep_view() =~= old(out).deep_view() + toks_sampling(s@));
            }
        },
    }
}

pub open spec fn toks_selector(s: SelectorView) -> Seq<Seq<char>>
    decreases s,
{
    match s {
        SelectorView::DirectAccess { ltype } => seq![seq!['d']] + toks_opt_str(ltype),
        SelectorView::Expression(e) => seq![seq!['x'], e.text],
        SelectorView::Sampling(sp) => seq![seq!['p']] + toks_sampling(sp),
        SelectorView::Union(a, b) => seq![seq!['u']] + toks_selector(*a) + toks_selector(*b),
    }
}

fn write_selector(out: &mut Vec<String>, s: &Selector)
    ensures
        final(out).deep_view() == old(out).deep_view() + toks_selector(s@),
    decreases s,
{
    proof {
        reveal_strlit("d");
        reveal_strlit("x");
        reveal_strlit("p");
        reveal_strlit("u");
        assert("d"@ =~= seq!['d']);
        assert("x"@ =~= seq!['x']);
        assert("p"@ =~= seq!['p']);
        assert("u"@ =~= seq!['u']);
    }
    match s {
        Selector::DirectAccess { ltype } => {
            push_tok(out, "d");
            write_opt_str(out, ltype);
            proof {
                assert(out.deep_view() =~= old(out).deep_view() + toks_selector(s@));
            }
        },
        Selector::Expression(e) => {
            push_tok(out, "x");
            let t = e.text_string();
            write_str(out, t.as_str());
            proof {
                assert(out.deep_view() =~= old(out).deep_view() + toks_selector(s@));
            }
        },
        Selector::Sampling(sp) => {
            push_tok(out, "p");
            write_sampling(out, sp);
            proof {
                assert(out.deep_view() =~= old(out).deep_view() + toks_selector(s@));
            }
        },
        Selector::Union(a, b) => {
            push_tok(out, "u");
            write_selector(out, a);
            write_selector(out, b);
            proof {
                assert(out.deep_view() =~= old(out).deep_view() + toks_selector(s@));
            }
        },
    }
}

pub open spec fn toks_dfset(d: DataFrameSetView) -> Seq<Seq<char>> {
    match d {
        DataFrameSetView::Homo(t) => seq![seq!['h'], t.0] + toks_fields_summary(t.1),
        DataFrameSetView::Hetero(bs) => seq![seq!['t']] + toks_buckets(bs),
    }
}

fn write_dfset(out: &mut Vec<String>, d: &DataFrameSet)
    ensures
        final(out).deep_view() == old(out).deep_view() + toks_dfset(d@),
{
    proof {
        reveal_strlit("h");
        reveal_strlit("t");
        assert("h"@ =~= seq!['h']);
        assert("t"@ =~= seq!['t']);
    }
    match d {
        DataFrameSet::Homo(t) => {
            push_tok(out, "h");
            write_str(out, t.0.as_str());
            write_fields_summary(out, &t.1);
            proof {
                assert(out.deep_view() =~= old(out).deep_view() + toks_dfset(d@));
            }
        },
        DataFrameSet::Hetero(bs) => {
            push_tok(out, "t");
            write_buckets(out, bs);
            proof {
                assert(out.deep_view() =~= old(out).deep_view() + toks_dfset(d@));
            }
        },
    }
}

/// One column: origin node, source expression, evaluator text and value
/// type.
pub open spec fn toks_column(c: ColumnView) -> Seq<Seq<char>> {
    seq![dec_digits(c.origin as nat)] + toks_opt_str(c.expr) + toks_opt_str(
        match c.encoder {
            Some(e) => Some(e.text),
            None => None,
        },
    ) + toks_value_type(c.value_type)
}

pub open spec fn flat_columns(cs: Seq<ColumnView>) -> Seq<Seq<char>>
    decreases cs.len(),
{
    if cs.len() == 0 {
        Seq::<Seq<char>>::empty()
    } else {
        toks_column(cs[0]) + flat_columns(cs.drop_first())
    }
}

pub open spec fn toks_columns(cs: Seq<ColumnView>) -> Seq<Seq<char>> {
    seq![dec_digits(cs.len())] + flat_columns(cs)
}

proof fn lemma_flat_columns_snoc(cs: Seq<ColumnView>, x: ColumnView)
    ensures
        flat_columns(cs.push(x)) == flat_columns(cs) + toks_column(x),
    decreases cs.len(),
{
    if cs.len() == 0 {
        assert(cs.push(x)[0] == x);
        assert(cs.push(x).drop_first() =~= Seq::<ColumnView>::empty());
        assert(flat_columns(Seq::<ColumnView>::empty()) =~= Seq::<Seq<char>>::empty());
        assert(flat_columns(cs) =~= Seq::<Seq<char>>::empty());
        assert(flat_columns(cs.push(x)) =~= flat_columns(cs) + toks_column(x));
    } else {
        lemma_flat_columns_snoc(cs.drop_first(), x);
        assert(cs.push(x)[0] == cs[0]);
        assert(cs.push(x).drop_first() =~= cs.drop_first().push(x));
        assert(flat_columns(cs.push(x)) =~= flat_columns(cs) + toks_column(x));
    }
}

fn write_columns(out: &mut Vec<String>, cs: &Vec<crate::transformation::dataframe::Column>)
    ensures
        final(out).deep_view() == old(out).deep_view() + toks_columns(cs.deep_view()),
{
    write_u64(out, cs.len() as u64);
    let ghost base = out.deep_view();
    let mut i: usize = 0;
    proof {
        assert(cs.deep_view().subrange(0, 0) =~= Seq::<ColumnView>::empty());
        assert(base + flat_columns(cs.deep_view().subrange(0, 0)) =~= base);
    }
    while i < cs.len()
        invariant
            i <= cs@.len(),
            base == old(out).deep_view() + seq![dec_digits(cs.deep_view().len())],
            out.deep_view() == base + flat_columns(cs.deep_view().subrange(0, i as int)),
        decreases cs@.len() - i,
    {
        write_u64(out, cs[i].origin as u64);
        write_opt_str(out, &cs[i].expr);
        let enc_text = match &cs[i].encoder {
            Some(e) => Some(e.text_string()),
            None => None,
        };
        write_opt_str(out, &enc_text);
        write_value_type(out, &cs[i].value_type);
        proof {
            let prev = cs.deep_view().subrange(0, i as int);
            let cur = cs.deep_view().subrange(0, i + 1);
            lemma_flat_columns_snoc(prev, cs.deep_view()[i as int]);
            assert(cur =~= prev.push(cs.deep_view()[i as int]));
            assert(out.deep_view() =~= base + flat_columns(cur));
        }
        i = i + 1;
    }
    proof {
        assert(cs.deep_view().subrange(0, cs@.len() as int) =~= cs.deep_view());
        assert(out.deep_view() =~= old(out).deep_view() + toks_columns(cs.deep_view()));
    }
}

/// One node: a kind tag, the node's id, and its defining parameters.
pub open spec fn toks_node(n: DataNodeView) -> Seq<Seq<char>> {
    match n {
        DataNodeView::SingleGraph(g) => seq![seq!['G'], dec_digits(g.id as nat)] + toks_buckets(
            g.vertex_fvs,
        ) + toks_buckets(g.edge_fvs) + toks_pairs(g.vertex_entities) + toks_pairs(g.edge_entities)
            + toks_opt_topology_type(g.topology_type),
        DataNodeView::VertexSelect(v) => seq![
            seq!['V'],
            dec_digits(v.id as nat),
            dec_digits(v.graph as nat),
        ] + toks_selector(v.selector) + toks_dfset(v.df),
        DataNodeView::EdgeSelect(v) => seq![
            seq!['E'],
            dec_digits(v.id as nat),
            dec_digits(v.graph as nat),
        ] + toks_selector(v.selector) + toks_dfset(v.df),
        DataNodeView::CypherGraph(c) => seq![
            seq!['Q'],
            dec_digits(c.id as nat),
            dec_digits(c.graph as nat),
            c.query,
        ],
        DataNodeView::DataFrame(d) => seq![seq!['D'], dec_digits(d.id as nat), d.name]
            + toks_opt_str(d.entity_id) + toks_columns(d.schema) + toks_strs(d.col_names),
        DataNodeView::CypherDataFrame(c) => seq![seq!['C'], dec_digits(c.id as nat), c.query],
    }
}

fn write_node(out: &mut Vec<String>, n: &DataNode)
    ensures
        final(out).deep_view() == old(out).deep_view() + toks_node(n@),
{
    proof {
        reveal_strlit("G");
        reveal_strlit("V");
        reveal_strlit("E");
        reveal_strlit("Q");
        reveal_strlit("D");
        reveal_strlit("C");
        assert("G"@ =~= seq!['G']);
        assert("V"@ =~= seq!['V']);
        assert("E"@ =~= seq!['E']);
        assert("Q"@ =~= seq!['Q']);
        assert("D"@ =~= seq!['D']);
        assert("C"@ =~= seq!['C']);
    }
    match n {
        DataNode::SingleGraph(g) => {
            push_tok(out, "G");
            write_u64(out, g.context.id as u64);
            write_buckets(out, &g.vertex_fvs);
            write_buckets(out, &g.edge_fvs);
            write_pairs(out, &g.vertex_entities);
            write_pairs(out, &g.edge_entities);
            write_opt_topology_type(out, &g.topology_type);
            proof {
                assert(out.deep_view() =~= old(out).deep_view() + toks_node(n@));
            }
        },
        DataNode::VertexSelect(v) => {
            push_tok(out, "V");
            write_u64(out, v.context.id as u64);
            write_u64(out, v.graph as u64);
            write_selector(out, &v.selector);
            write_dfset(out, &v.df);
            proof {
                assert(out.deep_view() =~= old(out).deep_view() + toks_node(n@));
            }
        },
        DataNode::EdgeSelect(v) => {
            push_tok(out, "E");
            write_u64(out, v.context.id as u64);
            write_u64(out, v.graph as u64);
            write_selector(out, &v.selector);
            write_dfset(out, &v.df);
            proof {
                assert(out.deep_view() =~= old(out).deep_view() + toks_node(n@));
            }
        },
        DataNode::CypherGraph(c) => {
            push_tok(out, "Q");
            write_u64(out, c.context.id as u64);
            write_u64(out, c.graph as u64);
            write_str(out, c.query.as_str());
            proof {
                assert(out.deep_view() =~= old(out).deep_view() + toks_node(n@));
            }
        },
        DataNode::DataFrame(d) => {
            push_tok(out, "D");
            write_u64(out, d.context.id as u64);
            write_str(out, d.name.as_str());
            write_opt_str(out, &d.entity_id);
            write_columns(out, &d.schema);
            write_strs(out, &d.col_names);
            proof {
                assert(out.deep_view() =~= old(out).deep_view() + toks_node(n@));
            }
        },
        DataNode::CypherDataFrame(c) => {
            push_tok(out, "C");
            write_u64(out, c.context.id as u64);
            write_str(out, c.query.as_str());
            proof {
                assert(out.deep_view() =~= old(out).deep_view() + toks_node(n@));
            }
        },
    }
}

pub open spec fn toks_nodes(ns: Seq<DataNodeView>) -> Seq<Seq<char>>
    decreases ns.len(),
{
    if ns.len() == 0 {
        Seq::<Seq<char>>::empty()
    } else {
        toks_node(ns[0]) + toks_nodes(ns.drop_first())
    }
}

proof fn lemma_toks_nodes_snoc(ns: Seq<DataNodeView>, x: DataNodeView)
    ensures
        toks_nodes(ns.push(x)) == toks_nodes(ns) + toks_node(x),
    decreases ns.len(),
{
    if ns.len() == 0 {
        assert(ns.push(x)[0] == x);
        assert(ns.push(x).drop_first() =~= Seq::<DataNodeView>::empty());
        assert(toks_nodes(Seq::<DataNodeView>::empty()) =~= Seq::<Seq<char>>::empty());
        assert(toks_nodes(ns) =~= Seq::<Seq<char>>::empty());
        assert(toks_nodes(ns.push(x)) =~= toks_nodes(ns) + toks_node(x));
    } else {
        lemma_toks_nodes_snoc(ns.drop_first(), x);
        assert(ns.push(x)[0] == ns[0]);
        assert(ns.push(x).drop_first() =~= ns.drop_first().push(x));
        assert(toks_nodes(ns.push(x)) =~= toks_nodes(ns) + toks_node(x));
    }
}

/// The serialized lineage snapshot of a context: its id counter, node
/// count, and each node in construction order.
pub open spec fn spec_context_snapshot(next_data_id: DataIdT, ns: Seq<DataNodeView>) -> Seq<char> {
    enc_toks(seq![dec_digits(next_data_id as nat), dec_digits(ns.len())] + toks_nodes(ns))
}

/// Serializes a context's counter and node list.
pub fn snapshot_string(next_data_id: DataIdT, nodes: &Vec<DataNode>) -> (s: String)
    ensures
        s@ == spec_context_snapshot(next_data_id, nodes.deep_view()),
{
    let mut toks: Vec<String> = Vec::new();
    write_u64(&mut toks, next_data_id as u64);
    write_u64(&mut toks, nodes.len() as u64);
    let ghost base = toks.deep_view();
    let mut i: usize = 0;
    proof {
        assert(nodes.deep_view().subrange(0, 0) =~= Seq::<DataNodeView>::empty());
        assert(base + toks_nodes(nodes.deep_view().subrange(0, 0)) =~= base);
    }
    while i < nodes.len()
        invariant
            i <= nodes@.len(),
            base == Seq::<Seq<char>>::empty() + crate::record::toks_u64(next_data_id as u64)
                + crate::record::toks_u64(nodes.deep_view().len() as u64),
            toks.deep_view() == base + toks_nodes(nodes.deep_view().subrange(0, i as int)),
        decreases nodes@.len() - i,
    {
        write_node(&mut toks, &nodes[i]);
        proof {
            let prev = nodes.deep_view().subrange(0, i as int);
            let cur = nodes.deep_view().subrange(0, i + 1);
            lemma_toks_nodes_snoc(prev, nodes.deep_view()[i as int]);
            assert(cur =~= prev.push(nodes.deep_view()[i as int]));
            assert(toks.deep_view() =~= base + toks_nodes(cur));
        }
        i = i + 1;
    }
    proof {
        assert(nodes.deep_view().subrange(0, nodes@.len() as int) =~= nodes.deep_view());
        assert(toks.deep_view() =~= seq![
            dec_digits(next_data_id as nat),
            dec_digits(nodes.deep_view().len()),
        ] + toks_nodes(nodes.deep_view()));
    }
    encode_tokens(&toks)
}

} // verus!
