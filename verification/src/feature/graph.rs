//! Logical schema subsets and pure connectivity data.

use crate::feature::feature_view::{
    lemma_rd_opt_topology_type, rd_opt_topology_type, read_opt_topology_type,
    toks_opt_topology_type, write_opt_topology_type, TopologyType,
};
use crate::feature::{Entity, ResourceOp};
use crate::identity::{
    id_to_name, make_resource_id, opt_str_view, opt_view, spec_name_in_id, spec_resource_id,
    two_slashes,
};
use crate::record::{
    rd_opt_i64, rd_opt_str, rd_pairs, rd_str, rd_strs, toks_opt_i64, toks_opt_str, toks_pairs,
    toks_str, toks_strs, write_opt_i64, write_opt_str, write_pairs, write_str, write_strs,
};
use crate::GfsError;
use crate::ResourceId;
use vstd::prelude::*;
use vstd::string::*;

verus! {

/// A named set of entity ids forming a logical schema subset.
#[derive(Debug, PartialEq, Eq)]
pub struct Graph {
    pub name: String,
    pub variant: Option<String>,
    pub description: Option<String>,
    pub entity_ids: Vec<ResourceId>,
    pub tags: Vec<(String, String)>,
    pub owners: Vec<String>,
}

pub ghost struct GraphView {
    pub name: Seq<char>,
    pub variant: Option<Seq<char>>,
    pub description: Option<Seq<char>>,
    pub entity_ids: Seq<Seq<char>>,
    pub tags: Seq<(Seq<char>, Seq<char>)>,
    pub owners: Seq<Seq<char>>,
}

impl DeepView for Graph {
    type V = GraphView;

    open spec fn deep_view(&self) -> GraphView {
        self.view()
    }
}

impl View for Graph {
    type V = GraphView;

    open spec fn view(&self) -> GraphView {
        GraphView {
            name: self.name@,
            variant: self.variant.deep_view(),
            description: self.description.deep_view(),
            entity_ids: self.entity_ids.deep_view(),
            tags: self.tags.deep_view(),
            owners: self.owners.deep_view(),
        }
    }
}

pub open spec fn spec_graph_id(v: GraphView) -> Seq<char> {
    spec_resource_id("Graph"@, v.name, opt_view(v.variant))
}

pub open spec fn spec_graph_tokens(v: GraphView) -> Seq<Seq<char>> {
    toks_str(v.name) + toks_opt_str(v.variant) + toks_opt_str(v.description) + toks_strs(
        v.entity_ids,
    ) + toks_pairs(v.tags) + toks_strs(v.owners)
}

pub open spec fn rd_graph(ts: Seq<Seq<char>>, pos: int) -> Option<(GraphView, int)> {
    match rd_str(ts, pos) {
        None => None,
        Some((name, p1)) => match rd_opt_str(ts, p1) {
            None => None,
            Some((variant, p2)) => match rd_opt_str(ts, p2) {
                None => None,
                Some((desc, p3)) => match rd_strs(ts, p3) {
                    None => None,
                    Some((eids, p4)) => match rd_pairs(ts, p4) {
                        None => None,
                        Some((tags, p5)) => match rd_strs(ts, p5) {
                            None => None,
                            Some((owners, p6)) => Some(
                                (
                                    GraphView {
                                        name,
                                        variant,
                                        description: desc,
                                        entity_ids: eids,
                                        tags,
                                        owners,
                                    },
                                    p6,
                                ),
                            ),
                        },
                    },
                },
            },
        },
    }
}

impl ResourceOp for Graph {
    open spec fn id_wf(&self) -> bool {
        true
    }

    open spec fn spec_id(&self) -> Seq<char> {
        spec_graph_id(self@)
    }

    open spec fn spec_tokens(&self) -> Seq<Seq<char>> {
        spec_graph_tokens(self@)
    }

    open spec fn spec_id_to_name(id: Seq<char>) -> Seq<char> {
        spec_name_in_id(id)
    }

    fn resource_id(&self) -> (r: ResourceId) {
        let r = make_resource_id("Graph", self.name.as_str(), &self.variant);
        proof {
            assert(opt_str_view(self.variant) == opt_view(self@.variant));
        }
        r
    }

    fn to_tokens(&self) -> (toks: Vec<String>) {
        let mut out: Vec<String> = Vec::new();
        write_str(&mut out, self.name.as_str());
        write_opt_str(&mut out, &self.variant);
        write_opt_str(&mut out, &self.description);
        write_strs(&mut out, &self.entity_ids);
        write_pairs(&mut out, &self.tags);
        write_strs(&mut out, &self.owners);
        proof {
            assert(out.deep_view() =~= spec_graph_tokens(self@));
        }
        out
    }

    fn id_to_name(id: &str) -> (r: String) {
        id_to_name(id)
    }
}

impl Graph {
    /// Decodes a graph from its token list.  Mirrors [`rd_graph`].
    pub(crate) fn from_tokens(ts: &Vec<String>, pos: usize) -> (r: Result<
        (Graph, usize),
        GfsError,
    >)
        ensures
            match r {
                Ok((g, p)) => rd_graph(ts.deep_view(), pos as int) == Some((g@, p as int)),
                Err(e) => e == GfsError::DecodeError && rd_graph(ts.deep_view(), pos as int)
                    == None::<(GraphView, int)>,
            },
    {
        let (name, p1) = crate::record::read_str(ts, pos)?;
        let (variant, p2) = crate::record::read_opt_str(ts, p1)?;
        let (description, p3) = crate::record::read_opt_str(ts, p2)?;
        let (entity_ids, p4) = crate::record::read_strs(ts, p3)?;
        let (tags, p5) = crate::record::read_pairs(ts, p4)?;
        let (owners, p6) = crate::record::read_strs(ts, p5)?;
        Ok((Graph { name, variant, description, entity_ids, tags, owners }, p6))
    }

    /// A new graph over the given entities, with no description and empty
    /// tags and owners.
    pub fn new(name: &str, variant: Option<String>, entities: Vec<&Entity>) -> (r: Graph)
        ensures
            r@.name == name@,
            r@.variant == variant.deep_view(),
            r@.description is None,
            r@.entity_ids.len() == entities@.len(),
            forall|i: int|
                0 <= i < entities@.len() ==> #[trigger] r@.entity_ids[i]
                    == crate::feature::spec_entity_id(entities@[i]@),
            r@.tags.len() == 0,
            r@.owners.len() == 0,
    {
        let mut entity_ids: Vec<String> = Vec::new();
        let mut i: usize = 0;
        while i < entities.len()
            invariant
                i <= entities@.len(),
                entity_ids.deep_view().len() == i,
                forall|k: int|
                    0 <= k < i ==> #[trigger] entity_ids.deep_view()[k]
                        == crate::feature::spec_entity_id(entities@[k]@),
            decreases entities.len() - i,
        {
            let ghost prev = entity_ids.deep_view();
            let id = entities[i].resource_id();
            let ghost idv = id@;
            entity_ids.push(id);
            proof {
                assert(entity_ids.deep_view() =~= prev.push(idv));
            }
            i = i + 1;
        }
        Graph {
            name: String::from_str(name),
            variant,
            description: None,
            entity_ids,
            tags: Vec::new(),
            owners: Vec::new(),
        }
    }
}

/// Token round trip for graphs.
#[verifier::rlimit(50)]
pub proof fn lemma_graph_round_trip(v: GraphView)
    requires
        v.entity_ids.len() <= u64::MAX,
        v.tags.len() <= u64::MAX,
        v.owners.len() <= u64::MAX,
    ensures
        rd_graph(spec_graph_tokens(v), 0) == Some((v, spec_graph_tokens(v).len() as int)),
{
    let ts = spec_graph_tokens(v);
    let ta = toks_str(v.name);
    let tb = toks_opt_str(v.variant);
    let tc = toks_opt_str(v.description);
    let td = toks_strs(v.entity_ids);
    let te = toks_pairs(v.tags);
    let tf = toks_strs(v.owners);
    let p1 = ta.len() as int;
    let p2 = p1 + tb.len();
    let p3 = p2 + tc.len();
    let p4 = p3 + td.len();
    let p5 = p4 + te.len();
    let p6 = p5 + tf.len();
    crate::record::lemma_flat_pairs_index(v.tags);
    assert(ts.len() == p6);
    assert(ts[0] == v.name);
    assert(rd_str(ts, 0) == Some((v.name, p1)));
    assert forall|i: int| 0 <= i < tb.len() implies ts[p1 + i] == #[trigger] tb[i] by {}
    crate::record::lemma_rd_opt_str(ts, p1, v.variant);
    assert forall|i: int| 0 <= i < tc.len() implies ts[p2 + i] == #[trigger] tc[i] by {}
    crate::record::lemma_rd_opt_str(ts, p2, v.description);
    assert(ts[p3] == crate::codec::dec_digits(v.entity_ids.len()));
    assert forall|i: int|
        0 <= i < v.entity_ids.len() implies ts[p3 + 1 + i] == #[trigger] v.entity_ids[i] by {
        assert(ts[p3 + 1 + i] == toks_strs(v.entity_ids)[1 + i]);
    }
    crate::record::lemma_rd_strs(ts, p3, v.entity_ids);
    assert(ts[p4] == crate::codec::dec_digits(v.tags.len()));
    assert forall|i: int|
        0 <= i < v.tags.len() implies ts[p4 + 1 + 2 * i] == (#[trigger] v.tags[i]).0 && ts[p4 + 1
        + 2 * i + 1] == v.tags[i].1 by {
        assert(ts[p4 + 1 + 2 * i] == crate::record::flat_pairs(v.tags)[2 * i]);
        assert(ts[p4 + 1 + 2 * i + 1] == crate::record::flat_pairs(v.tags)[2 * i + 1]);
    }
    crate::record::lemma_rd_pairs(ts, p4, v.tags);
    assert(ts[p5] == crate::codec::dec_digits(v.owners.len()));
    assert forall|i: int| 0 <= i < v.owners.len() implies ts[p5 + 1 + i] == #[trigger] v.owners[i]
    by {
        assert(ts[p5 + 1 + i] == toks_strs(v.owners)[1 + i]);
    }
    crate::record::lemma_rd_strs(ts, p5, v.owners);
}

/// Pure connectivity data, independent of attribute values.  The edge entity
/// id list is empty for an anonymous topology.
#[derive(Debug, PartialEq, Eq)]
pub struct Topology {
    pub name: String,
    /// Id of the transformation this topology originated from, if any.
    pub transformation_id: Option<String>,
    /// Absent while the topology only lives in the native graph database.
    pub topology_type: Option<TopologyType>,
    pub edge_entity_ids: Vec<ResourceId>,
    pub variant: Option<String>,
    pub description: Option<String>,
    /// Seconds since the Unix epoch.
    pub created_at: Option<i64>,
    pub tags: Vec<(String, String)>,
    pub owners: Vec<String>,
}

pub ghost struct TopologyView {
    pub name: Seq<char>,
    pub transformation_id: Option<Seq<char>>,
    pub topology_type: Option<TopologyType>,
    pub edge_entity_ids: Seq<Seq<char>>,
    pub variant: Option<Seq<char>>,
    pub description: Option<Seq<char>>,
    pub created_at: Option<i64>,
    pub tags: Seq<(Seq<char>, Seq<char>)>,
    pub owners: Seq<Seq<char>>,
}

impl DeepView for Topology {
    type V = TopologyView;

    open spec fn deep_view(&self) -> TopologyView {
        self.view()
    }
}

impl View for Topology {
    type V = TopologyView;

    open spec fn view(&self) -> TopologyView {
        TopologyView {
            name: self.name@,
            transformation_id: self.transformation_id.deep_view(),
            topology_type: self.topology_type,
            edge_entity_ids: self.edge_entity_ids.deep_view(),
            variant: self.variant.deep_view(),
            description: self.description.deep_view(),
            created_at: self.created_at,
            tags: self.tags.deep_view(),
            owners: self.owners.deep_view(),
        }
    }
}

pub open spec fn spec_topology_id(v: TopologyView) -> Seq<char> {
    spec_resource_id("Topology"@, v.name, opt_view(v.variant))
}

pub open spec fn spec_topology_tokens(v: TopologyView) -> Seq<Seq<char>> {
    toks_str(v.name) + toks_opt_str(v.transformation_id) + toks_opt_topology_type(v.topology_type)
        + toks_strs(v.edge_entity_ids) + toks_opt_str(v.variant) + toks_opt_str(v.description)
        + toks_opt_i64(v.created_at) + toks_pairs(v.tags) + toks_strs(v.owners)
}

pub open spec fn rd_topology(ts: Seq<Seq<char>>, pos: int) -> Option<(TopologyView, int)> {
    match rd_str(ts, pos) {
        None => None,
        Some((name, p1)) => match rd_opt_str(ts, p1) {
            None => None,
            Some((tid, p2)) => match rd_opt_topology_type(ts, p2) {
                None => None,
                Some((tt, p3)) => match rd_strs(ts, p3) {
                    None => None,
                    Some((eids, p4)) => match rd_opt_str(ts, p4) {
                        None => None,
                        Some((variant, p5)) => match rd_opt_str(ts, p5) {
                            None => None,
                            Some((desc, p6)) => match rd_opt_i64(ts, p6) {
                                None => None,
                                Some((ca, p7)) => match rd_pairs(ts, p7) {
                                    None => None,
                                    Some((tags, p8)) => match rd_strs(ts, p8) {
                                        None => None,
                                        Some((owners, p9)) => Some(
                                            (
                                                TopologyView {
                                                    name,
                                                    transformation_id: tid,
                                                    topology_type: tt,
                                                    edge_entity_ids: eids,
                                                    variant,
                                                    description: desc,
                                                    created_at: ca,
                                                    tags,
                                                    owners,
                                                },
                                                p9,
                                            ),
                                        ),
                                    },
                                },
                            },
                        },
                    },
                },
            },
        },
    }
}

impl ResourceOp for Topology {
    open spec fn id_wf(&self) -> bool {
        true
    }

    open spec fn spec_id(&self) -> Seq<char> {
        spec_topology_id(self@)
    }

    open spec fn spec_tokens(&self) -> Seq<Seq<char>> {
        spec_topology_tokens(self@)
    }

    open spec fn spec_id_to_name(id: Seq<char>) -> Seq<char> {
        spec_name_in_id(id)
    }

    fn resource_id(&self) -> (r: ResourceId) {
        let r = make_resource_id("Topology", self.name.as_str(), &self.variant);
        proof {
            assert(opt_str_view(self.variant) == opt_view(self@.variant));
        }
        r
    }

    fn to_tokens(&self) -> (toks: Vec<String>) {
        let mut out: Vec<String> = Vec::new();
        write_str(&mut out, self.name.as_str());
        write_opt_str(&mut out, &self.transformation_id);
        write_opt_topology_type(&mut out, &self.topology_type);
        write_strs(&mut out, &self.edge_entity_ids);
        write_opt_str(&mut out, &self.variant);
        write_opt_str(&mut out, &self.description);
        write_opt_i64(&mut out, &self.created_at);
        write_pairs(&mut out, &self.tags);
        write_strs(&mut out, &self.owners);
        proof {
            assert(out.deep_view() =~= spec_topology_tokens(self@));
        }
        out
    }

    fn id_to_name(id: &str) -> (r: String) {
        id_to_name(id)
    }
}

impl Topology {
    /// Decodes a topology from its token list.  Mirrors [`rd_topology`].
    pub(crate) fn from_tokens(ts: &Vec<String>, pos: usize) -> (r: Result<
        (Topology, usize),
        GfsError,
    >)
        ensures
            match r {
                Ok((t, p)) => rd_topology(ts.deep_view(), pos as int) == Some((t@, p as int)),
                Err(e) => e == GfsError::DecodeError && rd_topology(ts.deep_view(), pos as int)
                    == None::<(TopologyView, int)>,
            },
    {
        let (name, p1) = crate::record::read_str(ts, pos)?;
        let (transformation_id, p2) = crate::record::read_opt_str(ts, p1)?;
        let (topology_type, p3) = read_opt_topology_type(ts, p2)?;
        let (edge_entity_ids, p4) = crate::record::read_strs(ts, p3)?;
        let (variant, p5) = crate::record::read_opt_str(ts, p4)?;
        let (description, p6) = crate::record::read_opt_str(ts, p5)?;
        let (created_at, p7) = crate::record::read_opt_i64(ts, p6)?;
        let (tags, p8) = crate::record::read_pairs(ts, p7)?;
        let (owners, p9) = crate::record::read_strs(ts, p8)?;
        Ok(
            (
                Topology {
                    name,
                    transformation_id,
                    topology_type,
                    edge_entity_ids,
                    variant,
                    description,
                    created_at,
                    tags,
                    owners,
                },
                p9,
            ),
        )
    }
}

/// Token round trip for topologies.
#[verifier::rlimit(50)]
pub proof fn lemma_topology_round_trip(v: TopologyView)
    requires
        v.edge_entity_ids.len() <= u64::MAX,
        v.tags.len() <= u64::MAX,
        v.owners.len() <= u64::MAX,
    ensures
        rd_topology(spec_topology_tokens(v), 0) == Some(
            (v, spec_topology_tokens(v).len() as int),
        ),
{
    let ts = spec_topology_tokens(v);
    let ta = toks_str(v.name);
    let tb = toks_opt_str(v.transformation_id);
    let tc = toks_opt_topology_type(v.topology_type);
    let td = toks_strs(v.edge_entity_ids);
    let te = toks_opt_str(v.variant);
    let tf = toks_opt_str(v.description);
    let tg = toks_opt_i64(v.created_at);
    let th = toks_pairs(v.tags);
    let ti = toks_strs(v.owners);
    let p1 = ta.len() as int;
    let p2 = p1 + tb.len();
    let p3 = p2 + tc.len();
    let p4 = p3 + td.len();
    let p5 = p4 + te.len();
    let p6 = p5 + tf.len();
    let p7 = p6 + tg.len();
    let p8 = p7 + th.len();
    let p9 = p8 + ti.len();
    crate::record::lemma_flat_pairs_index(v.tags);
    assert(ts.len() == p9);
    assert(ts[0] == v.name);
    assert(rd_str(ts, 0) == Some((v.name, p1)));
    assert forall|i: int| 0 <= i < tb.len() implies ts[p1 + i] == #[trigger] tb[i] by {}
    crate::record::lemma_rd_opt_str(ts, p1, v.transformation_id);
    assert forall|i: int| 0 <= i < tc.len() implies ts[p2 + i] == #[trigger] tc[i] by {}
    lemma_rd_opt_topology_type(ts, p2, v.topology_type);
    assert(ts[p3] == crate::codec::dec_digits(v.edge_entity_ids.len()));
    assert forall|i: int|
        0 <= i < v.edge_entity_ids.len() implies ts[p3 + 1 + i] == #[trigger] v.edge_entity_ids[i]
    by {
        assert(ts[p3 + 1 + i] == toks_strs(v.edge_entity_ids)[1 + i]);
    }
    crate::record::lemma_rd_strs(ts, p3, v.edge_entity_ids);
    assert forall|i: int| 0 <= i < te.len() implies ts[p4 + i] == #[trigger] te[i] by {}
    crate::record::lemma_rd_opt_str(ts, p4, v.variant);
    assert forall|i: int| 0 <= i < tf.len() implies ts[p5 + i] == #[trigger] tf[i] by {}
    crate::record::lemma_rd_opt_str(ts, p5, v.description);
    assert forall|i: int| 0 <= i < tg.len() implies ts[p6 + i] == #[trigger] tg[i] by {}
    crate::record::lemma_rd_opt_i64(ts, p6, v.created_at);
    assert(ts[p7] == crate::codec::dec_digits(v.tags.len()));
    assert forall|i: int|
        0 <= i < v.tags.len() implies ts[p7 + 1 + 2 * i] == (#[trigger] v.tags[i]).0 && ts[p7 + 1
        + 2 * i + 1] == v.tags[i].1 by {
        assert(ts[p7 + 1 + 2 * i] == crate::record::flat_pairs(v.tags)[2 * i]);
        assert(ts[p7 + 1 + 2 * i + 1] == crate::record::flat_pairs(v.tags)[2 * i + 1]);
    }
    crate::record::lemma_rd_pairs(ts, p7, v.tags);
    assert(ts[p8] == crate::codec::dec_digits(v.owners.len()));
    assert forall|i: int| 0 <= i < v.owners.len() implies ts[p8 + 1 + i] == #[trigger] v.owners[i]
    by {
        assert(ts[p8 + 1 + i] == toks_strs(v.owners)[1 + i]);
    }
    crate::record::lemma_rd_strs(ts, p8, v.owners);
}

} // verus!
