//! Serving views: tables of fields, and topology groups.

use crate::feature::ResourceOp;
use crate::identity::{
    id_to_name, make_resource_id, opt_str_view, opt_view, spec_name_in_id, spec_resource_id,
    two_slashes,
};
use crate::record::{
    rd_bool, rd_opt_i64, rd_opt_str, rd_pairs, rd_str, rd_strs, toks_bool, toks_opt_i64,
    toks_opt_str, toks_pairs, toks_str, toks_strs, write_bool, write_opt_i64, write_opt_str,
    write_pairs, write_str, write_strs,
};
use crate::GfsError;
use crate::ResourceId;
use vstd::prelude::*;
use vstd::string::*;

verus! {

/// A view groups fields (table) or topologies for serving.
#[derive(Debug, PartialEq, Eq)]
pub enum FeatureView {
    TableFeatureView(TableFeatureView),
    TopologyFeatureView(TopologyFeatureView),
}

pub ghost enum FeatureViewView {
    TableFeatureView(TableFeatureViewView),
    TopologyFeatureView(TopologyFeatureViewView),
}

impl View for FeatureView {
    type V = FeatureViewView;

    open spec fn view(&self) -> FeatureViewView {
        match self {
            FeatureView::TableFeatureView(t) => FeatureViewView::TableFeatureView(t@),
            FeatureView::TopologyFeatureView(t) => FeatureViewView::TopologyFeatureView(t@),
        }
    }
}

impl DeepView for FeatureView {
    type V = FeatureViewView;

    open spec fn deep_view(&self) -> FeatureViewView {
        self.view()
    }
}

/// A serving view over the fields of one entity.
#[derive(Debug, PartialEq, Eq)]
pub struct TableFeatureView {
    pub name: String,
    pub variant: Option<String>,
    /// The owning entity's resource id.
    pub entity_id: ResourceId,
    /// Resource ids of the served fields.
    pub field_ids: Vec<ResourceId>,
    pub online: bool,
    pub description: Option<String>,
    /// Seconds since the Unix epoch.
    pub created_at: Option<i64>,
    /// Seconds since the Unix epoch.
    pub updated_at: Option<i64>,
    pub tags: Vec<(String, String)>,
    pub owner: Option<String>,
}

pub ghost struct TableFeatureViewView {
    pub name: Seq<char>,
    pub variant: Option<Seq<char>>,
    pub entity_id: Seq<char>,
    pub field_ids: Seq<Seq<char>>,
    pub online: bool,
    pub description: Option<Seq<char>>,
    pub created_at: Option<i64>,
    pub updated_at: Option<i64>,
    pub tags: Seq<(Seq<char>, Seq<char>)>,
    pub owner: Option<Seq<char>>,
}

impl DeepView for TableFeatureView {
    type V = TableFeatureViewView;

    open spec fn deep_view(&self) -> TableFeatureViewView {
        self.view()
    }
}

impl View for TableFeatureView {
    type V = TableFeatureViewView;

    open spec fn view(&self) -> TableFeatureViewView {
        TableFeatureViewView {
            name: self.name@,
            variant: self.variant.deep_view(),
            entity_id: self.entity_id@,
            field_ids: self.field_ids.deep_view(),
            online: self.online,
            description: self.description.deep_view(),
            created_at: self.created_at,
            updated_at: self.updated_at,
            tags: self.tags.deep_view(),
            owner: self.owner.deep_view(),
        }
    }
}

pub open spec fn spec_table_view_id(v: TableFeatureViewView) -> Seq<char> {
    spec_resource_id("TableFeatureView"@, v.name, opt_view(v.variant))
}

pub open spec fn spec_table_view_tokens(v: TableFeatureViewView) -> Seq<Seq<char>> {
    toks_str(v.name) + toks_opt_str(v.variant) + toks_str(v.entity_id) + toks_strs(v.field_ids)
        + toks_bool(v.online) + toks_opt_str(v.description) + toks_opt_i64(v.created_at)
        + toks_opt_i64(v.updated_at) + toks_pairs(v.tags) + toks_opt_str(v.owner)
}

pub open spec fn rd_table_view(ts: Seq<Seq<char>>, pos: int) -> Option<(TableFeatureViewView, int)> {
    match rd_str(ts, pos) {
        None => None,
        Some((name, p1)) => match rd_opt_str(ts, p1) {
            None => None,
            Some((variant, p2)) => match rd_str(ts, p2) {
                None => None,
                Some((eid, p3)) => match rd_strs(ts, p3) {
                    None => None,
                    Some((fids, p4)) => match rd_bool(ts, p4) {
                        None => None,
                        Some((online, p5)) => match rd_opt_str(ts, p5) {
                            None => None,
                            Some((desc, p6)) => match rd_opt_i64(ts, p6) {
                                None => None,
                                Some((ca, p7)) => match rd_opt_i64(ts, p7) {
                                    None => None,
                                    Some((ua, p8)) => match rd_pairs(ts, p8) {
                                        None => None,
                                        Some((tags, p9)) => match rd_opt_str(ts, p9) {
                                            None => None,
                                            Some((owner, p10)) => Some(
                                                (
                                                    TableFeatureViewView {
                                                        name,
                                                        variant,
                                                        entity_id: eid,
                                                        field_ids: fids,
                                                        online,
                                                        description: desc,
                                                        created_at: ca,
                                                        updated_at: ua,
                                                        tags,
                                                        owner,
                                                    },
                                                    p10,
                                                ),
                                            ),
                                        },
                                    },
                                },
                            },
                        },
                    },
                },
            },
        },
    }
}

impl ResourceOp for TableFeatureView {
    open spec fn id_wf(&self) -> bool {
        true
    }

    open spec fn spec_id(&self) -> Seq<char> {
        spec_table_view_id(self@)
    }

    open spec fn spec_tokens(&self) -> Seq<Seq<char>> {
        spec_table_view_tokens(self@)
    }

    open spec fn spec_id_to_name(id: Seq<char>) -> Seq<char> {
        spec_name_in_id(id)
    }

    fn resource_id(&self) -> (r: ResourceId) {
        let r = make_resource_id("TableFeatureView", self.name.as_str(), &self.variant);
        proof {
            assert(opt_str_view(self.variant) == opt_view(self@.variant));
        }
        r
    }

    fn to_tokens(&self) -> (toks: Vec<String>) {
        let mut out: Vec<String> = Vec::new();
        write_str(&mut out, self.name.as_str());
        write_opt_str(&mut out, &self.variant);
        write_str(&mut out, self.entity_id.as_str());
        write_strs(&mut out, &self.field_ids);
        write_bool(&mut out, self.online);
        write_opt_str(&mut out, &self.description);
        write_opt_i64(&mut out, &self.created_at);
        write_opt_i64(&mut out, &self.updated_at);
        write_pairs(&mut out, &self.tags);
        write_opt_str(&mut out, &self.owner);
        proof {
            assert(out.deep_view() =~= spec_table_view_tokens(self@));
        }
        out
    }

    fn id_to_name(id: &str) -> (r: String) {
        id_to_name(id)
    }
}

impl TableFeatureView {
    /// Decodes a table view from its token list.  Mirrors [`rd_table_view`].
    pub(crate) fn from_tokens(ts: &Vec<String>, pos: usize) -> (r: Result<
        (TableFeatureView, usize),
        GfsError,
    >)
        ensures
            match r {
                Ok((t, p)) => rd_table_view(ts.deep_view(), pos as int) == Some((t@, p as int)),
                Err(e) => e == GfsError::DecodeError && rd_table_view(ts.deep_view(), pos as int)
                    == None::<(TableFeatureViewView, int)>,
            },
    {
        let (name, p1) = crate::record::read_str(ts, pos)?;
        let (variant, p2) = crate::record::read_opt_str(ts, p1)?;
        let (entity_id, p3) = crate::record::read_str(ts, p2)?;
        let (field_ids, p4) = crate::record::read_strs(ts, p3)?;
        let (online, p5) = crate::record::read_bool(ts, p4)?;
        let (description, p6) = crate::record::read_opt_str(ts, p5)?;
        let (created_at, p7) = crate::record::read_opt_i64(ts, p6)?;
        let (updated_at, p8) = crate::record::read_opt_i64(ts, p7)?;
        let (tags, p9) = crate::record::read_pairs(ts, p8)?;
        let (owner, p10) = crate::record::read_opt_str(ts, p9)?;
        Ok(
            (
                TableFeatureView {
                    name,
                    variant,
                    entity_id,
                    field_ids,
                    online,
                    description,
                    created_at,
                    updated_at,
                    tags,
                    owner,
                },
                p10,
            ),
        )
    }
}

/// Token round trip for table views.
#[verifier::rlimit(80)]
pub proof fn lemma_table_view_round_trip(v: TableFeatureViewView)
    requires
        v.field_ids.len() <= u64::MAX,
        v.tags.len() <= u64::MAX,
    ensures
        rd_table_view(spec_table_view_tokens(v), 0) == Some(
            (v, spec_table_view_tokens(v).len() as int),
        ),
{
    let ts = spec_table_view_tokens(v);
    let ta = toks_str(v.name);
    let tb = toks_opt_str(v.variant);
    let tc = toks_str(v.entity_id);
    let td = toks_strs(v.field_ids);
    let te = toks_bool(v.online);
    let tf = toks_opt_str(v.description);
    let tg = toks_opt_i64(v.created_at);
    let th = toks_opt_i64(v.updated_at);
    let ti = toks_pairs(v.tags);
    let tj = toks_opt_str(v.owner);
    let p1 = ta.len() as int;
    let p2 = p1 + tb.len();
    let p3 = p2 + tc.len();
    let p4 = p3 + td.len();
    let p5 = p4 + te.len();
    let p6 = p5 + tf.len();
    let p7 = p6 + tg.len();
    let p8 = p7 + th.len();
    let p9 = p8 + ti.len();
    let p10 = p9 + tj.len();
    crate::record::lemma_flat_pairs_index(v.tags);
    assert(ts.len() == p10);
    assert(ts[0] == v.name);
    assert(rd_str(ts, 0) == Some((v.name, p1)));
    assert forall|i: int| 0 <= i < tb.len() implies ts[p1 + i] == #[trigger] tb[i] by {}
    crate::record::lemma_rd_opt_str(ts, p1, v.variant);
    assert(ts[p2] == v.entity_id);
    assert(rd_str(ts, p2) == Some((v.entity_id, p3)));
    assert(ts[p3] == crate::codec::dec_digits(v.field_ids.len()));
    assert forall|i: int|
        0 <= i < v.field_ids.len() implies ts[p3 + 1 + i] == #[trigger] v.field_ids[i] by {
        assert(ts[p3 + 1 + i] == toks_strs(v.field_ids)[1 + i]);
    }
    crate::record::lemma_rd_strs(ts, p3, v.field_ids);
    assert(ts[p4] == toks_bool(v.online)[0]);
    assert(rd_bool(ts, p4) == Some((v.online, p5)));
    assert forall|i: int| 0 <= i < tf.len() implies ts[p5 + i] == #[trigger] tf[i] by {}
    crate::record::lemma_rd_opt_str(ts, p5, v.description);
    assert forall|i: int| 0 <= i < tg.len() implies ts[p6 + i] == #[trigger] tg[i] by {}
    crate::record::lemma_rd_opt_i64(ts, p6, v.created_at);
    assert forall|i: int| 0 <= i < th.len() implies ts[p7 + i] == #[trigger] th[i] by {}
    crate::record::lemma_rd_opt_i64(ts, p7, v.updated_at);
    assert(ts[p8] == crate::codec::dec_digits(v.tags.len()));
    assert forall|i: int|
        0 <= i < v.tags.len() implies ts[p8 + 1 + 2 * i] == (#[trigger] v.tags[i]).0 && ts[p8 + 1
        + 2 * i + 1] == v.tags[i].1 by {
        assert(ts[p8 + 1 + 2 * i] == crate::record::flat_pairs(v.tags)[2 * i]);
        assert(ts[p8 + 1 + 2 * i + 1] == crate::record::flat_pairs(v.tags)[2 * i + 1]);
    }
    crate::record::lemma_rd_pairs(ts, p8, v.tags);
    assert forall|i: int| 0 <= i < tj.len() implies ts[p9 + i] == #[trigger] tj[i] by {}
    crate::record::lemma_rd_opt_str(ts, p9, v.owner);
}

/// How a topology is laid out.
#[derive(Debug, PartialEq, Eq, Structural)]
pub enum TopologyType {
    AdjacencyList,
    AdjacencyMatrix,
    BipartiteGraphChain,
}

impl TopologyType {
    /// A structural copy whose equality with the original is known to
    /// verified callers.
    pub fn duplicate(&self) -> (r: Self)
        ensures
            r == *self,
    {
        match self {
            TopologyType::AdjacencyList => TopologyType::AdjacencyList,
            TopologyType::AdjacencyMatrix => TopologyType::AdjacencyMatrix,
            TopologyType::BipartiteGraphChain => TopologyType::BipartiteGraphChain,
        }
    }
}

pub open spec fn toks_topology_type(t: TopologyType) -> Seq<Seq<char>> {
    match t {
        TopologyType::AdjacencyList => seq![seq!['l']],
        TopologyType::AdjacencyMatrix => seq![seq!['m']],
        TopologyType::BipartiteGraphChain => seq![seq!['c']],
    }
}

pub open spec fn rd_topology_type(ts: Seq<Seq<char>>, pos: int) -> Option<(TopologyType, int)> {
    if 0 <= pos < ts.len() {
        let t = ts[pos];
        if t.len() == 1 && t[0] == 'l' {
            Some((TopologyType::AdjacencyList, pos + 1))
        } else if t.len() == 1 && t[0] == 'm' {
            Some((TopologyType::AdjacencyMatrix, pos + 1))
        } else if t.len() == 1 && t[0] == 'c' {
            Some((TopologyType::BipartiteGraphChain, pos + 1))
        } else {
            None
        }
    } else {
        None
    }
}

pub fn write_topology_type(out: &mut Vec<String>, t: &TopologyType)
    ensures
        final(out).deep_view() == old(out).deep_view() + toks_topology_type(*t),
{
    proof {
        reveal_strlit("l");
        reveal_strlit("m");
        reveal_strlit("c");
    }
    match t {
        TopologyType::AdjacencyList => {
            out.push(String::from_str("l"));
            proof {
                assert("l"@ =~= seq!['l']);
                assert(out.deep_view() =~= old(out).deep_view() + toks_topology_type(*t));
            }
        },
        TopologyType::AdjacencyMatrix => {
            out.push(String::from_str("m"));
            proof {
                assert("m"@ =~= seq!['m']);
                assert(out.deep_view() =~= old(out).deep_view() + toks_topology_type(*t));
            }
        },
        TopologyType::BipartiteGraphChain => {
            out.push(String::from_str("c"));
            proof {
                assert("c"@ =~= seq!['c']);
                assert(out.deep_view() =~= old(out).deep_view() + toks_topology_type(*t));
            }
        },
    }
}

pub fn read_topology_type(ts: &Vec<String>, pos: usize) -> (r: Result<
    (TopologyType, usize),
    GfsError,
>)
    ensures
        match r {
            Ok((t, p)) => rd_topology_type(ts.deep_view(), pos as int) == Some((t, p as int)),
            Err(e) => e == GfsError::DecodeError && rd_topology_type(ts.deep_view(), pos as int)
                == None::<(TopologyType, int)>,
        },
{
    if pos >= ts.len() {
        return Err(GfsError::DecodeError);
    }
    let t = ts[pos].as_str();
    let ghost tv = ts.deep_view()[pos as int];
    if t.unicode_len() != 1 {
        return Err(GfsError::DecodeError);
    }
    let c = t.get_char(0);
    if c == 'l' {
        Ok((TopologyType::AdjacencyList, pos + 1))
    } else if c == 'm' {
        Ok((TopologyType::AdjacencyMatrix, pos + 1))
    } else if c == 'c' {
        Ok((TopologyType::BipartiteGraphChain, pos + 1))
    } else {
        Err(GfsError::DecodeError)
    }
}

/// Tokens of an optional topology type.
pub open spec fn toks_opt_topology_type(t: Option<TopologyType>) -> Seq<Seq<char>> {
    match t {
        None => seq![seq!['0']],
        Some(tt) => seq![seq!['1']] + toks_topology_type(tt),
    }
}

pub open spec fn rd_opt_topology_type(ts: Seq<Seq<char>>, pos: int) -> Option<
    (Option<TopologyType>, int),
> {
    match rd_bool(ts, pos) {
        Some((false, p)) => Some((None, p)),
        Some((true, p)) => match rd_topology_type(ts, p) {
            Some((t, p2)) => Some((Some(t), p2)),
            None => None,
        },
        None => None,
    }
}

pub fn write_opt_topology_type(out: &mut Vec<String>, t: &Option<TopologyType>)
    ensures
        final(out).deep_view() == old(out).deep_view() + toks_opt_topology_type(*t),
{
    match t {
        None => write_bool(out, false),
        Some(tt) => {
            write_bool(out, true);
            write_topology_type(out, tt);
        },
    }
    proof {
        assert(out.deep_view() =~= old(out).deep_view() + toks_opt_topology_type(*t));
    }
}

pub fn read_opt_topology_type(ts: &Vec<String>, pos: usize) -> (r: Result<
    (Option<TopologyType>, usize),
    GfsError,
>)
    ensures
        match r {
            Ok((t, p)) => rd_opt_topology_type(ts.deep_view(), pos as int) == Some((t, p as int)),
            Err(e) => e == GfsError::DecodeError && rd_opt_topology_type(
                ts.deep_view(),
                pos as int,
            ) == None::<(Option<TopologyType>, int)>,
        },
{
    let (tag, p) = crate::record::read_bool(ts, pos)?;
    if tag {
        let (t, p2) = read_topology_type(ts, p)?;
        Ok((Some(t), p2))
    } else {
        Ok((None, p))
    }
}

/// Reading an optional topology type laid down mid-stream recovers it.
pub proof fn lemma_rd_opt_topology_type(ts: Seq<Seq<char>>, pos: int, t: Option<TopologyType>)
    requires
        0 <= pos,
        pos + toks_opt_topology_type(t).len() <= ts.len(),
        forall|i: int|
            0 <= i < toks_opt_topology_type(t).len() ==> ts[pos + i] == #[trigger]
            toks_opt_topology_type(t)[i],
    ensures
        rd_opt_topology_type(ts, pos) == Some((t, pos + toks_opt_topology_type(t).len())),
{
    match t {
        None => {
            assert(toks_opt_topology_type(t)[0] == seq!['0']);
            assert(ts[pos] == seq!['0']);
            assert(ts[pos].len() == 1 && ts[pos][0] == '0');
        },
        Some(tt) => {
            assert(toks_opt_topology_type(t)[0] == seq!['1']);
            assert(toks_opt_topology_type(t)[1] == toks_topology_type(tt)[0]);
            assert(ts[pos] == seq!['1']);
            assert(ts[pos].len() == 1 && ts[pos][0] == '1');
            assert(ts[pos + 1] == toks_topology_type(tt)[0]);
        },
    }
}

/// A serving view over topologies.
#[derive(Debug, PartialEq, Eq)]
pub struct TopologyFeatureView {
    pub name: String,
    pub variant: Option<String>,
    pub topology_type: TopologyType,
    pub online: bool,
    /// Resource ids of the served topologies.
    pub topology_ids: Vec<ResourceId>,
    pub description: Option<String>,
    /// Seconds since the Unix epoch.
    pub created_at: Option<i64>,
    /// Seconds since the Unix epoch.
    pub updated_at: Option<i64>,
    pub tags: Vec<(String, String)>,
    pub owners: Vec<String>,
}

pub ghost struct TopologyFeatureViewView {
    pub name: Seq<char>,
    pub variant: Option<Seq<char>>,
    pub topology_type: TopologyType,
    pub online: bool,
    pub topology_ids: Seq<Seq<char>>,
    pub description: Option<Seq<char>>,
    pub created_at: Option<i64>,
    pub updated_at: Option<i64>,
    pub tags: Seq<(Seq<char>, Seq<char>)>,
    pub owners: Seq<Seq<char>>,
}

impl DeepView for TopologyFeatureView {
    type V = TopologyFeatureViewView;

    open spec fn deep_view(&self) -> TopologyFeatureViewView {
        self.view()
    }
}

impl View for TopologyFeatureView {
    type V = TopologyFeatureViewView;

    open spec fn view(&self) -> TopologyFeatureViewView {
        TopologyFeatureViewView {
            name: self.name@,
            variant: self.variant.deep_view(),
            topology_type: self.topology_type,
            online: self.online,
            topology_ids: self.topology_ids.deep_view(),
            description: self.description.deep_view(),
            created_at: self.created_at,
            updated_at: self.updated_at,
            tags: self.tags.deep_view(),
            owners: self.owners.deep_view(),
        }
    }
}

pub open spec fn spec_topology_view_id(v: TopologyFeatureViewView) -> Seq<char> {
    spec_resource_id("TopologyFeatureView"@, v.name, opt_view(v.variant))
}

pub open spec fn spec_topology_view_tokens(v: TopologyFeatureViewView) -> Seq<Seq<char>> {
    toks_str(v.name) + toks_opt_str(v.variant) + toks_topology_type(v.topology_type) + toks_bool(
        v.online,
    ) + toks_strs(v.topology_ids) + toks_opt_str(v.description) + toks_opt_i64(v.created_at)
        + toks_opt_i64(v.updated_at) + toks_pairs(v.tags) + toks_strs(v.owners)
}

pub open spec fn rd_topology_view(ts: Seq<Seq<char>>, pos: int) -> Option<
    (TopologyFeatureViewView, int),
> {
    match rd_str(ts, pos) {
        None => None,
        Some((name, p1)) => match rd_opt_str(ts, p1) {
            None => None,
            Some((variant, p2)) => match rd_topology_type(ts, p2) {
                None => None,
                Some((tt, p3)) => match rd_bool(ts, p3) {
                    None => None,
                    Some((online, p4)) => match rd_strs(ts, p4) {
                        None => None,
                        Some((tids, p5)) => match rd_opt_str(ts, p5) {
                            None => None,
                            Some((desc, p6)) => match rd_opt_i64(ts, p6) {
                                None => None,
                                Some((ca, p7)) => match rd_opt_i64(ts, p7) {
                                    None => None,
                                    Some((ua, p8)) => match rd_pairs(ts, p8) {
                                        None => None,
                                        Some((tags, p9)) => match rd_strs(ts, p9) {
                                            None => None,
                                            Some((owners, p10)) => Some(
                                                (
                                                    TopologyFeatureViewView {
                                                        name,
                                                        variant,
                                                        topology_type: tt,
                                                        online,
                                                        topology_ids: tids,
                                                        description: desc,
                                                        created_at: ca,
                                                        updated_at: ua,
                                                        tags,
                                                        owners,
                                                    },
                                                    p10,
                                                ),
                                            ),
                                        },
                                    },
                                },
                            },
                        },
                    },
                },
            },
        },
    }
}

impl ResourceOp for TopologyFeatureView {
    open spec fn id_wf(&self) -> bool {
        true
    }

    open spec fn spec_id(&self) -> Seq<char> {
        spec_topology_view_id(self@)
    }

    open spec fn spec_tokens(&self) -> Seq<Seq<char>> {
        spec_topology_view_tokens(self@)
    }

    open spec fn spec_id_to_name(id: Seq<char>) -> Seq<char> {
        spec_name_in_id(id)
    }

    fn resource_id(&self) -> (r: ResourceId) {
        let r = make_resource_id("TopologyFeatureView", self.name.as_str(), &self.variant);
        proof {
            assert(opt_str_view(self.variant) == opt_view(self@.variant));
        }
        r
    }

    fn to_tokens(&self) -> (toks: Vec<String>) {
        let mut out: Vec<String> = Vec::new();
        write_str(&mut out, self.name.as_str());
        write_opt_str(&mut out, &self.variant);
        write_topology_type(&mut out, &self.topology_type);
        write_bool(&mut out, self.online);
        write_strs(&mut out, &self.topology_ids);
        write_opt_str(&mut out, &self.description);
        write_opt_i64(&mut out, &self.created_at);
        write_opt_i64(&mut out, &self.updated_at);
        write_pairs(&mut out, &self.tags);
        write_strs(&mut out, &self.owners);
        proof {
            assert(out.deep_view() =~= spec_topology_view_tokens(self@));
        }
        out
    }

    fn id_to_name(id: &str) -> (r: String) {
        id_to_name(id)
    }
}

impl TopologyFeatureView {
    /// Decodes a topology view from its token list.  Mirrors
    /// [`rd_topology_view`].
    pub(crate) fn from_tokens(ts: &Vec<String>, pos: usize) -> (r: Result<
        (TopologyFeatureView, usize),
        GfsError,
    >)
        ensures
            match r {
                Ok((t, p)) => rd_topology_view(ts.deep_view(), pos as int) == Some((t@, p as int)),
                Err(e) => e == GfsError::DecodeError && rd_topology_view(
                    ts.deep_view(),
                    pos as int,
                ) == None::<(TopologyFeatureViewView, int)>,
            },
    {
        let (name, p1) = crate::record::read_str(ts, pos)?;
        let (variant, p2) = crate::record::read_opt_str(ts, p1)?;
        let (topology_type, p3) = read_topology_type(ts, p2)?;
        let (online, p4) = crate::record::read_bool(ts, p3)?;
        let (topology_ids, p5) = crate::record::read_strs(ts, p4)?;
        let (description, p6) = crate::record::read_opt_str(ts, p5)?;
        let (created_at, p7) = crate::record::read_opt_i64(ts, p6)?;
        let (updated_at, p8) = crate::record::read_opt_i64(ts, p7)?;
        let (tags, p9) = crate::record::read_pairs(ts, p8)?;
        let (owners, p10) = crate::record::read_strs(ts, p9)?;
        Ok(
            (
                TopologyFeatureView {
                    name,
                    variant,
                    topology_type,
                    online,
                    topology_ids,
                    description,
                    created_at,
                    updated_at,
                    tags,
                    owners,
                },
                p10,
            ),
        )
    }
}

/// Token round trip for topology views.
#[verifier::rlimit(80)]
pub proof fn lemma_topology_view_round_trip(v: TopologyFeatureViewView)
    requires
        v.topology_ids.len() <= u64::MAX,
        v.tags.len() <= u64::MAX,
        v.owners.len() <= u64::MAX,
    ensures
        rd_topology_view(spec_topology_view_tokens(v), 0) == Some(
            (v, spec_topology_view_tokens(v).len() as int),
        ),
{
    let ts = spec_topology_view_tokens(v);
    let ta = toks_str(v.name);
    let tb = toks_opt_str(v.variant);
    let tc = toks_topology_type(v.topology_type);
    let td = toks_bool(v.online);
    let te = toks_strs(v.topology_ids);
    let tf = toks_opt_str(v.description);
    let tg = toks_opt_i64(v.created_at);
    let th = toks_opt_i64(v.updated_at);
    let ti = toks_pairs(v.tags);
    let tj = toks_strs(v.owners);
    let p1 = ta.len() as int;
    let p2 = p1 + tb.len();
    let p3 = p2 + tc.len();
    let p4 = p3 + td.len();
    let p5 = p4 + te.len();
    let p6 = p5 + tf.len();
    let p7 = p6 + tg.len();
    let p8 = p7 + th.len();
    let p9 = p8 + ti.len();
    let p10 = p9 + tj.len();
    crate::record::lemma_flat_pairs_index(v.tags);
    assert(ts.len() == p10);
    assert(ts[0] == v.name);
    assert(rd_str(ts, 0) == Some((v.name, p1)));
    assert forall|i: int| 0 <= i < tb.len() implies ts[p1 + i] == #[trigger] tb[i] by {}
    crate::record::lemma_rd_opt_str(ts, p1, v.variant);
    assert(ts[p2] == toks_topology_type(v.topology_type)[0]);
    assert(rd_topology_type(ts, p2) == Some((v.topology_type, p3)));
    assert(ts[p3] == toks_bool(v.online)[0]);
    assert(rd_bool(ts, p3) == Some((v.online, p4)));
    assert(ts[p4] == crate::codec::dec_digits(v.topology_ids.len()));
    assert forall|i: int|
        0 <= i < v.topology_ids.len() implies ts[p4 + 1 + i] == #[trigger] v.topology_ids[i] by {
        assert(ts[p4 + 1 + i] == toks_strs(v.topology_ids)[1 + i]);
    }
    crate::record::lemma_rd_strs(ts, p4, v.topology_ids);
    assert forall|i: int| 0 <= i < tf.len() implies ts[p5 + i] == #[trigger] tf[i] by {}
    crate::record::lemma_rd_opt_str(ts, p5, v.description);
    assert forall|i: int| 0 <= i < tg.len() implies ts[p6 + i] == #[trigger] tg[i] by {}
    crate::record::lemma_rd_opt_i64(ts, p6, v.created_at);
    assert forall|i: int| 0 <= i < th.len() implies ts[p7 + i] == #[trigger] th[i] by {}
    crate::record::lemma_rd_opt_i64(ts, p7, v.updated_at);
    assert(ts[p8] == crate::codec::dec_digits(v.tags.len()));
    assert forall|i: int|
        0 <= i < v.tags.len() implies ts[p8 + 1 + 2 * i] == (#[trigger] v.tags[i]).0 && ts[p8 + 1
        + 2 * i + 1] == v.tags[i].1 by {
        assert(ts[p8 + 1 + 2 * i] == crate::record::flat_pairs(v.tags)[2 * i]);
        assert(ts[p8 + 1 + 2 * i + 1] == crate::record::flat_pairs(v.tags)[2 * i + 1]);
    }
    crate::record::lemma_rd_pairs(ts, p8, v.tags);
    assert(ts[p9] == crate::codec::dec_digits(v.owners.len()));
    assert forall|i: int| 0 <= i < v.owners.len() implies ts[p9 + 1 + i] == #[trigger] v.owners[i]
    by {
        assert(ts[p9 + 1 + i] == toks_strs(v.owners)[1 + i]);
    }
    crate::record::lemma_rd_strs(ts, p9, v.owners);
}

} // verus!
