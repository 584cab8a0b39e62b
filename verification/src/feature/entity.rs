//! Vertex-type and edge-type descriptors.

use crate::clock::now_seconds;
use crate::feature::{
    rd_value_type, toks_value_type, FeatureValueType, ResourceOp,
};
use crate::identity::{
    id_to_name, make_resource_id, opt_str_view, opt_view, spec_name_in_id, spec_resource_id,
    two_slashes,
};
use crate::record::{
    rd_opt_i64, rd_opt_str, rd_pairs, rd_str, rd_strs, toks_opt_i64, toks_opt_str, toks_pairs,
    toks_str, toks_strs, write_opt_i64, write_opt_str, write_pairs, write_str, write_strs,
};
use crate::GfsError;
use crate::ResourceId;
use vstd::prelude::*;
use vstd::string::*;

verus! {

/// Whether an entity describes a vertex type or an edge type, with its type
/// label in the underlying graph.
#[derive(Debug, PartialEq, Eq)]
pub enum EntityType {
    NodeEntity { tlabel: String },
    EdgeEntity { tlabel: String },
}

pub ghost enum EntityTypeView {
    NodeEntity { tlabel: Seq<char> },
    EdgeEntity { tlabel: Seq<char> },
}

impl View for EntityType {
    type V = EntityTypeView;

    open spec fn view(&self) -> EntityTypeView {
        match self {
            EntityType::NodeEntity { tlabel } => EntityTypeView::NodeEntity { tlabel: tlabel@ },
            EntityType::EdgeEntity { tlabel } => EntityTypeView::EdgeEntity { tlabel: tlabel@ },
        }
    }
}

impl EntityType {
    /// A structural copy whose equality with the original is known to
    /// verified callers.
    pub fn duplicate(&self) -> (r: Self)
        ensures
            r@ == self@,
    {
        match self {
            EntityType::NodeEntity { tlabel } => EntityType::NodeEntity {
                tlabel: tlabel.clone(),
            },
            EntityType::EdgeEntity { tlabel } => EntityType::EdgeEntity {
                tlabel: tlabel.clone(),
            },
        }
    }
}

pub open spec fn toks_entity_type(v: EntityTypeView) -> Seq<Seq<char>> {
    match v {
        EntityTypeView::NodeEntity { tlabel } => seq![seq!['n'], tlabel],
        EntityTypeView::EdgeEntity { tlabel } => seq![seq!['e'], tlabel],
    }
}

pub open spec fn rd_entity_type(ts: Seq<Seq<char>>, pos: int) -> Option<(EntityTypeView, int)> {
    if 0 <= pos < ts.len() {
        if ts[pos].len() == 1 && ts[pos][0] == 'n' {
            match rd_str(ts, pos + 1) {
                Some((l, p)) => Some((EntityTypeView::NodeEntity { tlabel: l }, p)),
                None => None,
            }
        } else if ts[pos].len() == 1 && ts[pos][0] == 'e' {
            match rd_str(ts, pos + 1) {
                Some((l, p)) => Some((EntityTypeView::EdgeEntity { tlabel: l }, p)),
                None => None,
            }
        } else {
            None
        }
    } else {
        None
    }
}

pub fn write_entity_type(out: &mut Vec<String>, v: &EntityType)
    ensures
        final(out).deep_view() == old(out).deep_view() + toks_entity_type(v@),
{
    proof {
        reveal_strlit("n");
        reveal_strlit("e");
    }
    match v {
        EntityType::NodeEntity { tlabel } => {
            out.push(String::from_str("n"));
            write_str(out, tlabel.as_str());
            proof {
                assert("n"@ =~= seq!['n']);
                assert(out.deep_view() =~= old(out).deep_view() + toks_entity_type(v@));
            }
        },
        EntityType::EdgeEntity { tlabel } => {
            out.push(String::from_str("e"));
            write_str(out, tlabel.as_str());
            proof {
                assert("e"@ =~= seq!['e']);
                assert(out.deep_view() =~= old(out).deep_view() + toks_entity_type(v@));
            }
        },
    }
}

pub fn read_entity_type(ts: &Vec<String>, pos: usize) -> (r: Result<
    (EntityType, usize),
    GfsError,
>)
    ensures
        match r {
            Ok((v, p)) => rd_entity_type(ts.deep_view(), pos as int) == Some((v@, p as int)),
            Err(e) => e == GfsError::DecodeError && rd_entity_type(ts.deep_view(), pos as int)
                == None::<(EntityTypeView, int)>,
        },
{
    proof {
        reveal_strlit("n");
        reveal_strlit("e");
        assert("n"@ =~= seq!['n']);
        assert("e"@ =~= seq!['e']);
    }
    if pos >= ts.len() {
        return Err(GfsError::DecodeError);
    }
    let t = ts[pos].as_str();
    let ghost tv = ts.deep_view()[pos as int];
    if t.unicode_len() != 1 {
        return Err(GfsError::DecodeError);
    }
    let c = t.get_char(0);
    proof {
        assert(tv =~= seq![tv[0]]);
    }
    if c == 'n' {
        let (l, p) = crate::record::read_str(ts, pos + 1)?;
        Ok((EntityType::NodeEntity { tlabel: l }, p))
    } else if c == 'e' {
        let (l, p) = crate::record::read_str(ts, pos + 1)?;
        Ok((EntityType::EdgeEntity { tlabel: l }, p))
    } else {
        Err(GfsError::DecodeError)
    }
}

/// A vertex-type or edge-type descriptor.
#[derive(Debug, PartialEq, Eq)]
pub struct Entity {
    pub name: String,
    pub variant: Option<String>,
    pub entity_type: EntityType,
    pub primary_key: String,
    pub description: Option<String>,
    /// Seconds since the Unix epoch.
    pub created_timestamp: Option<i64>,
    /// Seconds since the Unix epoch.
    pub last_updated_timestamp: Option<i64>,
    pub tags: Vec<(String, String)>,
    pub owners: Vec<String>,
}

pub ghost struct EntityView {
    pub name: Seq<char>,
    pub variant: Option<Seq<char>>,
    pub entity_type: EntityTypeView,
    pub primary_key: Seq<char>,
    pub description: Option<Seq<char>>,
    pub created_timestamp: Option<i64>,
    pub last_updated_timestamp: Option<i64>,
    pub tags: Seq<(Seq<char>, Seq<char>)>,
    pub owners: Seq<Seq<char>>,
}

impl DeepView for Entity {
    type V = EntityView;

    open spec fn deep_view(&self) -> EntityView {
        self.view()
    }
}

impl View for Entity {
    type V = EntityView;

    open spec fn view(&self) -> EntityView {
        EntityView {
            name: self.name@,
            variant: self.variant.deep_view(),
            entity_type: self.entity_type@,
            primary_key: self.primary_key@,
            description: self.description.deep_view(),
            created_timestamp: self.created_timestamp,
            last_updated_timestamp: self.last_updated_timestamp,
            tags: self.tags.deep_view(),
            owners: self.owners.deep_view(),
        }
    }
}

pub open spec fn spec_entity_id(v: EntityView) -> Seq<char> {
    spec_resource_id("Entity"@, v.name, opt_view(v.variant))
}

pub open spec fn spec_entity_tokens(v: EntityView) -> Seq<Seq<char>> {
    toks_str(v.name) + toks_opt_str(v.variant) + toks_entity_type(v.entity_type) + toks_str(
        v.primary_key,
    ) + toks_opt_str(v.description) + toks_opt_i64(v.created_timestamp) + toks_opt_i64(
        v.last_updated_timestamp,
    ) + toks_pairs(v.tags) + toks_strs(v.owners)
}

pub open spec fn rd_entity(ts: Seq<Seq<char>>, pos: int) -> Option<(EntityView, int)> {
    match rd_str(ts, pos) {
        None => None,
        Some((name, p1)) => match rd_opt_str(ts, p1) {
            None => None,
            Some((variant, p2)) => match rd_entity_type(ts, p2) {
                None => None,
                Some((et, p3)) => match rd_str(ts, p3) {
                    None => None,
                    Some((pk, p4)) => match rd_opt_str(ts, p4) {
                        None => None,
                        Some((desc, p5)) => match rd_opt_i64(ts, p5) {
                            None => None,
                            Some((ct, p6)) => match rd_opt_i64(ts, p6) {
                                None => None,
                                Some((lt, p7)) => match rd_pairs(ts, p7) {
                                    None => None,
                                    Some((tags, p8)) => match rd_strs(ts, p8) {
                                        None => None,
                                        Some((owners, p9)) => Some(
                                            (
                                                EntityView {
                                                    name,
                                                    variant,
                                                    entity_type: et,
                                                    primary_key: pk,
                                                    description: desc,
                                                    created_timestamp: ct,
                                                    last_updated_timestamp: lt,
                                                    tags,
                                                    owners,
                                                },
                                                p9,
                                            ),
                                        ),
                                    },
                                },
                            },
                        },
                    },
                },
            },
        },
    }
}

impl ResourceOp for Entity {
    open spec fn id_wf(&self) -> bool {
        true
    }

    open spec fn spec_id(&self) -> Seq<char> {
        spec_entity_id(self@)
    }

    open spec fn spec_tokens(&self) -> Seq<Seq<char>> {
        spec_entity_tokens(self@)
    }

    open spec fn spec_id_to_name(id: Seq<char>) -> Seq<char> {
        spec_name_in_id(id)
    }

    fn resource_id(&self) -> (r: ResourceId) {
        let r = make_resource_id("Entity", self.name.as_str(), &self.variant);
        proof {
            assert(opt_str_view(self.variant) == opt_view(self@.variant));
        }
        r
    }

    fn to_tokens(&self) -> (toks: Vec<String>) {
        let mut out: Vec<String> = Vec::new();
        write_str(&mut out, self.name.as_str());
        write_opt_str(&mut out, &self.variant);
        write_entity_type(&mut out, &self.entity_type);
        write_str(&mut out, self.primary_key.as_str());
        write_opt_str(&mut out, &self.description);
        write_opt_i64(&mut out, &self.created_timestamp);
        write_opt_i64(&mut out, &self.last_updated_timestamp);
        write_pairs(&mut out, &self.tags);
        write_strs(&mut out, &self.owners);
        proof {
            assert(out.deep_view() =~= spec_entity_tokens(self@));
        }
        out
    }

    fn id_to_name(id: &str) -> (r: String) {
        id_to_name(id)
    }
}

impl Entity {
    /// Decodes an entity from its token list.  Mirrors [`rd_entity`] exactly.
    pub(crate) fn from_tokens(ts: &Vec<String>, pos: usize) -> (r: Result<
        (Entity, usize),
        GfsError,
    >)
        ensures
            match r {
                Ok((e, p)) => rd_entity(ts.deep_view(), pos as int) == Some((e@, p as int)),
                Err(e) => e == GfsError::DecodeError && rd_entity(ts.deep_view(), pos as int)
                    == None::<(EntityView, int)>,
            },
    {
        let (name, p1) = crate::record::read_str(ts, pos)?;
        let (variant, p2) = crate::record::read_opt_str(ts, p1)?;
        let (entity_type, p3) = read_entity_type(ts, p2)?;
        let (primary_key, p4) = crate::record::read_str(ts, p3)?;
        let (description, p5) = crate::record::read_opt_str(ts, p4)?;
        let (created_timestamp, p6) = crate::record::read_opt_i64(ts, p5)?;
        let (last_updated_timestamp, p7) = crate::record::read_opt_i64(ts, p6)?;
        let (tags, p8) = crate::record::read_pairs(ts, p7)?;
        let (owners, p9) = crate::record::read_strs(ts, p8)?;
        Ok(
            (
                Entity {
                    name,
                    variant,
                    entity_type,
                    primary_key,
                    description,
                    created_timestamp,
                    last_updated_timestamp,
                    tags,
                    owners,
                },
                p9,
            ),
        )
    }

    /// A new entity stamped with the current time, no description, and empty
    /// tags and owners.
    pub fn new(name: &str, variant: Option<String>, entity_type: EntityType, primary_key: &str) -> (r:
        Entity)
        ensures
            r@.name == name@,
            r@.variant == variant.deep_view(),
            r@.entity_type == entity_type@,
            r@.primary_key == primary_key@,
            r@.description is None,
            r@.created_timestamp is Some,
            r@.last_updated_timestamp is None,
            r@.tags == Seq::<(Seq<char>, Seq<char>)>::empty(),
            r@.owners == Seq::<Seq<char>>::empty(),
    {
        let r = Entity {
            name: String::from_str(name),
            variant,
            entity_type,
            primary_key: String::from_str(primary_key),
            description: None,
            created_timestamp: Some(now_seconds()),
            last_updated_timestamp: None,
            tags: Vec::new(),
            owners: Vec::new(),
        };
        proof {
            assert(r@.tags =~= Seq::<(Seq<char>, Seq<char>)>::empty());
            assert(r@.owners =~= Seq::<Seq<char>>::empty());
        }
        r
    }

    /// A new vertex-type entity.
    pub fn new_node_entity(name: &str, variant: Option<String>, tlabel: &str, primary_key: &str) -> (r:
        Entity)
        ensures
            r@.name == name@,
            r@.variant == variant.deep_view(),
            r@.entity_type == (EntityTypeView::NodeEntity { tlabel: tlabel@ }),
            r@.primary_key == primary_key@,
            r@.description is None,
            r@.created_timestamp is Some,
            r@.last_updated_timestamp is None,
            r@.tags == Seq::<(Seq<char>, Seq<char>)>::empty(),
            r@.owners == Seq::<Seq<char>>::empty(),
    {
        Entity::new(
            name,
            variant,
            EntityType::NodeEntity { tlabel: String::from_str(tlabel) },
            primary_key,
        )
    }

    /// A new edge-type entity; its primary key is conventionally
    /// `{srcEntityId}|{dstEntityId}`.
    pub fn new_edge_entity(
        name: &str,
        variant: Option<String>,
        tlabel: &str,
        src_entity: &Entity,
        dst_entity: &Entity,
    ) -> (r: Entity)
        ensures
            r@.name == name@,
            r@.variant == variant.deep_view(),
            r@.entity_type == (EntityTypeView::EdgeEntity { tlabel: tlabel@ }),
            r@.primary_key == spec_entity_id(src_entity@) + seq!['|'] + spec_entity_id(
                dst_entity@,
            ),
            r@.description is None,
            r@.created_timestamp is Some,
            r@.last_updated_timestamp is None,
            r@.tags == Seq::<(Seq<char>, Seq<char>)>::empty(),
            r@.owners == Seq::<Seq<char>>::empty(),
    {
        let mut pk = src_entity.resource_id();
        pk.append("|");
        let dst_id = dst_entity.resource_id();
        pk.append(dst_id.as_str());
        proof {
            reveal_strlit("|");
            assert(pk@ =~= spec_entity_id(src_entity@) + seq!['|'] + spec_entity_id(dst_entity@));
        }
        Entity::new(
            name,
            variant,
            EntityType::EdgeEntity { tlabel: String::from_str(tlabel) },
            pk.as_str(),
        )
    }
}

/// Reading an entity-type token pair laid down mid-stream recovers it.
pub proof fn lemma_rd_entity_type(ts: Seq<Seq<char>>, pos: int, v: EntityTypeView)
    requires
        0 <= pos,
        pos + toks_entity_type(v).len() <= ts.len(),
        forall|i: int|
            0 <= i < toks_entity_type(v).len() ==> ts[pos + i] == #[trigger] toks_entity_type(v)[i],
    ensures
        rd_entity_type(ts, pos) == Some((v, pos + toks_entity_type(v).len())),
{
    match v {
        EntityTypeView::NodeEntity { tlabel } => {
            assert(toks_entity_type(v)[0] == seq!['n']);
            assert(toks_entity_type(v)[1] == tlabel);
            assert(ts[pos] == seq!['n']);
            assert(ts[pos + 1] == tlabel);
        },
        EntityTypeView::EdgeEntity { tlabel } => {
            assert(toks_entity_type(v)[0] == seq!['e']);
            assert(toks_entity_type(v)[1] == tlabel);
            assert(ts[pos] == seq!['e']);
            assert(ts[pos + 1] == tlabel);
        },
    }
}

/// Token round trip for entities: decoding what an entity encodes to yields
/// the same view.
#[verifier::rlimit(50)]
pub proof fn lemma_entity_round_trip(v: EntityView)
    requires
        v.tags.len() <= u64::MAX,
        v.owners.len() <= u64::MAX,
    ensures
        rd_entity(spec_entity_tokens(v), 0) == Some(
            (v, spec_entity_tokens(v).len() as int),
        ),
{
    let ts = spec_entity_tokens(v);
    let ta = toks_str(v.name);
    let tb = toks_opt_str(v.variant);
    let tc = toks_entity_type(v.entity_type);
    let td = toks_str(v.primary_key);
    let te = toks_opt_str(v.description);
    let tf = toks_opt_i64(v.created_timestamp);
    let tg = toks_opt_i64(v.last_updated_timestamp);
    let th = toks_pairs(v.tags);
    let ti = toks_strs(v.owners);
    let p1 = ta.len() as int;
    let p2 = p1 + tb.len();
    let p3 = p2 + tc.len();
    let p4 = p3 + td.len();
    let p5 = p4 + te.len();
    let p6 = p5 + tf.len();
    let p7 = p6 + tg.len();
    let p8 = p7 + th.len();
    let p9 = p8 + ti.len();
    crate::record::lemma_flat_pairs_index(v.tags);
    assert(ts.len() == p9);
    // name
    assert(ts[0] == v.name);
    assert(rd_str(ts, 0) == Some((v.name, p1)));
    // variant
    assert forall|i: int| 0 <= i < tb.len() implies ts[p1 + i] == #[trigger] tb[i] by {}
    crate::record::lemma_rd_opt_str(ts, p1, v.variant);
    // entity type
    assert forall|i: int| 0 <= i < tc.len() implies ts[p2 + i] == #[trigger] tc[i] by {}
    lemma_rd_entity_type(ts, p2, v.entity_type);
    // primary key
    assert(ts[p3] == v.primary_key);
    assert(rd_str(ts, p3) == Some((v.primary_key, p4)));
    // description
    assert forall|i: int| 0 <= i < te.len() implies ts[p4 + i] == #[trigger] te[i] by {}
    crate::record::lemma_rd_opt_str(ts, p4, v.description);
    // created timestamp
    assert forall|i: int| 0 <= i < tf.len() implies ts[p5 + i] == #[trigger] tf[i] by {}
    crate::record::lemma_rd_opt_i64(ts, p5, v.created_timestamp);
    // last updated timestamp
    assert forall|i: int| 0 <= i < tg.len() implies ts[p6 + i] == #[trigger] tg[i] by {}
    crate::record::lemma_rd_opt_i64(ts, p6, v.last_updated_timestamp);
    // tags
    assert(ts[p7] == crate::codec::dec_digits(v.tags.len()));
    assert forall|i: int|
        0 <= i < v.tags.len() implies ts[p7 + 1 + 2 * i] == (#[trigger] v.tags[i]).0 && ts[p7 + 1
        + 2 * i + 1] == v.tags[i].1 by {
        assert(ts[p7 + 1 + 2 * i] == crate::record::flat_pairs(v.tags)[2 * i]);
        assert(ts[p7 + 1 + 2 * i + 1] == crate::record::flat_pairs(v.tags)[2 * i + 1]);
    }
    crate::record::lemma_rd_pairs(ts, p7, v.tags);
    // owners
    assert(ts[p8] == crate::codec::dec_digits(v.owners.len()));
    assert forall|i: int| 0 <= i < v.owners.len() implies ts[p8 + 1 + i] == #[trigger] v.owners[i]
    by {
        assert(ts[p8 + 1 + i] == toks_strs(v.owners)[1 + i]);
    }
    crate::record::lemma_rd_strs(ts, p8, v.owners);
}

} // verus!
