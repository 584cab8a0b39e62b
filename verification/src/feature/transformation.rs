//! Provenance records: named, versioned snapshots of a transformation plan.

use crate::feature::{
    lemma_rd_value_type, rd_value_type, toks_value_type, write_value_type, FeatureValueType,
    ResourceOp,
};
use crate::identity::{
    id_to_name, make_resource_id, opt_str_view, opt_view, spec_name_in_id, spec_resource_id,
    two_slashes,
};
use crate::record::{
    rd_id_pairs, rd_opt_str, rd_pairs, rd_str, rd_strs, toks_id_pairs, toks_opt_str, toks_pairs,
    toks_str, toks_strs, write_id_pairs, write_opt_str, write_pairs, write_str, write_strs,
};
use crate::transformation::DataIdT;
use crate::GfsError;
use crate::ResourceId;
use vstd::prelude::*;
use vstd::string::*;

verus! {

/// How a transformation's body is expressed.
#[derive(Debug, PartialEq, Eq, Structural)]
pub enum TransformationType {
    Cypher,
    CustomFunction,
}

impl TransformationType {
    /// A structural copy whose equality with the original is known to
    /// verified callers.
    pub fn duplicate(&self) -> (r: Self)
        ensures
            r == *self,
    {
        match self {
            TransformationType::Cypher => TransformationType::Cypher,
            TransformationType::CustomFunction => TransformationType::CustomFunction,
        }
    }
}

pub open spec fn toks_transformation_type(t: TransformationType) -> Seq<Seq<char>> {
    match t {
        TransformationType::Cypher => seq![seq!['q']],
        TransformationType::CustomFunction => seq![seq!['g']],
    }
}

pub open spec fn rd_transformation_type(ts: Seq<Seq<char>>, pos: int) -> Option<
    (TransformationType, int),
> {
    if 0 <= pos < ts.len() {
        let t = ts[pos];
        if t.len() == 1 && t[0] == 'q' {
            Some((TransformationType::Cypher, pos + 1))
        } else if t.len() == 1 && t[0] == 'g' {
            Some((TransformationType::CustomFunction, pos + 1))
        } else {
            None
        }
    } else {
        None
    }
}

pub fn write_transformation_type(out: &mut Vec<String>, t: &TransformationType)
    ensures
        final(out).deep_view() == old(out).deep_view() + toks_transformation_type(*t),
{
    proof {
        reveal_strlit("q");
        reveal_strlit("g");
    }
    match t {
        TransformationType::Cypher => {
            out.push(String::from_str("q"));
            proof {
                assert("q"@ =~= seq!['q']);
                assert(out.deep_view() =~= old(out).deep_view() + toks_transformation_type(*t));
            }
        },
        TransformationType::CustomFunction => {
            out.push(String::from_str("g"));
            proof {
                assert("g"@ =~= seq!['g']);
                assert(out.deep_view() =~= old(out).deep_view() + toks_transformation_type(*t));
            }
        },
    }
}

pub fn read_transformation_type(ts: &Vec<String>, pos: usize) -> (r: Result<
    (TransformationType, usize),
    GfsError,
>)
    ensures
        match r {
            Ok((t, p)) => rd_transformation_type(ts.deep_view(), pos as int) == Some(
                (t, p as int),
            ),
            Err(e) => e == GfsError::DecodeError && rd_transformation_type(
                ts.deep_view(),
                pos as int,
            ) == None::<(TransformationType, int)>,
        },
{
    if pos >= ts.len() {
        return Err(GfsError::DecodeError);
    }
    let t = ts[pos].as_str();
    if t.unicode_len() != 1 {
        return Err(GfsError::DecodeError);
    }
    let c = t.get_char(0);
    if c == 'q' {
        Ok((TransformationType::Cypher, pos + 1))
    } else if c == 'g' {
        Ok((TransformationType::CustomFunction, pos + 1))
    } else {
        Err(GfsError::DecodeError)
    }
}

/// A named, versioned record of provenance: source field ids, exported
/// (node id, resource id) pairs, and an opaque serialized snapshot of the
/// plan that produced it.
#[derive(Debug, PartialEq, Eq)]
pub struct Transformation {
    pub name: String,
    pub variant: Option<String>,
    /// Exported (internal node id, produced resource id) pairs, in export
    /// order.
    pub export_resources: Vec<(DataIdT, ResourceId)>,
    pub source_field_ids: Vec<ResourceId>,
    pub dest_type: FeatureValueType,
    pub transformation_type: TransformationType,
    /// A serialized snapshot of the plan, kept verbatim for audit.
    pub body: String,
    pub description: Option<String>,
    pub tags: Vec<(String, String)>,
    pub owners: Vec<String>,
}

pub ghost struct TransformationView {
    pub name: Seq<char>,
    pub variant: Option<Seq<char>>,
    pub export_resources: Seq<(DataIdT, Seq<char>)>,
    pub source_field_ids: Seq<Seq<char>>,
    pub dest_type: FeatureValueType,
    pub transformation_type: TransformationType,
    pub body: Seq<char>,
    pub description: Option<Seq<char>>,
    pub tags: Seq<(Seq<char>, Seq<char>)>,
    pub owners: Seq<Seq<char>>,
}

impl DeepView for Transformation {
    type V = TransformationView;

    open spec fn deep_view(&self) -> TransformationView {
        self.view()
    }
}

impl View for Transformation {
    type V = TransformationView;

    open spec fn view(&self) -> TransformationView {
        TransformationView {
            name: self.name@,
            variant: self.variant.deep_view(),
            export_resources: self.export_resources.deep_view(),
            source_field_ids: self.source_field_ids.deep_view(),
            dest_type: self.dest_type,
            transformation_type: self.transformation_type,
            body: self.body@,
            description: self.description.deep_view(),
            tags: self.tags.deep_view(),
            owners: self.owners.deep_view(),
        }
    }
}

pub open spec fn spec_transformation_id(v: TransformationView) -> Seq<char> {
    spec_resource_id("Transformation"@, v.name, opt_view(v.variant))
}

pub open spec fn spec_transformation_tokens(v: TransformationView) -> Seq<Seq<char>> {
    toks_str(v.name) + toks_opt_str(v.variant) + toks_id_pairs(v.export_resources) + toks_strs(
        v.source_field_ids,
    ) + toks_value_type(v.dest_type) + toks_transformation_type(v.transformation_type) + toks_str(
        v.body,
    ) + toks_opt_str(v.description) + toks_pairs(v.tags) + toks_strs(v.owners)
}

pub open spec fn rd_transformation(ts: Seq<Seq<char>>, pos: int) -> Option<
    (TransformationView, int),
> {
    match rd_str(ts, pos) {
        None => None,
        Some((name, p1)) => match rd_opt_str(ts, p1) {
            None => None,
            Some((variant, p2)) => match rd_id_pairs(ts, p2) {
                None => None,
                Some((exports, p3)) => match rd_strs(ts, p3) {
                    None => None,
                    Some((sids, p4)) => match rd_value_type(ts, p4) {
                        None => None,
                        Some((dt, p5)) => match rd_transformation_type(ts, p5) {
                            None => None,
                            Some((tt, p6)) => match rd_str(ts, p6) {
                                None => None,
                                Some((body, p7)) => match rd_opt_str(ts, p7) {
                                    None => None,
                                    Some((desc, p8)) => match rd_pairs(ts, p8) {
                                        None => None,
                                        Some((tags, p9)) => match rd_strs(ts, p9) {
                                            None => None,
                                            Some((owners, p10)) => Some(
                                                (
                                                    TransformationView {
                                                        name,
                                                        variant,
                                                        export_resources: exports,
                                                        source_field_ids: sids,
                                                        dest_type: dt,
                                                        transformation_type: tt,
                                                        body,
                                                        description: desc,
                                                        tags,
                                                        owners,
                                                    },
                                                    p10,
                                                ),
                                            ),
                                        },
                                    },
                                },
                            },
                        },
                    },
                },
            },
        },
    }
}

impl ResourceOp for Transformation {
    open spec fn id_wf(&self) -> bool {
        true
    }

    open spec fn spec_id(&self) -> Seq<char> {
        spec_transformation_id(self@)
    }

    open spec fn spec_tokens(&self) -> Seq<Seq<char>> {
        spec_transformation_tokens(self@)
    }

    open spec fn spec_id_to_name(id: Seq<char>) -> Seq<char> {
        spec_name_in_id(id)
    }

    fn resource_id(&self) -> (r: ResourceId) {
        let r = make_resource_id("Transformation", self.name.as_str(), &self.variant);
        proof {
            assert(opt_str_view(self.variant) == opt_view(self@.variant));
        }
        r
    }

    fn to_tokens(&self) -> (toks: Vec<String>) {
        let mut out: Vec<String> = Vec::new();
        write_str(&mut out, self.name.as_str());
        write_opt_str(&mut out, &self.variant);
        write_id_pairs(&mut out, &self.export_resources);
        write_strs(&mut out, &self.source_field_ids);
        write_value_type(&mut out, &self.dest_type);
        write_transformation_type(&mut out, &self.transformation_type);
        write_str(&mut out, self.body.as_str());
        write_opt_str(&mut out, &self.description);
        write_pairs(&mut out, &self.tags);
        write_strs(&mut out, &self.owners);
        proof {
            assert(out.deep_view() =~= spec_transformation_tokens(self@));
        }
        out
    }

    fn id_to_name(id: &str) -> (r: String) {
        id_to_name(id)
    }
}

/// A copy of an export list whose equality (by view) with the original is
/// known to verified callers.
pub fn dup_id_pairs(v: &Vec<(DataIdT, String)>) -> (r: Vec<(DataIdT, String)>)
    ensures
        r.deep_view() == v.deep_view(),
{
    let mut out: Vec<(DataIdT, String)> = Vec::new();
    let mut i: usize = 0;
    while i < v.len()
        invariant
            i <= v.len(),
            out.deep_view() == v.deep_view().subrange(0, i as int),
        decreases v.len() - i,
    {
        let ghost prev = out.deep_view();
        out.push((v[i].0, v[i].1.clone()));
        proof {
            assert(out.deep_view() =~= prev.push(v.deep_view()[i as int]));
            assert(out.deep_view() =~= v.deep_view().subrange(0, i + 1));
        }
        i = i + 1;
    }
    proof {
        assert(v.deep_view().subrange(0, v.len() as int) =~= v.deep_view());
    }
    out
}

impl Transformation {
    /// A structural copy whose equality (by view) with the original is
    /// known to verified callers.
    pub fn duplicate(&self) -> (r: Transformation)
        ensures
            r@ == self@,
    {
        Transformation {
            name: self.name.clone(),
            variant: crate::feature::dup_opt_string(&self.variant),
            export_resources: dup_id_pairs(&self.export_resources),
            source_field_ids: crate::feature::dup_strings(&self.source_field_ids),
            dest_type: self.dest_type.duplicate(),
            transformation_type: self.transformation_type.duplicate(),
            body: self.body.clone(),
            description: crate::feature::dup_opt_string(&self.description),
            tags: crate::feature::dup_pairs(&self.tags),
            owners: crate::feature::dup_strings(&self.owners),
        }
    }

    /// Decodes a transformation from its token list.  Mirrors
    /// [`rd_transformation`].
    pub(crate) fn from_tokens(ts: &Vec<String>, pos: usize) -> (r: Result<
        (Transformation, usize),
        GfsError,
    >)
        ensures
            match r {
                Ok((t, p)) => rd_transformation(ts.deep_view(), pos as int) == Some(
                    (t@, p as int),
                ),
                Err(e) => e == GfsError::DecodeError && rd_transformation(
                    ts.deep_view(),
                    pos as int,
                ) == None::<(TransformationView, int)>,
            },
    {
        let (name, p1) = crate::record::read_str(ts, pos)?;
        let (variant, p2) = crate::record::read_opt_str(ts, p1)?;
        let (export_resources, p3) = crate::record::read_id_pairs(ts, p2)?;
        let (source_field_ids, p4) = crate::record::read_strs(ts, p3)?;
        let (dest_type, p5) = crate::feature::read_value_type(ts, p4)?;
        let (transformation_type, p6) = read_transformation_type(ts, p5)?;
        let (body, p7) = crate::record::read_str(ts, p6)?;
        let (description, p8) = crate::record::read_opt_str(ts, p7)?;
        let (tags, p9) = crate::record::read_pairs(ts, p8)?;
        let (owners, p10) = crate::record::read_strs(ts, p9)?;
        Ok(
            (
                Transformation {
                    name,
                    variant,
                    export_resources,
                    source_field_ids,
                    dest_type,
                    transformation_type,
                    body,
                    description,
                    tags,
                    owners,
                },
                p10,
            ),
        )
    }
}

/// Token round trip for transformations.
#[verifier::rlimit(80)]
pub proof fn lemma_transformation_round_trip(v: TransformationView)
    requires
        v.export_resources.len() <= u64::MAX,
        v.source_field_ids.len() <= u64::MAX,
        v.tags.len() <= u64::MAX,
        v.owners.len() <= u64::MAX,
    ensures
        rd_transformation(spec_transformation_tokens(v), 0) == Some(
            (v, spec_transformation_tokens(v).len() as int),
        ),
{
    let ts = spec_transformation_tokens(v);
    let ta = toks_str(v.name);
    let tb = toks_opt_str(v.variant);
    let tc = toks_id_pairs(v.export_resources);
    let td = toks_strs(v.source_field_ids);
    let te = toks_value_type(v.dest_type);
    let tf = toks_transformation_type(v.transformation_type);
    let tg = toks_str(v.body);
    let th = toks_opt_str(v.description);
    let ti = toks_pairs(v.tags);
    let tj = toks_strs(v.owners);
    let p1 = ta.len() as int;
    let p2 = p1 + tb.len();
    let p3 = p2 + tc.len();
    let p4 = p3 + td.len();
    let p5 = p4 + te.len();
    let p6 = p5 + tf.len();
    let p7 = p6 + tg.len();
    let p8 = p7 + th.len();
    let p9 = p8 + ti.len();
    let p10 = p9 + tj.len();
    crate::record::lemma_flat_pairs_index(v.tags);
    crate::record::lemma_flat_id_pairs_index(v.export_resources);
    assert(ts.len() == p10);
    assert(ts[0] == v.name);
    assert(rd_str(ts, 0) == Some((v.name, p1)));
    assert forall|i: int| 0 <= i < tb.len() implies ts[p1 + i] == #[trigger] tb[i] by {}
    crate::record::lemma_rd_opt_str(ts, p1, v.variant);
    assert(ts[p2] == crate::codec::dec_digits(v.export_resources.len()));
    assert forall|i: int|
        0 <= i < v.export_resources.len() implies ts[p2 + 1 + 2 * i] == crate::codec::dec_digits(
        (#[trigger] v.export_resources[i]).0 as nat,
    ) && ts[p2 + 1 + 2 * i + 1] == v.export_resources[i].1 by {
        assert(ts[p2 + 1 + 2 * i] == crate::record::flat_id_pairs(v.export_resources)[2 * i]);
        assert(ts[p2 + 1 + 2 * i + 1] == crate::record::flat_id_pairs(v.export_resources)[2 * i
            + 1]);
    }
    crate::record::lemma_rd_id_pairs(ts, p2, v.export_resources);
    assert(ts[p3] == crate::codec::dec_digits(v.source_field_ids.len()));
    assert forall|i: int|
        0 <= i < v.source_field_ids.len() implies ts[p3 + 1 + i] == #[trigger]
    v.source_field_ids[i] by {
        assert(ts[p3 + 1 + i] == toks_strs(v.source_field_ids)[1 + i]);
    }
    crate::record::lemma_rd_strs(ts, p3, v.source_field_ids);
    assert forall|i: int| 0 <= i < te.len() implies ts[p4 + i] == #[trigger] te[i] by {}
    lemma_rd_value_type(ts, p4, v.dest_type);
    assert(ts[p5] == toks_transformation_type(v.transformation_type)[0]);
    assert(rd_transformation_type(ts, p5) == Some((v.transformation_type, p6)));
    assert(ts[p6] == v.body);
    assert(rd_str(ts, p6) == Some((v.body, p7)));
    assert forall|i: int| 0 <= i < th.len() implies ts[p7 + i] == #[trigger] th[i] by {}
    crate::record::lemma_rd_opt_str(ts, p7, v.description);
    assert(ts[p8] == crate::codec::dec_digits(v.tags.len()));
    assert forall|i: int|
        0 <= i < v.tags.len() implies ts[p8 + 1 + 2 * i] == (#[trigger] v.tags[i]).0 && ts[p8 + 1
        + 2 * i + 1] == v.tags[i].1 by {
        assert(ts[p8 + 1 + 2 * i] == crate::record::flat_pairs(v.tags)[2 * i]);
        assert(ts[p8 + 1 + 2 * i + 1] == crate::record::flat_pairs(v.tags)[2 * i + 1]);
    }
    crate::record::lemma_rd_pairs(ts, p8, v.tags);
    assert(ts[p9] == crate::codec::dec_digits(v.owners.len()));
    assert forall|i: int| 0 <= i < v.owners.len() implies ts[p9 + 1 + i] == #[trigger] v.owners[i]
    by {
        assert(ts[p9 + 1 + i] == toks_strs(v.owners)[1 + i]);
    }
    crate::record::lemma_rd_strs(ts, p9, v.owners);
}

} // verus!
