//! Typed, named attributes bound to exactly one entity.

use crate::feature::{
    dup_opt_string, lemma_rd_value_type, rd_value_type, toks_value_type, write_value_type,
    FeatureValueType, ResourceOp,
};
use crate::identity::{
    id_to_name_before_last, make_resource_id, opt_str_view, opt_view, spec_name_before_last,
    spec_resource_id, two_slashes,
};
use crate::record::{
    rd_opt_str, rd_pairs, rd_str, rd_strs, toks_opt_str, toks_pairs, toks_str, toks_strs,
    write_opt_str, write_pairs, write_str, write_strs,
};
use crate::Entity;
use crate::GfsError;
use crate::ResourceId;
use vstd::prelude::*;
use vstd::string::*;

verus! {

/// A typed, named attribute of one entity; `transformation_id` is absent for
/// a raw/source field and set for a derived one.
#[derive(Debug, PartialEq, Eq)]
pub struct Field {
    pub name: String,
    pub variant: Option<String>,
    pub value_type: FeatureValueType,
    pub entity_id: String,
    pub transformation_id: Option<String>,
    pub description: Option<String>,
    pub tags: Vec<(String, String)>,
    pub owners: Vec<String>,
}

pub ghost struct FieldView {
    pub name: Seq<char>,
    pub variant: Option<Seq<char>>,
    pub value_type: FeatureValueType,
    pub entity_id: Seq<char>,
    pub transformation_id: Option<Seq<char>>,
    pub description: Option<Seq<char>>,
    pub tags: Seq<(Seq<char>, Seq<char>)>,
    pub owners: Seq<Seq<char>>,
}

impl DeepView for Field {
    type V = FieldView;

    open spec fn deep_view(&self) -> FieldView {
        self.view()
    }
}

impl View for Field {
    type V = FieldView;

    open spec fn view(&self) -> FieldView {
        FieldView {
            name: self.name@,
            variant: self.variant.deep_view(),
            value_type: self.value_type,
            entity_id: self.entity_id@,
            transformation_id: self.transformation_id.deep_view(),
            description: self.description.deep_view(),
            tags: self.tags.deep_view(),
            owners: self.owners.deep_view(),
        }
    }
}

/// The id of a field: `Field/{entityName}/{name}/{variant}`, where the
/// entity name is the second-to-last segment of the owning entity's id.
pub open spec fn spec_field_id(v: FieldView) -> Seq<char> {
    spec_resource_id(
        "Field/"@ + spec_name_before_last(v.entity_id),
        v.name,
        opt_view(v.variant),
    )
}

pub open spec fn spec_field_tokens(v: FieldView) -> Seq<Seq<char>> {
    toks_str(v.name) + toks_opt_str(v.variant) + toks_value_type(v.value_type) + toks_str(
        v.entity_id,
    ) + toks_opt_str(v.transformation_id) + toks_opt_str(v.description) + toks_pairs(v.tags)
        + toks_strs(v.owners)
}

pub open spec fn rd_field(ts: Seq<Seq<char>>, pos: int) -> Option<(FieldView, int)> {
    match rd_str(ts, pos) {
        None => None,
        Some((name, p1)) => match rd_opt_str(ts, p1) {
            None => None,
            Some((variant, p2)) => match rd_value_type(ts, p2) {
                None => None,
                Some((vt, p3)) => match rd_str(ts, p3) {
                    None => None,
                    Some((eid, p4)) => match rd_opt_str(ts, p4) {
                        None => None,
                        Some((tid, p5)) => match rd_opt_str(ts, p5) {
                            None => None,
                            Some((desc, p6)) => match rd_pairs(ts, p6) {
                                None => None,
                                Some((tags, p7)) => match rd_strs(ts, p7) {
                                    None => None,
                                    Some((owners, p8)) => Some(
                                        (
                                            FieldView {
                                                name,
                                                variant,
                                                value_type: vt,
                                                entity_id: eid,
                                                transformation_id: tid,
                                                description: desc,
                                                tags,
                                                owners,
                                            },
                                            p8,
                                        ),
                                    ),
                                },
                            },
                        },
                    },
                },
            },
        },
    }
}

impl ResourceOp for Field {
    open spec fn id_wf(&self) -> bool {
        two_slashes(self@.entity_id)
    }

    open spec fn spec_id(&self) -> Seq<char> {
        spec_field_id(self@)
    }

    open spec fn spec_tokens(&self) -> Seq<Seq<char>> {
        spec_field_tokens(self@)
    }

    open spec fn spec_id_to_name(id: Seq<char>) -> Seq<char> {
        spec_name_before_last(id)
    }

    fn resource_id(&self) -> (r: ResourceId) {
        let entity_name = id_to_name_before_last(self.entity_id.as_str());
        let mut kind = String::from_str("Field/");
        kind.append(entity_name.as_str());
        let r = make_resource_id(kind.as_str(), self.name.as_str(), &self.variant);
        proof {
            assert(opt_str_view(self.variant) == opt_view(self@.variant));
        }
        r
    }

    fn to_tokens(&self) -> (toks: Vec<String>) {
        let mut out: Vec<String> = Vec::new();
        write_str(&mut out, self.name.as_str());
        write_opt_str(&mut out, &self.variant);
        write_value_type(&mut out, &self.value_type);
        write_str(&mut out, self.entity_id.as_str());
        write_opt_str(&mut out, &self.transformation_id);
        write_opt_str(&mut out, &self.description);
        write_pairs(&mut out, &self.tags);
        write_strs(&mut out, &self.owners);
        proof {
            assert(out.deep_view() =~= spec_field_tokens(self@));
        }
        out
    }

    fn id_to_name(id: &str) -> (r: String) {
        id_to_name_before_last(id)
    }
}

/// A copy of a field list whose equality (by view) with the original is
/// known to verified callers.
pub fn dup_fields(v: &Vec<Field>) -> (r: Vec<Field>)
    ensures
        r.deep_view() == v.deep_view(),
{
    let mut out: Vec<Field> = Vec::new();
    let mut i: usize = 0;
    while i < v.len()
        invariant
            i <= v.len(),
            out.deep_view() == v.deep_view().subrange(0, i as int),
        decreases v.len() - i,
    {
        let ghost prev = out.deep_view();
        let f = v[i].duplicate();
        let ghost fv = f@;
        out.push(f);
        proof {
            assert(out.deep_view() =~= prev.push(fv));
            assert(out.deep_view() =~= v.deep_view().subrange(0, i + 1));
        }
        i = i + 1;
    }
    proof {
        assert(v.deep_view().subrange(0, v.len() as int) =~= v.deep_view());
    }
    out
}

impl Field {
    /// A structural copy whose equality (by view) with the original is
    /// known to verified callers.
    pub fn duplicate(&self) -> (r: Field)
        ensures
            r@ == self@,
    {
        Field {
            name: self.name.clone(),
            variant: dup_opt_string(&self.variant),
            value_type: self.value_type.duplicate(),
            entity_id: self.entity_id.clone(),
            transformation_id: dup_opt_string(&self.transformation_id),
            description: dup_opt_string(&self.description),
            tags: crate::feature::dup_pairs(&self.tags),
            owners: crate::feature::dup_strings(&self.owners),
        }
    }

    /// Decodes a field from its token list.  Mirrors [`rd_field`] exactly.
    pub(crate) fn from_tokens(ts: &Vec<String>, pos: usize) -> (r: Result<
        (Field, usize),
        GfsError,
    >)
        ensures
            match r {
                Ok((f, p)) => rd_field(ts.deep_view(), pos as int) == Some((f@, p as int)),
                Err(e) => e == GfsError::DecodeError && rd_field(ts.deep_view(), pos as int)
                    == None::<(FieldView, int)>,
            },
    {
        let (name, p1) = crate::record::read_str(ts, pos)?;
        let (variant, p2) = crate::record::read_opt_str(ts, p1)?;
        let (value_type, p3) = crate::feature::read_value_type(ts, p2)?;
        let (entity_id, p4) = crate::record::read_str(ts, p3)?;
        let (transformation_id, p5) = crate::record::read_opt_str(ts, p4)?;
        let (description, p6) = crate::record::read_opt_str(ts, p5)?;
        let (tags, p7) = crate::record::read_pairs(ts, p6)?;
        let (owners, p8) = crate::record::read_strs(ts, p7)?;
        Ok(
            (
                Field {
                    name,
                    variant,
                    value_type,
                    entity_id,
                    transformation_id,
                    description,
                    tags,
                    owners,
                },
                p8,
            ),
        )
    }

    /// Raw/source fields on `entity`, one per (name, value type) pair, all
    /// sharing the given variant.
    pub fn new_fields(name_values: Vec<(String, FeatureValueType)>, entity: &Entity, variant: Option<
        String,
    >) -> (r: Vec<Field>)
        ensures
            r.deep_view().len() == name_values@.len(),
            forall|i: int|
                0 <= i < name_values@.len() ==> {
                    let fv = #[trigger] r.deep_view()[i];
                    &&& fv.name == name_values@[i].0@
                    &&& fv.variant == variant.deep_view()
                    &&& fv.value_type == name_values@[i].1
                    &&& fv.entity_id == crate::feature::spec_entity_id(entity@)
                    &&& fv.transformation_id is None
                    &&& fv.description is None
                    &&& fv.tags.len() == 0
                    &&& fv.owners.len() == 0
                },
    {
        let entity_id = entity.resource_id();
        let mut out: Vec<Field> = Vec::new();
        let mut i: usize = 0;
        while i < name_values.len()
            invariant
                i <= name_values@.len(),
                entity_id@ == crate::feature::spec_entity_id(entity@),
                out.deep_view().len() == i,
                forall|k: int|
                    0 <= k < i ==> {
                        let fv = #[trigger] out.deep_view()[k];
                        &&& fv.name == name_values@[k].0@
                        &&& fv.variant == variant.deep_view()
                        &&& fv.value_type == name_values@[k].1
                        &&& fv.entity_id == crate::feature::spec_entity_id(entity@)
                        &&& fv.transformation_id is None
                        &&& fv.description is None
                        &&& fv.tags.len() == 0
                        &&& fv.owners.len() == 0
                    },
            decreases name_values.len() - i,
        {
            let f = Field {
                name: name_values[i].0.clone(),
                variant: dup_opt_string(&variant),
                value_type: name_values[i].1.duplicate(),
                entity_id: entity_id.clone(),
                transformation_id: None,
                description: None,
                tags: Vec::new(),
                owners: Vec::new(),
            };
            let ghost prev = out.deep_view();
            let ghost fv = f@;
            out.push(f);
            proof {
                assert(out.deep_view() =~= prev.push(fv));
            }
            i = i + 1;
        }
        out
    }
}

/// Token round trip for fields.
#[verifier::rlimit(50)]
pub proof fn lemma_field_round_trip(v: FieldView)
    requires
        v.tags.len() <= u64::MAX,
        v.owners.len() <= u64::MAX,
    ensures
        rd_field(spec_field_tokens(v), 0) == Some((v, spec_field_tokens(v).len() as int)),
{
    let ts = spec_field_tokens(v);
    let ta = toks_str(v.name);
    let tb = toks_opt_str(v.variant);
    let tc = toks_value_type(v.value_type);
    let td = toks_str(v.entity_id);
    let te = toks_opt_str(v.transformation_id);
    let tf = toks_opt_str(v.description);
    let tg = toks_pairs(v.tags);
    let th = toks_strs(v.owners);
    let p1 = ta.len() as int;
    let p2 = p1 + tb.len();
    let p3 = p2 + tc.len();
    let p4 = p3 + td.len();
    let p5 = p4 + te.len();
    let p6 = p5 + tf.len();
    let p7 = p6 + tg.len();
    let p8 = p7 + th.len();
    crate::record::lemma_flat_pairs_index(v.tags);
    assert(ts.len() == p8);
    assert(ts[0] == v.name);
    assert(rd_str(ts, 0) == Some((v.name, p1)));
    assert forall|i: int| 0 <= i < tb.len() implies ts[p1 + i] == #[trigger] tb[i] by {}
    crate::record::lemma_rd_opt_str(ts, p1, v.variant);
    assert forall|i: int| 0 <= i < tc.len() implies ts[p2 + i] == #[trigger] tc[i] by {}
    lemma_rd_value_type(ts, p2, v.value_type);
    assert(ts[p3] == v.entity_id);
    assert(rd_str(ts, p3) == Some((v.entity_id, p4)));
    assert forall|i: int| 0 <= i < te.len() implies ts[p4 + i] == #[trigger] te[i] by {}
    crate::record::lemma_rd_opt_str(ts, p4, v.transformation_id);
    assert forall|i: int| 0 <= i < tf.len() implies ts[p5 + i] == #[trigger] tf[i] by {}
    crate::record::lemma_rd_opt_str(ts, p5, v.description);
    assert(ts[p6] == crate::codec::dec_digits(v.tags.len()));
    assert forall|i: int|
        0 <= i < v.tags.len() implies ts[p6 + 1 + 2 * i] == (#[trigger] v.tags[i]).0 && ts[p6 + 1
        + 2 * i + 1] == v.tags[i].1 by {
        assert(ts[p6 + 1 + 2 * i] == crate::record::flat_pairs(v.tags)[2 * i]);
        assert(ts[p6 + 1 + 2 * i + 1] == crate::record::flat_pairs(v.tags)[2 * i + 1]);
    }
    crate::record::lemma_rd_pairs(ts, p6, v.tags);
    assert(ts[p7] == crate::codec::dec_digits(v.owners.len()));
    assert forall|i: int| 0 <= i < v.owners.len() implies ts[p7 + 1 + i] == #[trigger] v.owners[i]
    by {
        assert(ts[p7 + 1 + i] == toks_strs(v.owners)[1 + i]);
    }
    crate::record::lemma_rd_strs(ts, p7, v.owners);
}

} // verus!
