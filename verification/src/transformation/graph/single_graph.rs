//! A single (large) graph node bucketing feature views per vertex/edge type.

use crate::feature::{dup_fields, Field, FieldView, ResourceOp, TopologyType};
use crate::transformation::graph::select::{
    DataFrameSet, DataFrameSetView, Selector, SelectorView, VertexSelectGraph, EdgeSelectGraph,
};
use crate::transformation::transformation_context::{
    DataNode, DataNodeView, DataTransformationContext, TransformationContext,
};
use crate::transformation::DataIdT;
use crate::GfsError;
use crate::Topology;
use vstd::prelude::*;
use vstd::string::*;

verus! {

/// One bucket: a type label mapped to a (view name, fields) table.
pub type Bucket = (String, (String, Vec<Field>));

pub type BucketView = (Seq<char>, (Seq<char>, Seq<FieldView>));

/// First value stored under `key` in an association list.
pub open spec fn assoc_get<V>(s: Seq<(Seq<char>, V)>, key: Seq<char>) -> Option<V>
    decreases s.len(),
{
    if s.len() == 0 {
        None
    } else if s[0].0 == key {
        Some(s[0].1)
    } else {
        assoc_get(s.drop_first(), key)
    }
}

/// Update-or-append under `key` in an association list.
pub open spec fn assoc_put<V>(s: Seq<(Seq<char>, V)>, key: Seq<char>, value: V) -> Seq<
    (Seq<char>, V),
>
    decreases s.len(),
{
    if s.len() == 0 {
        seq![(key, value)]
    } else if s[0].0 == key {
        seq![(key, value)] + s.drop_first()
    } else {
        seq![s[0]] + assoc_put(s.drop_first(), key, value)
    }
}

/// The values of an association list, in list order.
pub open spec fn assoc_values<V>(s: Seq<(Seq<char>, V)>) -> Seq<V> {
    Seq::new(s.len(), |i: int| s[i].1)
}

/// A single graph containing one or multiple types of vertices and edges:
/// per type label, the feature view serving it and the defining entity id.
#[derive(Debug)]
pub struct SingleGraph {
    pub context: DataTransformationContext,
    pub vertex_fvs: Vec<Bucket>,
    pub edge_fvs: Vec<Bucket>,
    pub vertex_entities: Vec<(String, String)>,
    pub edge_entities: Vec<(String, String)>,
    pub topology_type: Option<TopologyType>,
}

pub ghost struct SingleGraphView {
    pub id: DataIdT,
    pub vertex_fvs: Seq<BucketView>,
    pub edge_fvs: Seq<BucketView>,
    pub vertex_entities: Seq<(Seq<char>, Seq<char>)>,
    pub edge_entities: Seq<(Seq<char>, Seq<char>)>,
    pub topology_type: Option<TopologyType>,
}

impl View for SingleGraph {
    type V = SingleGraphView;

    open spec fn view(&self) -> SingleGraphView {
        SingleGraphView {
            id: self.context.id,
            vertex_fvs: self.vertex_fvs.deep_view(),
            edge_fvs: self.edge_fvs.deep_view(),
            vertex_entities: self.vertex_entities.deep_view(),
            edge_entities: self.edge_entities.deep_view(),
            topology_type: self.topology_type,
        }
    }
}

/// A copy of a bucket list whose equality (by view) with the original is
/// known to verified callers.
pub fn dup_buckets(v: &Vec<Bucket>) -> (r: Vec<Bucket>)
    ensures
        r.deep_view() == v.deep_view(),
{
    let mut out: Vec<Bucket> = Vec::new();
    let mut i: usize = 0;
    while i < v.len()
        invariant
            i <= v.len(),
            out.deep_view() == v.deep_view().subrange(0, i as int),
        decreases v.len() - i,
    {
        let ghost prev = out.deep_view();
        let b = (v[i].0.clone(), (v[i].1.0.clone(), dup_fields(&v[i].1.1)));
        let ghost bv = b.deep_view();
        out.push(b);
        proof {
            assert(out.deep_view() =~= prev.push(bv));
            assert(bv == v.deep_view()[i as int]);
            assert(out.deep_view() =~= v.deep_view().subrange(0, i + 1));
        }
        i = i + 1;
    }
    proof {
        assert(v.deep_view().subrange(0, v.len() as int) =~= v.deep_view());
    }
    out
}

/// Looks up the bucket stored under `key` (first match).
pub fn bucket_get(v: &Vec<Bucket>, key: &str) -> (r: Option<(String, Vec<Field>)>)
    ensures
        match r {
            Some(b) => assoc_get(v.deep_view(), key@) == Some(b.deep_view()),
            None => assoc_get(v.deep_view(), key@) is None,
        },
{
    let ghost full = v.deep_view();
    let mut i: usize = 0;
    let n = v.len();
    proof {
        assert(full.subrange(0, n as int) =~= full);
    }
    while i < n
        invariant
            i <= n,
            n == v.len(),
            full == v.deep_view(),
            assoc_get(full, key@) == assoc_get(full.subrange(i as int, n as int), key@),
        decreases n - i,
    {
        proof {
            let rest = full.subrange(i as int, n as int);
            assert(rest[0] == full[i as int]);
            assert(rest.drop_first() =~= full.subrange(i + 1, n as int));
        }
        if crate::storage::str_eq(v[i].0.as_str(), key) {
            return Some((v[i].1.0.clone(), dup_fields(&v[i].1.1)));
        }
        i = i + 1;
    }
    proof {
        assert(full.subrange(i as int, n as int) =~= Seq::<BucketView>::empty());
    }
    None
}

/// Inserts (update-or-append) a bucket under `key`.
pub fn bucket_put(v: &mut Vec<Bucket>, key: &str, value: (String, Vec<Field>))
    ensures
        final(v).deep_view() == assoc_put(old(v).deep_view(), key@, value.deep_view()),
{
    let ghost full = v.deep_view();
    let ghost vv = value.deep_view();
    let mut i: usize = 0;
    let n = v.len();
    proof {
        assert(full.subrange(0, n as int) =~= full);
        assert(full.subrange(0, 0) =~= Seq::<BucketView>::empty());
        assert(Seq::<BucketView>::empty() + assoc_put(full, key@, vv) =~= assoc_put(
            full,
            key@,
            vv,
        ));
    }
    while i < n
        invariant
            i <= n,
            n == v.len(),
            v.deep_view() == full,
            vv == value.deep_view(),
            full == old(v).deep_view(),
            forall|j: int| 0 <= j < i ==> (#[trigger] full[j]).0 != key@,
            assoc_put(full, key@, vv) == full.subrange(0, i as int) + assoc_put(
                full.subrange(i as int, n as int),
                key@,
                vv,
            ),
        decreases n - i,
    {
        if crate::storage::str_eq(v[i].0.as_str(), key) {
            let ghost rest = full.subrange(i as int, n as int);
            v.set(i, (String::from_str(key), value));
            proof {
                assert(rest[0] == full[i as int]);
                assert(rest[0].0 == key@);
                assert(assoc_put(rest, key@, vv) == seq![(key@, vv)] + rest.drop_first());
                assert(rest.drop_first() =~= full.subrange(i + 1, n as int));
                assert(v.deep_view() =~~= full.subrange(0, i as int) + (seq![(key@, vv)]
                    + full.subrange(i + 1, n as int)));
            }
            return ;
        }
        proof {
            let rest = full.subrange(i as int, n as int);
            assert(rest[0] == full[i as int]);
            assert(rest[0].0 != key@);
            assert(assoc_put(rest, key@, vv) == seq![rest[0]] + assoc_put(
                rest.drop_first(),
                key@,
                vv,
            ));
            assert(rest.drop_first() =~= full.subrange(i + 1, n as int));
            assert(full.subrange(0, i as int) + (seq![rest[0]] + assoc_put(
                full.subrange(i + 1, n as int),
                key@,
                vv,
            )) =~= full.subrange(0, i + 1) + assoc_put(full.subrange(i + 1, n as int), key@, vv));
        }
        i = i + 1;
    }
    let ghost prev = v.deep_view();
    v.push((String::from_str(key), value));
    proof {
        assert(full.subrange(i as int, n as int) =~= Seq::<BucketView>::empty());
        assert(assoc_put(Seq::<BucketView>::empty(), key@, vv) == seq![(key@, vv)]);
        assert(v.deep_view() =~~= prev.push((key@, vv)));
        assert(full.subrange(0, i as int) =~= full);
        assert(v.deep_view() =~= full.subrange(0, i as int) + assoc_put(
            full.subrange(i as int, n as int),
            key@,
            vv,
        ));
    }
}

/// Inserts (update-or-append) an id under `key` in a (label, id) list.
pub fn id_map_put(v: &mut Vec<(String, String)>, key: &str, value: String)
    ensures
        final(v).deep_view() == assoc_put(old(v).deep_view(), key@, value@),
{
    let ghost full = v.deep_view();
    let ghost vv = value@;
    let mut i: usize = 0;
    let n = v.len();
    proof {
        assert(full.subrange(0, n as int) =~= full);
        assert(full.subrange(0, 0) =~= Seq::<(Seq<char>, Seq<char>)>::empty());
        assert(Seq::<(Seq<char>, Seq<char>)>::empty() + assoc_put(full, key@, vv) =~= assoc_put(
            full,
            key@,
            vv,
        ));
    }
    while i < n
        invariant
            i <= n,
            n == v.len(),
            v.deep_view() == full,
            full == old(v).deep_view(),
            vv == value@,
            forall|j: int| 0 <= j < i ==> (#[trigger] full[j]).0 != key@,
            assoc_put(full, key@, vv) == full.subrange(0, i as int) + assoc_put(
                full.subrange(i as int, n as int),
                key@,
                vv,
            ),
        decreases n - i,
    {
        if crate::storage::str_eq(v[i].0.as_str(), key) {
            let ghost rest = full.subrange(i as int, n as int);
            v.set(i, (String::from_str(key), value));
            proof {
                assert(rest[0] == full[i as int]);
                assert(rest[0].0 == key@);
                assert(assoc_put(rest, key@, vv) == seq![(key@, vv)] + rest.drop_first());
                assert(rest.drop_first() =~= full.subrange(i + 1, n as int));
                assert(v.deep_view() =~~= full.subrange(0, i as int) + (seq![(key@, vv)]
                    + full.subrange(i + 1, n as int)));
            }
            return ;
        }
        proof {
            let rest = full.subrange(i as int, n as int);
            assert(rest[0] == full[i as int]);
            assert(rest[0].0 != key@);
            assert(assoc_put(rest, key@, vv) == seq![rest[0]] + assoc_put(
                rest.drop_first(),
                key@,
                vv,
            ));
            assert(rest.drop_first() =~= full.subrange(i + 1, n as int));
            assert(full.subrange(0, i as int) + (seq![rest[0]] + assoc_put(
                full.subrange(i + 1, n as int),
                key@,
                vv,
            )) =~= full.subrange(0, i + 1) + assoc_put(full.subrange(i + 1, n as int), key@, vv));
        }
        i = i + 1;
    }
    let ghost prev = v.deep_view();
    v.push((String::from_str(key), value));
    proof {
        assert(full.subrange(i as int, n as int) =~= Seq::<(Seq<char>, Seq<char>)>::empty());
        assert(assoc_put(Seq::<(Seq<char>, Seq<char>)>::empty(), key@, vv) == seq![(key@, vv)]);
        assert(v.deep_view() =~~= prev.push((key@, vv)));
        assert(full.subrange(0, i as int) =~= full);
        assert(v.deep_view() =~= full.subrange(0, i as int) + assoc_put(
            full.subrange(i as int, n as int),
            key@,
            vv,
        ));
    }
}

/// A copy of a (label, id) list whose equality (by view) with the original
/// is known to verified callers.
pub fn dup_id_map(v: &Vec<(String, String)>) -> (r: Vec<(String, String)>)
    ensures
        r.deep_view() == v.deep_view(),
{
    crate::feature::dup_pairs(v)
}

/// The bucketed state a graph construction folds up: one (view name,
/// fields) table and one entity id per type label, separately for vertex
/// and edge types, plus the last topology shape seen.
pub ghost struct SgAccum {
    pub vertex_fvs: Seq<BucketView>,
    pub edge_fvs: Seq<BucketView>,
    pub vertex_entities: Seq<(Seq<char>, Seq<char>)>,
    pub edge_entities: Seq<(Seq<char>, Seq<char>)>,
    pub topology_type: Option<crate::TopologyType>,
}

pub open spec fn sg_empty() -> SgAccum {
    SgAccum {
        vertex_fvs: Seq::<BucketView>::empty(),
        edge_fvs: Seq::<BucketView>::empty(),
        vertex_entities: Seq::<(Seq<char>, Seq<char>)>::empty(),
        edge_entities: Seq::<(Seq<char>, Seq<char>)>::empty(),
        topology_type: None,
    }
}

/// Fetching every field in an id list from the registry model, in order;
/// the first failure aborts.
pub open spec fn spec_resolve_fields(
    es: Seq<crate::storage::StoreEntry>,
    ids: Seq<Seq<char>>,
) -> Result<Seq<FieldView>, GfsError>
    decreases ids.len(),
{
    if ids.len() == 0 {
        Ok(Seq::<FieldView>::empty())
    } else {
        match crate::feature_registry::spec_get_field(es, ids[0]) {
            Err(e) => Err(e),
            Ok(f) => match spec_resolve_fields(es, ids.drop_first()) {
                Err(e) => Err(e),
                Ok(rest) => Ok(seq![f] + rest),
            },
        }
    }
}

/// Fetches every field in the id list from the registry, in order; the
/// first failure aborts the whole call.
pub fn resolve_fields<S: crate::storage::StorageProvider>(
    registry: &crate::FeatureRegistry<S>,
    ids: &Vec<String>,
) -> (r: Result<Vec<Field>, GfsError>)
    ensures
        match r {
            Ok(fs) => spec_resolve_fields(registry.storage.entries(), ids.deep_view()) == Ok::<
                _,
                GfsError,
            >(fs.deep_view()),
            Err(e) => e == GfsError::BackendError || spec_resolve_fields(
                registry.storage.entries(),
                ids.deep_view(),
            ) == Err::<Seq<FieldView>, _>(e),
        },
{
    let ghost es = registry.storage.entries();
    let ghost idv = ids.deep_view();
    let mut fields: Vec<Field> = Vec::new();
    let mut fi: usize = 0;
    proof {
        assert(idv.subrange(0, idv.len() as int) =~= idv);
        match spec_resolve_fields(es, idv) {
            Ok(fs) => {
                assert(Seq::<FieldView>::empty() + fs =~= fs);
            },
            Err(_) => {},
        }
    }
    while fi < ids.len()
        invariant
            fi <= idv.len(),
            idv == ids.deep_view(),
            es == registry.storage.entries(),
            match spec_resolve_fields(es, idv.subrange(fi as int, idv.len() as int)) {
                Ok(rest_fs) => spec_resolve_fields(es, idv) == Ok::<_, GfsError>(
                    fields.deep_view() + rest_fs,
                ),
                Err(e2) => spec_resolve_fields(es, idv) == Err::<Seq<FieldView>, _>(e2),
            },
        decreases idv.len() - fi,
    {
        let ghost frest = idv.subrange(fi as int, idv.len() as int);
        proof {
            assert(frest[0] == idv[fi as int]);
            assert(frest.drop_first() =~= idv.subrange(fi + 1, idv.len() as int));
        }
        let field = match registry.get_field(ids[fi].as_str()) {
            Ok(f) => f,
            Err(e) => {
                proof {
                    if e != GfsError::BackendError {
                        assert(spec_resolve_fields(es, frest) == Err::<Seq<FieldView>, _>(e));
                    }
                }
                return Err(e);
            },
        };
        let ghost prevf = fields.deep_view();
        let ghost fv = field@;
        fields.push(field);
        proof {
            assert(fields.deep_view() =~= prevf.push(fv));
            match spec_resolve_fields(es, idv.subrange(fi + 1, idv.len() as int)) {
                Ok(rest_fs) => {
                    assert(spec_resolve_fields(es, frest) == Ok::<_, GfsError>(
                        seq![fv] + rest_fs,
                    ));
                    assert(prevf + (seq![fv] + rest_fs) =~= fields.deep_view() + rest_fs);
                },
                Err(_) => {},
            }
        }
        fi = fi + 1;
    }
    proof {
        assert(idv.subrange(fi as int, idv.len() as int) =~= Seq::<Seq<char>>::empty());
        assert(spec_resolve_fields(es, Seq::<Seq<char>>::empty()) == Ok::<_, GfsError>(
            Seq::<FieldView>::empty(),
        ));
        assert(fields.deep_view() + Seq::<FieldView>::empty() =~= fields.deep_view());
    }
    Ok(fields)
}

/// Folding one feature view into the bucketed state: a table view resolves
/// its entity and fields and lands in the bucket of the entity's type
/// label; a topology view records its shape.
pub open spec fn spec_sg_step(
    es: Seq<crate::storage::StoreEntry>,
    acc: SgAccum,
    fv: crate::feature::FeatureViewView,
) -> Result<SgAccum, GfsError> {
    match fv {
        crate::feature::FeatureViewView::TableFeatureView(view) => match crate::feature_registry::spec_get_entity(
            es,
            view.entity_id,
        ) {
            Err(e) => Err(e),
            Ok(entity) => match spec_resolve_fields(es, view.field_ids) {
                Err(e) => Err(e),
                Ok(fields) => match entity.entity_type {
                    crate::feature::EntityTypeView::NodeEntity { tlabel } => Ok(
                        SgAccum {
                            vertex_fvs: assoc_put(acc.vertex_fvs, tlabel, (view.name, fields)),
                            vertex_entities: assoc_put(
                                acc.vertex_entities,
                                tlabel,
                                view.entity_id,
                            ),
                            ..acc
                        },
                    ),
                    crate::feature::EntityTypeView::EdgeEntity { tlabel } => Ok(
                        SgAccum {
                            edge_fvs: assoc_put(acc.edge_fvs, tlabel, (view.name, fields)),
                            edge_entities: assoc_put(acc.edge_entities, tlabel, view.entity_id),
                            ..acc
                        },
                    ),
                },
            },
        },
        crate::feature::FeatureViewView::TopologyFeatureView(view) => Ok(
            SgAccum { topology_type: Some(view.topology_type), ..acc },
        ),
    }
}

pub open spec fn spec_sg_fold(
    es: Seq<crate::storage::StoreEntry>,
    acc: SgAccum,
    fvs: Seq<crate::feature::FeatureViewView>,
) -> Result<SgAccum, GfsError>
    decreases fvs.len(),
{
    if fvs.len() == 0 {
        Ok(acc)
    } else {
        match spec_sg_step(es, acc, fvs[0]) {
            Err(e) => Err(e),
            Ok(a2) => spec_sg_fold(es, a2, fvs.drop_first()),
        }
    }
}

/// Folds one feature view into the bucketed construction state: the
/// executable counterpart of [`spec_sg_step`].  On failure the state is
/// untouched.
fn apply_feature_view<S: crate::storage::StorageProvider>(
    registry: &crate::FeatureRegistry<S>,
    fv: &crate::FeatureView,
    vertex_fvs: &mut Vec<Bucket>,
    edge_fvs: &mut Vec<Bucket>,
    vertex_entities: &mut Vec<(String, String)>,
    edge_entities: &mut Vec<(String, String)>,
    topology_type: &mut Option<TopologyType>,
) -> (r: Result<(), GfsError>)
    ensures
        match r {
            Ok(()) => spec_sg_step(
                registry.storage.entries(),
                SgAccum {
                    vertex_fvs: old(vertex_fvs).deep_view(),
                    edge_fvs: old(edge_fvs).deep_view(),
                    vertex_entities: old(vertex_entities).deep_view(),
                    edge_entities: old(edge_entities).deep_view(),
                    topology_type: *old(topology_type),
                },
                fv@,
            ) == Ok::<SgAccum, GfsError>(
                SgAccum {
                    vertex_fvs: final(vertex_fvs).deep_view(),
                    edge_fvs: final(edge_fvs).deep_view(),
                    vertex_entities: final(vertex_entities).deep_view(),
                    edge_entities: final(edge_entities).deep_view(),
                    topology_type: *final(topology_type),
                },
            ),
            Err(e) => {
                &&& (e == GfsError::BackendError || spec_sg_step(
                    registry.storage.entries(),
                    SgAccum {
                        vertex_fvs: old(vertex_fvs).deep_view(),
                        edge_fvs: old(edge_fvs).deep_view(),
                        vertex_entities: old(vertex_entities).deep_view(),
                        edge_entities: old(edge_entities).deep_view(),
                        topology_type: *old(topology_type),
                    },
                    fv@,
                ) == Err::<SgAccum, GfsError>(e))
                &&& *final(vertex_fvs) == *old(vertex_fvs)
                &&& *final(edge_fvs) == *old(edge_fvs)
                &&& *final(vertex_entities) == *old(vertex_entities)
                &&& *final(edge_entities) == *old(edge_entities)
                &&& *final(topology_type) == *old(topology_type)
            },
        },
{
    let ghost es = registry.storage.entries();
    let ghost acc = SgAccum {
        vertex_fvs: vertex_fvs.deep_view(),
        edge_fvs: edge_fvs.deep_view(),
        vertex_entities: vertex_entities.deep_view(),
        edge_entities: edge_entities.deep_view(),
        topology_type: *topology_type,
    };
    match fv {
        crate::FeatureView::TableFeatureView(view) => {
            proof {
                assert(fv@ == crate::feature::FeatureViewView::TableFeatureView(view@));
            }
            let entity = match registry.get_entity(view.entity_id.as_str()) {
                Ok(e) => e,
                Err(e) => {
                    proof {
                        if e != GfsError::BackendError {
                            assert(spec_sg_step(es, acc, fv@) == Err::<SgAccum, GfsError>(e));
                        }
                    }
                    return Err(e);
                },
            };
            let fields = match resolve_fields(registry, &view.field_ids) {
                Ok(fs) => fs,
                Err(e) => {
                    proof {
                        if e != GfsError::BackendError {
                            assert(spec_sg_step(es, acc, fv@) == Err::<SgAccum, GfsError>(e));
                        }
                    }
                    return Err(e);
                },
            };
            match &entity.entity_type {
                crate::EntityType::NodeEntity { tlabel } => {
                    bucket_put(vertex_fvs, tlabel.as_str(), (view.name.clone(), fields));
                    id_map_put(vertex_entities, tlabel.as_str(), view.entity_id.clone());
                },
                crate::EntityType::EdgeEntity { tlabel } => {
                    bucket_put(edge_fvs, tlabel.as_str(), (view.name.clone(), fields));
                    id_map_put(edge_entities, tlabel.as_str(), view.entity_id.clone());
                },
            }
            proof {
                let acc2 = SgAccum {
                    vertex_fvs: vertex_fvs.deep_view(),
                    edge_fvs: edge_fvs.deep_view(),
                    vertex_entities: vertex_entities.deep_view(),
                    edge_entities: edge_entities.deep_view(),
                    topology_type: *topology_type,
                };
                assert(spec_sg_step(es, acc, fv@) == Ok::<SgAccum, GfsError>(acc2));
            }
            Ok(())
        },
        crate::FeatureView::TopologyFeatureView(view) => {
            proof {
                assert(fv@ == crate::feature::FeatureViewView::TopologyFeatureView(view@));
            }
            *topology_type = Some(view.topology_type.duplicate());
            proof {
                let acc2 = SgAccum {
                    vertex_fvs: vertex_fvs.deep_view(),
                    edge_fvs: edge_fvs.deep_view(),
                    vertex_entities: vertex_entities.deep_view(),
                    edge_entities: edge_entities.deep_view(),
                    topology_type: *topology_type,
                };
                assert(spec_sg_step(es, acc, fv@) == Ok::<SgAccum, GfsError>(acc2));
            }
            Ok(())
        },
    }
}

/// Folding one entity id into the bucketed state when building from a
/// persisted graph: the entity is resolved, and every registered version
/// of its fields is pulled (not a pinned version — a known staleness
/// risk, preserved as-is) under a view named after the entity.
pub open spec fn spec_tr_step(
    es: Seq<crate::storage::StoreEntry>,
    acc: SgAccum,
    id: Seq<char>,
) -> Result<SgAccum, GfsError> {
    match crate::feature_registry::spec_get_entity(es, id) {
        Err(e) => Err(e),
        Ok(entity) => match crate::feature_registry::spec_get_fields(es, entity.name) {
            Err(e) => Err(e),
            Ok(fields) => match entity.entity_type {
                crate::feature::EntityTypeView::NodeEntity { tlabel } => Ok(
                    SgAccum {
                        vertex_fvs: assoc_put(
                            acc.vertex_fvs,
                            tlabel,
                            (entity.name + "_ALL_FIELDS"@, fields),
                        ),
                        vertex_entities: assoc_put(acc.vertex_entities, tlabel, id),
                        ..acc
                    },
                ),
                crate::feature::EntityTypeView::EdgeEntity { tlabel } => Ok(
                    SgAccum {
                        edge_fvs: assoc_put(
                            acc.edge_fvs,
                            tlabel,
                            (entity.name + "_ALL_FIELDS"@, fields),
                        ),
                        edge_entities: assoc_put(acc.edge_entities, tlabel, id),
                        ..acc
                    },
                ),
            },
        },
    }
}

pub open spec fn spec_tr_fold(
    es: Seq<crate::storage::StoreEntry>,
    acc: SgAccum,
    ids: Seq<Seq<char>>,
) -> Result<SgAccum, GfsError>
    decreases ids.len(),
{
    if ids.len() == 0 {
        Ok(acc)
    } else {
        match spec_tr_step(es, acc, ids[0]) {
            Err(e) => Err(e),
            Ok(a2) => spec_tr_fold(es, a2, ids.drop_first()),
        }
    }
}

/// Folds one entity id into the bucketed state: the executable
/// counterpart of [`spec_tr_step`].  On failure the state is untouched.
fn apply_entity_id<S: crate::storage::StorageProvider>(
    registry: &crate::FeatureRegistry<S>,
    id: &String,
    vertex_fvs: &mut Vec<Bucket>,
    edge_fvs: &mut Vec<Bucket>,
    vertex_entities: &mut Vec<(String, String)>,
    edge_entities: &mut Vec<(String, String)>,
) -> (r: Result<(), GfsError>)
    ensures
        match r {
            Ok(()) => (forall|t: Option<TopologyType>|
                spec_tr_step(
                    registry.storage.entries(),
                    SgAccum {
                        vertex_fvs: old(vertex_fvs).deep_view(),
                        edge_fvs: old(edge_fvs).deep_view(),
                        vertex_entities: old(vertex_entities).deep_view(),
                        edge_entities: old(edge_entities).deep_view(),
                        topology_type: t,
                    },
                    id@,
                ) == Ok::<SgAccum, GfsError>(
                    SgAccum {
                        vertex_fvs: final(vertex_fvs).deep_view(),
                        edge_fvs: final(edge_fvs).deep_view(),
                        vertex_entities: final(vertex_entities).deep_view(),
                        edge_entities: final(edge_entities).deep_view(),
                        topology_type: t,
                    },
                )),
            Err(e) => {
                &&& (e == GfsError::BackendError || (forall|t: Option<TopologyType>|
                    spec_tr_step(
                        registry.storage.entries(),
                        SgAccum {
                            vertex_fvs: old(vertex_fvs).deep_view(),
                            edge_fvs: old(edge_fvs).deep_view(),
                            vertex_entities: old(vertex_entities).deep_view(),
                            edge_entities: old(edge_entities).deep_view(),
                            topology_type: t,
                        },
                        id@,
                    ) == Err::<SgAccum, GfsError>(e)))
                &&& *final(vertex_fvs) == *old(vertex_fvs)
                &&& *final(edge_fvs) == *old(edge_fvs)
                &&& *final(vertex_entities) == *old(vertex_entities)
                &&& *final(edge_entities) == *old(edge_entities)
            },
        },
{
    let ghost es = registry.storage.entries();
    let entity = match registry.get_entity(id.as_str()) {
        Ok(e) => e,
        Err(e) => {
            return Err(e);
        },
    };
    let fields = match registry.get_entity_fields(entity.name.as_str()) {
        Ok(fs) => fs,
        Err(e) => {
            return Err(e);
        },
    };
    let mut view_name = entity.name.clone();
    view_name.append("_ALL_FIELDS");
    match &entity.entity_type {
        crate::EntityType::NodeEntity { tlabel } => {
            bucket_put(vertex_fvs, tlabel.as_str(), (view_name, fields));
            id_map_put(vertex_entities, tlabel.as_str(), id.clone());
        },
        crate::EntityType::EdgeEntity { tlabel } => {
            bucket_put(edge_fvs, tlabel.as_str(), (view_name, fields));
            id_map_put(edge_entities, tlabel.as_str(), id.clone());
        },
    }
    Ok(())
}

impl crate::Graph {
    /// Builds a single graph from this persisted graph: each referenced
    /// entity is resolved through the registry and bucketed by its type
    /// label, with ALL registered field versions pulled for it.  The node
    /// is appended to the owning context.
    #[verifier::rlimit(100)]
    pub fn transform<S: crate::storage::StorageProvider>(
        &self,
        ctx: &mut TransformationContext,
        registry: &crate::FeatureRegistry<S>,
    ) -> (r: Result<SingleGraph, GfsError>)
        requires
            old(ctx).next_data_id < crate::transformation::DataIdT::MAX,
        ensures
            match r {
                Ok(g) => {
                    &&& spec_tr_fold(registry.storage.entries(), sg_empty(), self@.entity_ids)
                        == Ok::<SgAccum, GfsError>(spec_sg_accum_of(g@))
                    &&& g@.topology_type is None
                    &&& g@.id == old(ctx).next_data_id
                    &&& final(ctx).next_data_id == old(ctx).next_data_id + 1
                    &&& final(ctx).data_vec.deep_view() == old(ctx).data_vec.deep_view().push(
                        DataNodeView::SingleGraph(g@),
                    )
                    &&& final(ctx).transformation == old(ctx).transformation
                },
                Err(e) => {
                    &&& (e == GfsError::BackendError || spec_tr_fold(
                        registry.storage.entries(),
                        sg_empty(),
                        self@.entity_ids,
                    ) == Err::<SgAccum, GfsError>(e))
                    &&& final(ctx).next_data_id == old(ctx).next_data_id
                    &&& final(ctx).data_vec == old(ctx).data_vec
                    &&& final(ctx).transformation == old(ctx).transformation
                },
            },
    {
        let ghost es = registry.storage.entries();
        let ghost ids = self.entity_ids.deep_view();
        let mut vertex_fvs: Vec<Bucket> = Vec::new();
        let mut edge_fvs: Vec<Bucket> = Vec::new();
        let mut vertex_entities: Vec<(String, String)> = Vec::new();
        let mut edge_entities: Vec<(String, String)> = Vec::new();
        let mut j: usize = 0;
        proof {
            assert(vertex_fvs.deep_view() =~= Seq::<BucketView>::empty());
            assert(edge_fvs.deep_view() =~= Seq::<BucketView>::empty());
            assert(vertex_entities.deep_view() =~= Seq::<(Seq<char>, Seq<char>)>::empty());
            assert(edge_entities.deep_view() =~= Seq::<(Seq<char>, Seq<char>)>::empty());
            assert(ids.subrange(0, ids.len() as int) =~= ids);
        }
        while j < self.entity_ids.len()
            invariant
                j <= ids.len(),
                ids == self.entity_ids.deep_view(),
                es == registry.storage.entries(),
                ctx.next_data_id == old(ctx).next_data_id,
                ctx.data_vec == old(ctx).data_vec,
                ctx.transformation == old(ctx).transformation,
                old(ctx).next_data_id < crate::transformation::DataIdT::MAX,
                spec_tr_fold(es, sg_empty(), ids) == spec_tr_fold(
                    es,
                    SgAccum {
                        vertex_fvs: vertex_fvs.deep_view(),
                        edge_fvs: edge_fvs.deep_view(),
                        vertex_entities: vertex_entities.deep_view(),
                        edge_entities: edge_entities.deep_view(),
                        topology_type: None,
                    },
                    ids.subrange(j as int, ids.len() as int),
                ),
            decreases ids.len() - j,
        {
            let ghost acc = SgAccum {
                vertex_fvs: vertex_fvs.deep_view(),
                edge_fvs: edge_fvs.deep_view(),
                vertex_entities: vertex_entities.deep_view(),
                edge_entities: edge_entities.deep_view(),
                topology_type: None,
            };
            let ghost rest = ids.subrange(j as int, ids.len() as int);
            proof {
                assert(rest[0] == ids[j as int]);
                assert(rest.drop_first() =~= ids.subrange(j + 1, ids.len() as int));
            }
            match apply_entity_id(
                registry,
                &self.entity_ids[j],
                &mut vertex_fvs,
                &mut edge_fvs,
                &mut vertex_entities,
                &mut edge_entities,
            ) {
                Ok(()) => (),
                Err(e) => {
                    proof {
                        if e != GfsError::BackendError {
                            assert(spec_tr_step(es, acc, ids[j as int]) == Err::<
                                SgAccum,
                                GfsError,
                            >(e));
                            assert(spec_tr_fold(es, acc, rest) == Err::<SgAccum, GfsError>(e));
                        }
                    }
                    return Err(e);
                },
            }
            j = j + 1;
        }
        proof {
            assert(ids.subrange(j as int, ids.len() as int) =~= Seq::<Seq<char>>::empty());
        }
        let id = ctx.new_data_id();
        let res = SingleGraph {
            context: DataTransformationContext { id },
            vertex_fvs,
            edge_fvs,
            vertex_entities,
            edge_entities,
            topology_type: None,
        };
        let node = res.duplicate();
        ctx.add_data(DataNode::SingleGraph(node));
        Ok(res)
    }
}

/// The bucketed state a graph node carries.
pub open spec fn spec_sg_accum_of(g: SingleGraphView) -> SgAccum {
    SgAccum {
        vertex_fvs: g.vertex_fvs,
        edge_fvs: g.edge_fvs,
        vertex_entities: g.vertex_entities,
        edge_entities: g.edge_entities,
        topology_type: g.topology_type,
    }
}

impl SingleGraph {
    /// Builds a single graph from an explicit dataset description: every
    /// table view's entity and fields are resolved through the registry
    /// and bucketed by the entity's type label; the last topology view
    /// seen sets the shape.  The node is appended to the owning context.
    #[verifier::rlimit(100)]
    pub fn from<S: crate::storage::StorageProvider>(
        ctx: &mut TransformationContext,
        meta: &crate::GraphDataset,
        registry: &crate::FeatureRegistry<S>,
    ) -> (r: Result<SingleGraph, GfsError>)
        requires
            old(ctx).next_data_id < crate::transformation::DataIdT::MAX,
            meta is SingleGraphDataset,
        ensures
            match r {
                Ok(g) => {
                    &&& (meta@ matches crate::feature::GraphDatasetView::SingleGraphDataset {
                        feature_views,
                        ..
                    } && spec_sg_fold(registry.storage.entries(), sg_empty(), feature_views)
                        == Ok::<SgAccum, GfsError>(spec_sg_accum_of(g@)))
                    &&& g@.id == old(ctx).next_data_id
                    &&& final(ctx).next_data_id == old(ctx).next_data_id + 1
                    &&& final(ctx).data_vec.deep_view() == old(ctx).data_vec.deep_view().push(
                        DataNodeView::SingleGraph(g@),
                    )
                    &&& final(ctx).transformation == old(ctx).transformation
                },
                Err(e) => {
                    &&& (e == GfsError::BackendError || (
                    meta@ matches crate::feature::GraphDatasetView::SingleGraphDataset {
                        feature_views,
                        ..
                    } && spec_sg_fold(registry.storage.entries(), sg_empty(), feature_views)
                        == Err::<SgAccum, GfsError>(e)))
                    &&& final(ctx).next_data_id == old(ctx).next_data_id
                    &&& final(ctx).data_vec == old(ctx).data_vec
                    &&& final(ctx).transformation == old(ctx).transformation
                },
            },
    {
        let ghost es = registry.storage.entries();
        let feature_views = match meta {
            crate::GraphDataset::SingleGraphDataset { feature_views, .. } => feature_views,
            crate::GraphDataset::MultipleGraphsDataset { .. } => {
                proof {
                    assert(false);
                }
                vstd::pervasive::unreached()
            },
        };
        let ghost fvs = feature_views.deep_view();
        let mut vertex_fvs: Vec<Bucket> = Vec::new();
        let mut edge_fvs: Vec<Bucket> = Vec::new();
        let mut vertex_entities: Vec<(String, String)> = Vec::new();
        let mut edge_entities: Vec<(String, String)> = Vec::new();
        let mut topology_type: Option<crate::TopologyType> = None;
        let mut j: usize = 0;
        proof {
            assert(vertex_fvs.deep_view() =~= Seq::<BucketView>::empty());
            assert(edge_fvs.deep_view() =~= Seq::<BucketView>::empty());
            assert(vertex_entities.deep_view() =~= Seq::<(Seq<char>, Seq<char>)>::empty());
            assert(edge_entities.deep_view() =~= Seq::<(Seq<char>, Seq<char>)>::empty());
            assert(fvs.subrange(0, fvs.len() as int) =~= fvs);
        }
        while j < feature_views.len()
            invariant
                j <= fvs.len(),
                fvs == feature_views.deep_view(),
                (meta@ matches crate::feature::GraphDatasetView::SingleGraphDataset {
                    feature_views: mfvs,
                    ..
                } && mfvs == fvs),
                es == registry.storage.entries(),
                ctx.next_data_id == old(ctx).next_data_id,
                ctx.data_vec == old(ctx).data_vec,
                ctx.transformation == old(ctx).transformation,
                old(ctx).next_data_id < crate::transformation::DataIdT::MAX,
                spec_sg_fold(es, sg_empty(), fvs) == spec_sg_fold(
                    es,
                    SgAccum {
                        vertex_fvs: vertex_fvs.deep_view(),
                        edge_fvs: edge_fvs.deep_view(),
                        vertex_entities: vertex_entities.deep_view(),
                        edge_entities: edge_entities.deep_view(),
                        topology_type: topology_type,
                    },
                    fvs.subrange(j as int, fvs.len() as int),
                ),
            decreases fvs.len() - j,
        {
            let ghost acc = SgAccum {
                vertex_fvs: vertex_fvs.deep_view(),
                edge_fvs: edge_fvs.deep_view(),
                vertex_entities: vertex_entities.deep_view(),
                edge_entities: edge_entities.deep_view(),
                topology_type: topology_type,
            };
            let ghost rest = fvs.subrange(j as int, fvs.len() as int);
            proof {
                assert(rest[0] == fvs[j as int]);
                assert(rest.drop_first() =~= fvs.subrange(j + 1, fvs.len() as int));
            }
            match apply_feature_view(
                registry,
                &feature_views[j],
                &mut vertex_fvs,
                &mut edge_fvs,
                &mut vertex_entities,
                &mut edge_entities,
                &mut topology_type,
            ) {
                Ok(()) => (),
                Err(e) => {
                    proof {
                        if e != GfsError::BackendError {
                            assert(spec_sg_step(es, acc, fvs[j as int]) == Err::<
                                SgAccum,
                                GfsError,
                            >(e));
                            assert(spec_sg_fold(es, acc, rest) == Err::<SgAccum, GfsError>(e));
                        }
                    }
                    return Err(e);
                },
            }
            j = j + 1;
        }
        proof {
            assert(fvs.subrange(j as int, fvs.len() as int) =~= Seq::<
                crate::feature::FeatureViewView,
            >::empty());
        }
        let id = ctx.new_data_id();
        let res = SingleGraph {
            context: DataTransformationContext { id },
            vertex_fvs,
            edge_fvs,
            vertex_entities,
            edge_entities,
            topology_type,
        };
        let node = res.duplicate();
        ctx.add_data(DataNode::SingleGraph(node));
        Ok(res)
    }

    /// A structural copy whose equality (by view) with the original is
    /// known to verified callers.
    pub fn duplicate(&self) -> (r: SingleGraph)
        ensures
            r@ == self@,
    {
        SingleGraph {
            context: DataTransformationContext { id: self.context.id },
            vertex_fvs: dup_buckets(&self.vertex_fvs),
            edge_fvs: dup_buckets(&self.edge_fvs),
            vertex_entities: dup_id_map(&self.vertex_entities),
            edge_entities: dup_id_map(&self.edge_entities),
            topology_type: match &self.topology_type {
                Some(t) => Some(t.duplicate()),
                None => None,
            },
        }
    }

    /// The entity ids of every edge type, in bucket order.
    pub fn get_edge_entity_ids(&self) -> (r: Vec<String>)
        ensures
            r.deep_view() == assoc_values(self@.edge_entities),
    {
        let mut out: Vec<String> = Vec::new();
        let mut i: usize = 0;
        while i < self.edge_entities.len()
            invariant
                i <= self.edge_entities@.len(),
                out.deep_view() == assoc_values(self.edge_entities.deep_view()).subrange(
                    0,
                    i as int,
                ),
            decreases self.edge_entities@.len() - i,
        {
            let ghost prev = out.deep_view();
            out.push(self.edge_entities[i].1.clone());
            proof {
                assert(out.deep_view() =~= prev.push(
                    assoc_values(self.edge_entities.deep_view())[i as int],
                ));
                assert(out.deep_view() =~= assoc_values(self.edge_entities.deep_view()).subrange(
                    0,
                    i + 1,
                ));
            }
            i = i + 1;
        }
        proof {
            assert(assoc_values(self.edge_entities.deep_view()).subrange(
                0,
                self.edge_entities@.len() as int,
            ) =~= assoc_values(self.edge_entities.deep_view()));
        }
        out
    }

    /// A homogeneous view over all vertices, regardless of type: a
    /// selection node with an unrestricted direct-access selector.
    pub fn vertices(&self, ctx: &mut TransformationContext) -> (r: VertexSelectGraph)
        requires
            old(ctx).next_data_id < DataIdT::MAX,
        ensures
            r@.id == old(ctx).next_data_id,
            r@.graph == self@.id,
            r@.selector == (SelectorView::DirectAccess { ltype: None::<Seq<char>> }),
            r@.df == (if self@.vertex_fvs.len() == 1 {
                DataFrameSetView::Homo(self@.vertex_fvs[0].1)
            } else {
                DataFrameSetView::Hetero(self@.vertex_fvs)
            }),
            final(ctx).next_data_id == old(ctx).next_data_id + 1,
            final(ctx).data_vec.deep_view() == old(ctx).data_vec.deep_view().push(
                DataNodeView::VertexSelect(r@),
            ),
            final(ctx).transformation == old(ctx).transformation,
    {
        let id = ctx.new_data_id();
        let df = if self.vertex_fvs.len() == 1 {
            DataFrameSet::Homo((self.vertex_fvs[0].1.0.clone(), dup_fields(&self.vertex_fvs[0].1.1)))
        } else {
            DataFrameSet::Hetero(dup_buckets(&self.vertex_fvs))
        };
        let r = VertexSelectGraph {
            context: DataTransformationContext { id },
            graph: self.context.id,
            selector: Selector::DirectAccess { ltype: None },
            df,
        };
        let node = VertexSelectGraph {
            context: DataTransformationContext { id },
            graph: r.graph,
            selector: Selector::DirectAccess { ltype: None },
            df: match &r.df {
                DataFrameSet::Homo(t) => DataFrameSet::Homo((t.0.clone(), dup_fields(&t.1))),
                DataFrameSet::Hetero(m) => DataFrameSet::Hetero(dup_buckets(m)),
            },
        };
        ctx.add_data(DataNode::VertexSelect(node));
        r
    }

    /// A homogeneous view over all edges, regardless of type.
    pub fn edges(&self, ctx: &mut TransformationContext) -> (r: EdgeSelectGraph)
        requires
            old(ctx).next_data_id < DataIdT::MAX,
        ensures
            r@.id == old(ctx).next_data_id,
            r@.graph == self@.id,
            r@.selector == (SelectorView::DirectAccess { ltype: None::<Seq<char>> }),
            r@.df == (if self@.edge_fvs.len() == 1 {
                DataFrameSetView::Homo(self@.edge_fvs[0].1)
            } else {
                DataFrameSetView::Hetero(self@.edge_fvs)
            }),
            final(ctx).next_data_id == old(ctx).next_data_id + 1,
            final(ctx).data_vec.deep_view() == old(ctx).data_vec.deep_view().push(
                DataNodeView::EdgeSelect(r@),
            ),
            final(ctx).transformation == old(ctx).transformation,
    {
        let id = ctx.new_data_id();
        let df = if self.edge_fvs.len() == 1 {
            DataFrameSet::Homo((self.edge_fvs[0].1.0.clone(), dup_fields(&self.edge_fvs[0].1.1)))
        } else {
            DataFrameSet::Hetero(dup_buckets(&self.edge_fvs))
        };
        let r = EdgeSelectGraph {
            context: DataTransformationContext { id },
            graph: self.context.id,
            selector: Selector::DirectAccess { ltype: None },
            df,
        };
        let node = EdgeSelectGraph {
            context: DataTransformationContext { id },
            graph: r.graph,
            selector: Selector::DirectAccess { ltype: None },
            df: match &r.df {
                DataFrameSet::Homo(t) => DataFrameSet::Homo((t.0.clone(), dup_fields(&t.1))),
                DataFrameSet::Hetero(m) => DataFrameSet::Hetero(dup_buckets(m)),
            },
        };
        ctx.add_data(DataNode::EdgeSelect(node));
        r
    }

    /// The vertices of one type, or an explicit absent result — not an
    /// error — if the type is unknown; callers branch normally on it.
    pub fn vertices_by_type(&self, ctx: &mut TransformationContext, t: &str) -> (r: Option<
        VertexSelectGraph,
    >)
        requires
            old(ctx).next_data_id < DataIdT::MAX,
        ensures
            match r {
                Some(g) => {
                    &&& assoc_get(self@.vertex_fvs, t@) is Some
                    &&& g@.id == old(ctx).next_data_id
                    &&& g@.graph == self@.id
                    &&& g@.selector == (SelectorView::DirectAccess { ltype: Some(t@) })
                    &&& g@.df == DataFrameSetView::Homo(
                        assoc_get(self@.vertex_fvs, t@).unwrap(),
                    )
                    &&& final(ctx).next_data_id == old(ctx).next_data_id + 1
                    &&& final(ctx).data_vec.deep_view() == old(ctx).data_vec.deep_view().push(
                        DataNodeView::VertexSelect(g@),
                    )
                    &&& final(ctx).transformation == old(ctx).transformation
                },
                None => {
                    &&& assoc_get(self@.vertex_fvs, t@) is None
                    &&& final(ctx).next_data_id == old(ctx).next_data_id
                    &&& final(ctx).data_vec == old(ctx).data_vec
                    &&& final(ctx).transformation == old(ctx).transformation
                },
            },
    {
        match bucket_get(&self.vertex_fvs, t) {
            Some(df) => {
                let id = ctx.new_data_id();
                let g = VertexSelectGraph {
                    context: DataTransformationContext { id },
                    graph: self.context.id,
                    selector: Selector::DirectAccess { ltype: Some(String::from_str(t)) },
                    df: DataFrameSet::Homo((df.0.clone(), dup_fields(&df.1))),
                };
                let node = VertexSelectGraph {
                    context: DataTransformationContext { id },
                    graph: g.graph,
                    selector: Selector::DirectAccess { ltype: Some(String::from_str(t)) },
                    df: DataFrameSet::Homo((df.0, df.1)),
                };
                ctx.add_data(DataNode::VertexSelect(node));
                Some(g)
            },
            None => None,
        }
    }

    /// The edges of one type, or an explicit absent result — not an error —
    /// if the type is unknown.
    pub fn edges_by_type(&self, ctx: &mut TransformationContext, t: &str) -> (r: Option<
        EdgeSelectGraph,
    >)
        requires
            old(ctx).next_data_id < DataIdT::MAX,
        ensures
            match r {
                Some(g) => {
                    &&& assoc_get(self@.edge_fvs, t@) is Some
                    &&& g@.id == old(ctx).next_data_id
                    &&& g@.graph == self@.id
                    &&& g@.selector == (SelectorView::DirectAccess { ltype: Some(t@) })
                    &&& g@.df == DataFrameSetView::Homo(assoc_get(self@.edge_fvs, t@).unwrap())
                    &&& final(ctx).next_data_id == old(ctx).next_data_id + 1
                    &&& final(ctx).data_vec.deep_view() == old(ctx).data_vec.deep_view().push(
                        DataNodeView::EdgeSelect(g@),
                    )
                    &&& final(ctx).transformation == old(ctx).transformation
                },
                None => {
                    &&& assoc_get(self@.edge_fvs, t@) is None
                    &&& final(ctx).next_data_id == old(ctx).next_data_id
                    &&& final(ctx).data_vec == old(ctx).data_vec
                    &&& final(ctx).transformation == old(ctx).transformation
                },
            },
    {
        match bucket_get(&self.edge_fvs, t) {
            Some(df) => {
                let id = ctx.new_data_id();
                let g = EdgeSelectGraph {
                    context: DataTransformationContext { id },
                    graph: self.context.id,
                    selector: Selector::DirectAccess { ltype: Some(String::from_str(t)) },
                    df: DataFrameSet::Homo((df.0.clone(), dup_fields(&df.1))),
                };
                let node = EdgeSelectGraph {
                    context: DataTransformationContext { id },
                    graph: g.graph,
                    selector: Selector::DirectAccess { ltype: Some(String::from_str(t)) },
                    df: DataFrameSet::Homo((df.0, df.1)),
                };
                ctx.add_data(DataNode::EdgeSelect(node));
                Some(g)
            },
            None => None,
        }
    }

    /// Builds a topology tagged with this node's owning transformation id
    /// and its known shape and edge entities, records the export, and
    /// returns the value.  Durable persistence happens only at finalize.
    pub fn export_topology(&self, ctx: &mut TransformationContext, name: &str) -> (r: Topology)
        ensures
            r@.name == name@,
            final(ctx).transformation matches Some(t) && r@.transformation_id == Some(
                crate::feature::spec_transformation_id(t@),
            ),
            r@.topology_type == self@.topology_type,
            r@.edge_entity_ids == assoc_values(self@.edge_entities),
            r@.variant is None,
            r@.description is None,
            r@.created_at is None,
            r@.tags.len() == 0,
            r@.owners.len() == 0,
            final(ctx).transformation matches Some(t) && t@.export_resources
                == crate::transformation::transformation_context::spec_old_exports(
                old(ctx).transformation,
            ) + seq![(self@.id, crate::feature::spec_topology_id(r@))],
            final(ctx).next_data_id == old(ctx).next_data_id,
            final(ctx).data_vec == old(ctx).data_vec,
    {
        let tid = self.context.get_transformation_id(ctx);
        let r = Topology {
            name: String::from_str(name),
            transformation_id: Some(tid),
            topology_type: match &self.topology_type {
                Some(t) => Some(t.duplicate()),
                None => None,
            },
            edge_entity_ids: self.get_edge_entity_ids(),
            variant: None,
            description: None,
            created_at: None,
            tags: Vec::new(),
            owners: Vec::new(),
        };
        let rid = r.resource_id();
        self.context.export_resource(ctx, self.context.id, rid);
        r
    }
}

impl SingleGraph {
    /// Derives a graph node for `query` over this node.
    pub fn cypher_to_graph(&self, ctx: &mut TransformationContext, query: &str) -> (g:
        crate::transformation::cypher_result::CypherResultGraph)
        requires
            old(ctx).next_data_id < DataIdT::MAX,
        ensures
            g@.id == old(ctx).next_data_id,
            g@.graph == self@.id,
            g@.query == query@,
            final(ctx).next_data_id == old(ctx).next_data_id + 1,
            final(ctx).data_vec.deep_view() == old(ctx).data_vec.deep_view().push(
                DataNodeView::CypherGraph(g@),
            ),
            final(ctx).transformation == old(ctx).transformation,
    {
        crate::transformation::cypher_result::cypher_to_graph_node(self.context.id, ctx, query)
    }

    /// Derives a tabular query-result node for `query` over this node;
    /// the plan keeps the query text verbatim.
    pub fn cypher_to_dataframe(&self, ctx: &mut TransformationContext, query: &str) -> (df:
        crate::transformation::dataframe::DataFrame)
        requires
            old(ctx).next_data_id < DataIdT::MAX,
        ensures
            df.wf(),
            crate::transformation::cypher_result::spec_cypher_frame(
                df@,
                self@.id,
                old(ctx).next_data_id,
                query@,
            ),
            final(ctx).next_data_id == old(ctx).next_data_id + 1,
            final(ctx).data_vec.deep_view() == old(ctx).data_vec.deep_view().push(
                DataNodeView::CypherDataFrame(
                    crate::transformation::cypher_result::CypherResultDataFrameView {
                        id: old(ctx).next_data_id,
                        query: query@,
                    },
                ),
            ),
            final(ctx).transformation == old(ctx).transformation,
    {
        crate::transformation::cypher_result::cypher_to_dataframe_node(self.context.id, ctx, query)
    }
}

} // verus!
