//! The resource registry: CRUD over a prefix-queryable key-value backend,
//! keyed by resource identity.

use crate::codec::{decode_tokens, dec_toks, enc_toks, encode_tokens, lemma_dec_toks_of_enc};
use crate::feature::{
    lemma_entity_round_trip, lemma_field_round_trip, lemma_graph_round_trip,
    lemma_table_view_round_trip, lemma_topology_round_trip, lemma_topology_view_round_trip,
    lemma_transformation_round_trip, rd_entity, rd_field, rd_graph, rd_table_view, rd_topology,
    rd_topology_view, rd_transformation, spec_entity_id, spec_entity_tokens, spec_field_id,
    spec_field_tokens, spec_graph_id, spec_graph_tokens, spec_table_view_id,
    spec_table_view_tokens, spec_topology_id, spec_topology_tokens, spec_topology_view_id,
    spec_topology_view_tokens, spec_transformation_id, spec_transformation_tokens, Entity,
    EntityView, Field, FieldView, Graph, GraphView, ResourceOp, TableFeatureView,
    TableFeatureViewView, Topology, TopologyFeatureView, TopologyFeatureViewView, TopologyView,
    Transformation, TransformationView,
};
use crate::storage::{
    lemma_store_put_get, store_get, store_put, store_scan, StorageProvider, StoreEntry,
};
use crate::GfsError;
use vstd::prelude::*;
use vstd::string::*;

verus! {

/// The entries after registering a list of (id, serialized value) pairs in
/// order.
pub open spec fn store_put_all(es: Seq<StoreEntry>, items: Seq<StoreEntry>) -> Seq<StoreEntry>
    decreases items.len(),
{
    if items.len() == 0 {
        es
    } else {
        store_put_all(store_put(es, items[0].0, items[0].1), items.drop_first())
    }
}

pub proof fn lemma_store_put_all_snoc(es: Seq<StoreEntry>, items: Seq<StoreEntry>, x: StoreEntry)
    ensures
        store_put_all(es, items.push(x)) == store_put(store_put_all(es, items), x.0, x.1),
    decreases items.len(),
{
    if items.len() == 0 {
        assert(items.push(x)[0] == x);
        assert(items.push(x).drop_first() =~= Seq::<StoreEntry>::empty());
        assert(store_put_all(es, items) == es);
        assert(store_put_all(store_put(es, x.0, x.1), Seq::<StoreEntry>::empty()) == store_put(
            es,
            x.0,
            x.1,
        ));
        assert(store_put_all(es, items.push(x)) == store_put_all(
            store_put(es, x.0, x.1),
            items.push(x).drop_first(),
        ));
    } else {
        assert(items.push(x)[0] == items[0]);
        assert(items.push(x).drop_first() =~= items.drop_first().push(x));
        lemma_store_put_all_snoc(store_put(es, items[0].0, items[0].1), items.drop_first(), x);
    }
}

/// The (id, serialized value) pair of each resource in a list.
pub open spec fn resource_entries<R: ResourceOp>(rs: Seq<&R>) -> Seq<StoreEntry> {
    Seq::new(rs.len(), |i: int| (rs[i].spec_id(), enc_toks(rs[i].spec_tokens())))
}

/// Fetching and unframing one stored value.
pub open spec fn spec_lookup(es: Seq<StoreEntry>, id: Seq<char>) -> Result<Seq<Seq<char>>, GfsError> {
    match store_get(es, id) {
        None => Err(GfsError::NotFound),
        Some(v) => match dec_toks(v) {
            None => Err(GfsError::DecodeError),
            Some(ts) => Ok(ts),
        },
    }
}

pub open spec fn spec_get_entity(es: Seq<StoreEntry>, id: Seq<char>) -> Result<
    EntityView,
    GfsError,
> {
    match spec_lookup(es, id) {
        Err(e) => Err(e),
        Ok(ts) => match rd_entity(ts, 0) {
            Some((v, p)) => if p == ts.len() {
                Ok(v)
            } else {
                Err(GfsError::DecodeError)
            },
            None => Err(GfsError::DecodeError),
        },
    }
}

pub open spec fn spec_get_field(es: Seq<StoreEntry>, id: Seq<char>) -> Result<FieldView, GfsError> {
    match spec_lookup(es, id) {
        Err(e) => Err(e),
        Ok(ts) => match rd_field(ts, 0) {
            Some((v, p)) => if p == ts.len() {
                Ok(v)
            } else {
                Err(GfsError::DecodeError)
            },
            None => Err(GfsError::DecodeError),
        },
    }
}

pub open spec fn spec_get_table_feature_view(es: Seq<StoreEntry>, id: Seq<char>) -> Result<
    TableFeatureViewView,
    GfsError,
> {
    match spec_lookup(es, id) {
        Err(e) => Err(e),
        Ok(ts) => match rd_table_view(ts, 0) {
            Some((v, p)) => if p == ts.len() {
                Ok(v)
            } else {
                Err(GfsError::DecodeError)
            },
            None => Err(GfsError::DecodeError),
        },
    }
}

pub open spec fn spec_get_topology_feature_view(es: Seq<StoreEntry>, id: Seq<char>) -> Result<
    TopologyFeatureViewView,
    GfsError,
> {
    match spec_lookup(es, id) {
        Err(e) => Err(e),
        Ok(ts) => match rd_topology_view(ts, 0) {
            Some((v, p)) => if p == ts.len() {
                Ok(v)
            } else {
                Err(GfsError::DecodeError)
            },
            None => Err(GfsError::DecodeError),
        },
    }
}

pub open spec fn spec_get_transformation(es: Seq<StoreEntry>, id: Seq<char>) -> Result<
    TransformationView,
    GfsError,
> {
    match spec_lookup(es, id) {
        Err(e) => Err(e),
        Ok(ts) => match rd_transformation(ts, 0) {
            Some((v, p)) => if p == ts.len() {
                Ok(v)
            } else {
                Err(GfsError::DecodeError)
            },
            None => Err(GfsError::DecodeError),
        },
    }
}

pub open spec fn spec_get_graph(es: Seq<StoreEntry>, id: Seq<char>) -> Result<GraphView, GfsError> {
    match spec_lookup(es, id) {
        Err(e) => Err(e),
        Ok(ts) => match rd_graph(ts, 0) {
            Some((v, p)) => if p == ts.len() {
                Ok(v)
            } else {
                Err(GfsError::DecodeError)
            },
            None => Err(GfsError::DecodeError),
        },
    }
}

pub open spec fn spec_get_topology(es: Seq<StoreEntry>, id: Seq<char>) -> Result<
    TopologyView,
    GfsError,
> {
    match spec_lookup(es, id) {
        Err(e) => Err(e),
        Ok(ts) => match rd_topology(ts, 0) {
            Some((v, p)) => if p == ts.len() {
                Ok(v)
            } else {
                Err(GfsError::DecodeError)
            },
            None => Err(GfsError::DecodeError),
        },
    }
}

/// Decoding one stored value as a field.
pub open spec fn spec_decode_field(v: Seq<char>) -> Result<FieldView, GfsError> {
    match dec_toks(v) {
        None => Err(GfsError::DecodeError),
        Some(ts) => match rd_field(ts, 0) {
            Some((f, p)) => if p == ts.len() {
                Ok(f)
            } else {
                Err(GfsError::DecodeError)
            },
            None => Err(GfsError::DecodeError),
        },
    }
}

/// Decoding every scanned value as a field; any failure aborts the whole
/// call.
pub open spec fn dec_field_values(vals: Seq<Seq<char>>) -> Result<Seq<FieldView>, GfsError>
    decreases vals.len(),
{
    if vals.len() == 0 {
        Ok(Seq::<FieldView>::empty())
    } else {
        match spec_decode_field(vals[0]) {
            Err(e) => Err(e),
            Ok(f) => match dec_field_values(vals.drop_first()) {
                Err(e) => Err(e),
                Ok(rest) => Ok(seq![f] + rest),
            },
        }
    }
}

/// The id prefix under which an entity's fields are stored.
pub open spec fn spec_field_prefix(entity_name: Seq<char>) -> Seq<char> {
    "Field/"@ + entity_name + seq!['/']
}

pub open spec fn spec_get_fields(es: Seq<StoreEntry>, entity_name: Seq<char>) -> Result<
    Seq<FieldView>,
    GfsError,
> {
    dec_field_values(store_scan(es, spec_field_prefix(entity_name)))
}

/// The registry: a typed CRUD façade over a key-value backend, keyed by
/// resource identity.  A `put` on an existing key overwrites it; there is no
/// implicit versioning or deletion.
pub struct FeatureRegistry<S: StorageProvider> {
    pub storage: S,
}

impl<S: StorageProvider> FeatureRegistry<S> {
    /// Serializes `resource` and stores it under its id (idempotent
    /// overwrite).
    pub fn register_resource<R: ResourceOp>(&mut self, resource: &R) -> (r: Result<(), GfsError>)
        requires
            resource.id_wf(),
        ensures
            match r {
                Ok(()) => final(self).storage.entries() == store_put(
                    old(self).storage.entries(),
                    resource.spec_id(),
                    enc_toks(resource.spec_tokens()),
                ),
                Err(e) => e == GfsError::BackendError && final(self).storage.entries() == old(self).storage.entries(),
            },
    {
        let key = resource.resource_id();
        let toks = resource.to_tokens();
        let value = encode_tokens(&toks);
        self.storage.put(key.as_str(), value.as_str())
    }

    /// Registers the resources in order, best-effort: a failure at index `i`
    /// leaves the first `i` registrations committed and attempts no more.
    pub fn register_resources<R: ResourceOp>(&mut self, resources: &Vec<&R>) -> (r: Result<
        (),
        (usize, GfsError),
    >)
        requires
            forall|i: int| 0 <= i < resources@.len() ==> (#[trigger] resources@[i]).id_wf(),
        ensures
            match r {
                Ok(()) => final(self).storage.entries() == store_put_all(
                    old(self).storage.entries(),
                    resource_entries(resources@),
                ),
                Err((i, e)) => i < resources@.len() && e == GfsError::BackendError
                    && final(self).storage.entries() == store_put_all(
                    old(self).storage.entries(),
                    resource_entries(resources@).subrange(0, i as int),
                ),
            },
    {
        let ghost items = resource_entries(resources@);
        let mut i: usize = 0;
        proof {
            assert(items.subrange(0, 0) =~= Seq::<StoreEntry>::empty());
        }
        while i < resources.len()
            invariant
                i <= resources@.len(),
                items == resource_entries(resources@),
                forall|k: int| 0 <= k < resources@.len() ==> (#[trigger] resources@[k]).id_wf(),
                self.storage.entries() == store_put_all(
                    old(self).storage.entries(),
                    items.subrange(0, i as int),
                ),
            decreases resources@.len() - i,
        {
            let resource = resources[i];
            match self.register_resource(resource) {
                Ok(()) => (),
                Err(e) => {
                    return Err((i, e));
                },
            }
            proof {
                lemma_store_put_all_snoc(
                    old(self).storage.entries(),
                    items.subrange(0, i as int),
                    items[i as int],
                );
                assert(items.subrange(0, i as int).push(items[i as int]) =~= items.subrange(
                    0,
                    i + 1,
                ));
            }
            i = i + 1;
        }
        proof {
            assert(items.subrange(0, resources@.len() as int) =~= items);
        }
        Ok(())
    }

    /// Raw serialized values of every stored resource whose id starts with
    /// `Entity` (deliberately not decoded; see the typed getters).
    pub fn get_entities(&self) -> (r: Result<Vec<String>, GfsError>)
        ensures
            match r {
                Ok(vs) => vs.deep_view() == store_scan(self.storage.entries(), "Entity"@),
                Err(e) => e == GfsError::BackendError,
            },
    {
        self.storage.scan_prefix("Entity")
    }

    /// Every field of the named entity: a prefix scan under
    /// `Field/{entityName}/`, each value decoded; any decode failure aborts
    /// the whole call.
    #[verifier::rlimit(60)]
    pub fn get_entity_fields(&self, entity_name: &str) -> (r: Result<Vec<Field>, GfsError>)
        ensures
            match r {
                Ok(fs) => spec_get_fields(self.storage.entries(), entity_name@) == Ok::<
                    _,
                    GfsError,
                >(fs.deep_view()),
                Err(e) => e == GfsError::BackendError || spec_get_fields(
                    self.storage.entries(),
                    entity_name@,
                ) == Err::<Seq<FieldView>, _>(e),
            },
    {
        let mut prefix = String::from_str("Field/");
        prefix.append(entity_name);
        prefix.append("/");
        proof {
            reveal_strlit("/");
            assert(prefix@ =~= spec_field_prefix(entity_name@));
        }
        let values = match self.storage.scan_prefix(prefix.as_str()) {
            Ok(vs) => vs,
            Err(e) => {
                return Err(e);
            },
        };
        let ghost vals = values.deep_view();
        let mut out: Vec<Field> = Vec::new();
        let mut i: usize = 0;
        proof {
            assert(vals.subrange(0, vals.len() as int) =~= vals);
            match dec_field_values(vals) {
                Ok(fs) => {
                    assert(Seq::<FieldView>::empty() + fs =~= fs);
                },
                Err(_) => {},
            }
        }
        while i < values.len()
            invariant
                i <= values@.len(),
                vals == values.deep_view(),
                vals == store_scan(self.storage.entries(), spec_field_prefix(entity_name@)),
                match dec_field_values(vals.subrange(i as int, vals.len() as int)) {
                    Ok(rest) => dec_field_values(vals) == Ok::<_, GfsError>(
                        out.deep_view() + rest,
                    ),
                    Err(e) => dec_field_values(vals) == Err::<Seq<FieldView>, _>(e),
                },
            decreases values@.len() - i,
        {
            let ghost rest0 = vals.subrange(i as int, vals.len() as int);
            proof {
                assert(rest0[0] == vals[i as int]);
                assert(rest0.drop_first() =~= vals.subrange(i + 1, vals.len() as int));
            }
            let toks = match decode_tokens(values[i].as_str()) {
                Ok(ts) => ts,
                Err(e) => {
                    return Err(e);
                },
            };
            let (f, p) = match Field::from_tokens(&toks, 0) {
                Ok(x) => x,
                Err(e) => {
                    return Err(e);
                },
            };
            if p != toks.len() {
                return Err(GfsError::DecodeError);
            }
            let ghost prev = out.deep_view();
            let ghost fv = f@;
            out.push(f);
            proof {
                assert(out.deep_view() =~= prev.push(fv));
                assert(spec_decode_field(vals[i as int]) == Ok::<_, GfsError>(fv));
                match dec_field_values(vals.subrange(i + 1, vals.len() as int)) {
                    Ok(rest) => {
                        assert(dec_field_values(rest0) == Ok::<_, GfsError>(seq![fv] + rest));
                        assert(prev + (seq![fv] + rest) =~= out.deep_view() + rest);
                    },
                    Err(_) => {},
                }
            }
            i = i + 1;
        }
        proof {
            assert(vals.subrange(i as int, vals.len() as int) =~= Seq::<Seq<char>>::empty());
            assert(dec_field_values(Seq::<Seq<char>>::empty()) == Ok::<_, GfsError>(
                Seq::<FieldView>::empty(),
            ));
            assert(out.deep_view() + Seq::<FieldView>::empty() =~= out.deep_view());
        }
        Ok(out)
    }

    /// Exact-key fetch and typed decode of an entity.
    pub fn get_entity(&self, entity_id: &str) -> (r: Result<Entity, GfsError>)
        ensures
            match r {
                Ok(e) => spec_get_entity(self.storage.entries(), entity_id@) == Ok::<_, GfsError>(
                    e@,
                ),
                Err(e) => e == GfsError::BackendError || spec_get_entity(
                    self.storage.entries(),
                    entity_id@,
                ) == Err::<EntityView, _>(e),
            },
    {
        let value = match self.storage.get(entity_id) {
            Ok(v) => v,
            Err(e) => {
                return Err(e);
            },
        };
        let toks = decode_tokens(value.as_str())?;
        let (e, p) = Entity::from_tokens(&toks, 0)?;
        if p != toks.len() {
            return Err(GfsError::DecodeError);
        }
        Ok(e)
    }

    /// Exact-key fetch and typed decode of a field.
    pub fn get_field(&self, field_id: &str) -> (r: Result<Field, GfsError>)
        ensures
            match r {
                Ok(f) => spec_get_field(self.storage.entries(), field_id@) == Ok::<_, GfsError>(
                    f@,
                ),
                Err(e) => e == GfsError::BackendError || spec_get_field(
                    self.storage.entries(),
                    field_id@,
                ) == Err::<FieldView, _>(e),
            },
    {
        let value = match self.storage.get(field_id) {
            Ok(v) => v,
            Err(e) => {
                return Err(e);
            },
        };
        let toks = decode_tokens(value.as_str())?;
        let (f, p) = Field::from_tokens(&toks, 0)?;
        if p != toks.len() {
            return Err(GfsError::DecodeError);
        }
        Ok(f)
    }

    /// Exact-key fetch and typed decode of a table feature view.
    pub fn get_table_feature_view(&self, view_id: &str) -> (r: Result<TableFeatureView, GfsError>)
        ensures
            match r {
                Ok(t) => spec_get_table_feature_view(self.storage.entries(), view_id@) == Ok::<
                    _,
                    GfsError,
                >(t@),
                Err(e) => e == GfsError::BackendError || spec_get_table_feature_view(
                    self.storage.entries(),
                    view_id@,
                ) == Err::<TableFeatureViewView, _>(e),
            },
    {
        let value = match self.storage.get(view_id) {
            Ok(v) => v,
            Err(e) => {
                return Err(e);
            },
        };
        let toks = decode_tokens(value.as_str())?;
        let (t, p) = TableFeatureView::from_tokens(&toks, 0)?;
        if p != toks.len() {
            return Err(GfsError::DecodeError);
        }
        Ok(t)
    }

    /// Exact-key fetch and typed decode of a topology feature view.
    pub fn get_topology_feature_view(&self, view_id: &str) -> (r: Result<
        TopologyFeatureView,
        GfsError,
    >)
        ensures
            match r {
                Ok(t) => spec_get_topology_feature_view(self.storage.entries(), view_id@) == Ok::<
                    _,
                    GfsError,
                >(t@),
                Err(e) => e == GfsError::BackendError || spec_get_topology_feature_view(
                    self.storage.entries(),
                    view_id@,
                ) == Err::<TopologyFeatureViewView, _>(e),
            },
    {
        let value = match self.storage.get(view_id) {
            Ok(v) => v,
            Err(e) => {
                return Err(e);
            },
        };
        let toks = decode_tokens(value.as_str())?;
        let (t, p) = TopologyFeatureView::from_tokens(&toks, 0)?;
        if p != toks.len() {
            return Err(GfsError::DecodeError);
        }
        Ok(t)
    }

    /// Exact-key fetch and typed decode of a transformation.
    pub fn get_transformation(&self, transformation_id: &str) -> (r: Result<
        Transformation,
        GfsError,
    >)
        ensures
            match r {
                Ok(t) => spec_get_transformation(self.storage.entries(), transformation_id@)
                    == Ok::<_, GfsError>(t@),
                Err(e) => e == GfsError::BackendError || spec_get_transformation(
                    self.storage.entries(),
                    transformation_id@,
                ) == Err::<TransformationView, _>(e),
            },
    {
        let value = match self.storage.get(transformation_id) {
            Ok(v) => v,
            Err(e) => {
                return Err(e);
            },
        };
        let toks = decode_tokens(value.as_str())?;
        let (t, p) = Transformation::from_tokens(&toks, 0)?;
        if p != toks.len() {
            return Err(GfsError::DecodeError);
        }
        Ok(t)
    }

    /// Exact-key fetch and typed decode of a graph.
    pub fn get_graph(&self, graph_id: &str) -> (r: Result<Graph, GfsError>)
        ensures
            match r {
                Ok(g) => spec_get_graph(self.storage.entries(), graph_id@) == Ok::<_, GfsError>(
                    g@,
                ),
                Err(e) => e == GfsError::BackendError || spec_get_graph(
                    self.storage.entries(),
                    graph_id@,
                ) == Err::<GraphView, _>(e),
            },
    {
        let value = match self.storage.get(graph_id) {
            Ok(v) => v,
            Err(e) => {
                return Err(e);
            },
        };
        let toks = decode_tokens(value.as_str())?;
        let (g, p) = Graph::from_tokens(&toks, 0)?;
        if p != toks.len() {
            return Err(GfsError::DecodeError);
        }
        Ok(g)
    }

    /// Exact-key fetch and typed decode of a topology.
    pub fn get_topology(&self, topology_id: &str) -> (r: Result<Topology, GfsError>)
        ensures
            match r {
                Ok(t) => spec_get_topology(self.storage.entries(), topology_id@) == Ok::<
                    _,
                    GfsError,
                >(t@),
                Err(e) => e == GfsError::BackendError || spec_get_topology(
                    self.storage.entries(),
                    topology_id@,
                ) == Err::<TopologyView, _>(e),
            },
    {
        let value = match self.storage.get(topology_id) {
            Ok(v) => v,
            Err(e) => {
                return Err(e);
            },
        };
        let toks = decode_tokens(value.as_str())?;
        let (t, p) = Topology::from_tokens(&toks, 0)?;
        if p != toks.len() {
            return Err(GfsError::DecodeError);
        }
        Ok(t)
    }
}

// ---------------------------------------------------------------------------
// Registry round trip: `register(r)` then `get_<kind>(r.id)` yields `r`
// ---------------------------------------------------------------------------
/// Registering an entity and fetching it back under its id yields an equal
/// entity, whatever the store held before.
pub proof fn lemma_register_get_entity(es: Seq<StoreEntry>, v: EntityView)
    requires
        v.tags.len() <= u64::MAX,
        v.owners.len() <= u64::MAX,
    ensures
        spec_get_entity(
            store_put(es, spec_entity_id(v), enc_toks(spec_entity_tokens(v))),
            spec_entity_id(v),
        ) == Ok::<_, GfsError>(v),
{
    lemma_store_put_get(es, spec_entity_id(v), enc_toks(spec_entity_tokens(v)));
    lemma_dec_toks_of_enc(spec_entity_tokens(v));
    lemma_entity_round_trip(v);
}

/// Registering a field and fetching it back under its id yields an equal
/// field.
pub proof fn lemma_register_get_field(es: Seq<StoreEntry>, v: FieldView)
    requires
        v.tags.len() <= u64::MAX,
        v.owners.len() <= u64::MAX,
    ensures
        spec_get_field(
            store_put(es, spec_field_id(v), enc_toks(spec_field_tokens(v))),
            spec_field_id(v),
        ) == Ok::<_, GfsError>(v),
{
    lemma_store_put_get(es, spec_field_id(v), enc_toks(spec_field_tokens(v)));
    lemma_dec_toks_of_enc(spec_field_tokens(v));
    lemma_field_round_trip(v);
}

/// Registering a table view and fetching it back under its id yields an
/// equal view.
pub proof fn lemma_register_get_table_feature_view(es: Seq<StoreEntry>, v: TableFeatureViewView)
    requires
        v.field_ids.len() <= u64::MAX,
        v.tags.len() <= u64::MAX,
    ensures
        spec_get_table_feature_view(
            store_put(es, spec_table_view_id(v), enc_toks(spec_table_view_tokens(v))),
            spec_table_view_id(v),
        ) == Ok::<_, GfsError>(v),
{
    lemma_store_put_get(es, spec_table_view_id(v), enc_toks(spec_table_view_tokens(v)));
    lemma_dec_toks_of_enc(spec_table_view_tokens(v));
    lemma_table_view_round_trip(v);
}

/// Registering a topology view and fetching it back under its id yields an
/// equal view.
pub proof fn lemma_register_get_topology_feature_view(
    es: Seq<StoreEntry>,
    v: TopologyFeatureViewView,
)
    requires
        v.topology_ids.len() <= u64::MAX,
        v.tags.len() <= u64::MAX,
        v.owners.len() <= u64::MAX,
    ensures
        spec_get_topology_feature_view(
            store_put(es, spec_topology_view_id(v), enc_toks(spec_topology_view_tokens(v))),
            spec_topology_view_id(v),
        ) == Ok::<_, GfsError>(v),
{
    lemma_store_put_get(es, spec_topology_view_id(v), enc_toks(spec_topology_view_tokens(v)));
    lemma_dec_toks_of_enc(spec_topology_view_tokens(v));
    lemma_topology_view_round_trip(v);
}

/// Registering a transformation and fetching it back under its id yields an
/// equal transformation.
pub proof fn lemma_register_get_transformation(es: Seq<StoreEntry>, v: TransformationView)
    requires
        v.export_resources.len() <= u64::MAX,
        v.source_field_ids.len() <= u64::MAX,
        v.tags.len() <= u64::MAX,
        v.owners.len() <= u64::MAX,
    ensures
        spec_get_transformation(
            store_put(es, spec_transformation_id(v), enc_toks(spec_transformation_tokens(v))),
            spec_transformation_id(v),
        ) == Ok::<_, GfsError>(v),
{
    lemma_store_put_get(es, spec_transformation_id(v), enc_toks(spec_transformation_tokens(v)));
    lemma_dec_toks_of_enc(spec_transformation_tokens(v));
    lemma_transformation_round_trip(v);
}

/// Registering a graph and fetching it back under its id yields an equal
/// graph.
pub proof fn lemma_register_get_graph(es: Seq<StoreEntry>, v: GraphView)
    requires
        v.entity_ids.len() <= u64::MAX,
        v.tags.len() <= u64::MAX,
        v.owners.len() <= u64::MAX,
    ensures
        spec_get_graph(
            store_put(es, spec_graph_id(v), enc_toks(spec_graph_tokens(v))),
            spec_graph_id(v),
        ) == Ok::<_, GfsError>(v),
{
    lemma_store_put_get(es, spec_graph_id(v), enc_toks(spec_graph_tokens(v)));
    lemma_dec_toks_of_enc(spec_graph_tokens(v));
    lemma_graph_round_trip(v);
}

/// Registering a topology and fetching it back under its id yields an equal
/// topology.
pub proof fn lemma_register_get_topology(es: Seq<StoreEntry>, v: TopologyView)
    requires
        v.edge_entity_ids.len() <= u64::MAX,
        v.tags.len() <= u64::MAX,
        v.owners.len() <= u64::MAX,
    ensures
        spec_get_topology(
            store_put(es, spec_topology_id(v), enc_toks(spec_topology_tokens(v))),
            spec_topology_id(v),
        ) == Ok::<_, GfsError>(v),
{
    lemma_store_put_get(es, spec_topology_id(v), enc_toks(spec_topology_tokens(v)));
    lemma_dec_toks_of_enc(spec_topology_tokens(v));
    lemma_topology_round_trip(v);
}

/// Prefix-scan completeness: where the values under `Field/{entityName}/`
/// are exactly the encodings of the field list `fvs`, the scan decodes to
/// exactly `fvs`, in order — no field of another entity appears.
pub proof fn lemma_get_fields_of_encoded(
    es: Seq<StoreEntry>,
    entity_name: Seq<char>,
    fvs: Seq<FieldView>,
)
    requires
        store_scan(es, spec_field_prefix(entity_name)) == Seq::new(
            fvs.len(),
            |i: int| enc_toks(spec_field_tokens(fvs[i])),
        ),
        forall|i: int|
            0 <= i < fvs.len() ==> (#[trigger] fvs[i]).tags.len() <= u64::MAX && fvs[i].owners.len()
                <= u64::MAX,
    ensures
        spec_get_fields(es, entity_name) == Ok::<_, GfsError>(fvs),
{
    lemma_dec_field_values_of_enc(fvs);
}

proof fn lemma_dec_field_values_of_enc(fvs: Seq<FieldView>)
    requires
        forall|i: int|
            0 <= i < fvs.len() ==> (#[trigger] fvs[i]).tags.len() <= u64::MAX && fvs[i].owners.len()
                <= u64::MAX,
    ensures
        dec_field_values(Seq::new(fvs.len(), |i: int| enc_toks(spec_field_tokens(fvs[i]))))
            == Ok::<_, GfsError>(fvs),
    decreases fvs.len(),
{
    let vals = Seq::new(fvs.len(), |i: int| enc_toks(spec_field_tokens(fvs[i])));
    if fvs.len() == 0 {
        assert(fvs =~= Seq::<FieldView>::empty());
    } else {
        lemma_dec_toks_of_enc(spec_field_tokens(fvs[0]));
        lemma_field_round_trip(fvs[0]);
        assert(spec_decode_field(vals[0]) == Ok::<_, GfsError>(fvs[0]));
        lemma_dec_field_values_of_enc(fvs.drop_first());
        assert(vals.drop_first() =~= Seq::new(
            fvs.drop_first().len(),
            |i: int| enc_toks(spec_field_tokens(fvs.drop_first()[i])),
        ));
        assert(seq![fvs[0]] + fvs.drop_first() =~= fvs);
    }
}

} // verus!
