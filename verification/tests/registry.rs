use gfs::{
    Entity, EntityType, FeatureRegistry, FeatureValueType, Field, GfsError, Graph,
    LocalStorageProvider, ResourceOp, StorageProvider, TableFeatureView, Topology,
    TopologyFeatureView, TopologyType, Transformation, TransformationType,
    UnreliableStorageProvider,
};

fn rater_entity() -> Entity {
    Entity {
        name: "Rater".to_string(),
        variant: None,
        entity_type: EntityType::NodeEntity {
            tlabel: "Rater".to_string(),
        },
        primary_key: "raterId".to_string(),
        description: None,
        created_timestamp: Some(5),
        last_updated_timestamp: None,
        tags: Vec::new(),
        owners: Vec::new(),
    }
}

fn field_on(entity: &Entity, name: &str, value_type: FeatureValueType) -> Field {
    Field {
        name: name.to_string(),
        variant: None,
        value_type,
        entity_id: entity.resource_id(),
        transformation_id: None,
        description: None,
        tags: Vec::new(),
        owners: Vec::new(),
    }
}

fn local_registry() -> FeatureRegistry<LocalStorageProvider> {
    FeatureRegistry {
        storage: LocalStorageProvider::new(),
    }
}

#[test]
fn resource_ids_are_formatted_per_kind() {
    let e = rater_entity();
    assert_eq!(e.resource_id(), "Entity/Rater/");
    let f = field_on(&e, "overall", FeatureValueType::Float);
    assert_eq!(f.resource_id(), "Field/Rater/overall/");
    let mut g = Graph::new("demo", Some("v1".to_string()), vec![&e]);
    assert_eq!(g.resource_id(), "Graph/demo/v1");
    g.variant = None;
    assert_eq!(g.resource_id(), "Graph/demo/");
}

#[test]
fn id_to_name_recovers_the_name() {
    let e = rater_entity();
    assert_eq!(<Entity as ResourceOp>::id_to_name(&e.resource_id()), "Rater");
    let f = field_on(&e, "overall", FeatureValueType::Float);
    assert_eq!(<Field as ResourceOp>::id_to_name(&f.resource_id()), "overall");
    assert_eq!(
        <Graph as ResourceOp>::id_to_name("Graph/demo_graph/v2"),
        "demo_graph"
    );
}

#[test]
fn register_then_get_entity_round_trips() {
    let mut registry = local_registry();
    let e = rater_entity();
    registry.register_resource(&e).unwrap();
    let back = registry.get_entity(&e.resource_id()).unwrap();
    assert_eq!(back, e);
}

#[test]
fn register_then_get_field_round_trips() {
    let mut registry = local_registry();
    let e = rater_entity();
    let f = field_on(
        &e,
        "overall",
        FeatureValueType::Array(Box::new(FeatureValueType::Float)),
    );
    registry.register_resource(&f).unwrap();
    let back = registry.get_field(&f.resource_id()).unwrap();
    assert_eq!(back, f);
}

#[test]
fn register_then_get_views_round_trip() {
    let mut registry = local_registry();
    let e = rater_entity();
    let tv = TableFeatureView {
        name: "fv_1".to_string(),
        variant: None,
        entity_id: e.resource_id(),
        field_ids: vec!["Field/Rater/overall/".to_string()],
        online: true,
        description: Some("serving view".to_string()),
        created_at: Some(7),
        updated_at: None,
        tags: vec![("team".to_string(), "ml".to_string())],
        owner: Some("ml-infra".to_string()),
    };
    registry.register_resource(&tv).unwrap();
    assert_eq!(registry.get_table_feature_view(&tv.resource_id()).unwrap(), tv);

    let pv = TopologyFeatureView {
        name: "topo_view".to_string(),
        variant: Some("v3".to_string()),
        topology_type: TopologyType::AdjacencyList,
        online: false,
        topology_ids: vec!["Topology/t1/".to_string()],
        description: None,
        created_at: None,
        updated_at: Some(9),
        tags: Vec::new(),
        owners: vec!["a".to_string(), "b".to_string()],
    };
    registry.register_resource(&pv).unwrap();
    assert_eq!(
        registry.get_topology_feature_view(&pv.resource_id()).unwrap(),
        pv
    );
}

#[test]
fn register_then_get_transformation_graph_topology_round_trip() {
    let mut registry = local_registry();
    let t = Transformation {
        name: "tf_1".to_string(),
        variant: None,
        export_resources: vec![(3, "Field/Rater/overall/".to_string())],
        source_field_ids: vec!["Field/Rater/age/".to_string()],
        dest_type: FeatureValueType::Float,
        transformation_type: TransformationType::CustomFunction,
        body: "(age) -> { return age + 1; }".to_string(),
        description: None,
        tags: Vec::new(),
        owners: Vec::new(),
    };
    registry.register_resource(&t).unwrap();
    assert_eq!(registry.get_transformation(&t.resource_id()).unwrap(), t);

    let e = rater_entity();
    let g = Graph::new("demo_graph", None, vec![&e]);
    registry.register_resource(&g).unwrap();
    assert_eq!(registry.get_graph(&g.resource_id()).unwrap(), g);

    let topo = Topology {
        name: "t1".to_string(),
        transformation_id: Some(t.resource_id()),
        topology_type: Some(TopologyType::AdjacencyMatrix),
        edge_entity_ids: vec!["Entity/rates/".to_string()],
        variant: None,
        description: None,
        created_at: Some(11),
        tags: Vec::new(),
        owners: Vec::new(),
    };
    registry.register_resource(&topo).unwrap();
    assert_eq!(registry.get_topology(&topo.resource_id()).unwrap(), topo);
}

#[test]
fn get_on_absent_key_is_not_found() {
    let registry = local_registry();
    assert_eq!(
        registry.get_entity("Entity/Nobody/").unwrap_err(),
        GfsError::NotFound
    );
}

#[test]
fn get_on_malformed_value_is_decode_error() {
    let mut registry = local_registry();
    registry
        .storage
        .put("Entity/Broken/", "not a framed record")
        .unwrap();
    assert_eq!(
        registry.get_entity("Entity/Broken/").unwrap_err(),
        GfsError::DecodeError
    );
}

#[test]
fn registering_twice_overwrites() {
    let mut registry = local_registry();
    let mut e = rater_entity();
    registry.register_resource(&e).unwrap();
    e.primary_key = "raterUuid".to_string();
    registry.register_resource(&e).unwrap();
    let back = registry.get_entity(&e.resource_id()).unwrap();
    assert_eq!(back.primary_key, "raterUuid");
}

#[test]
fn prefix_scan_returns_exactly_the_entity_fields() {
    let mut registry = local_registry();
    let rater = rater_entity();
    let mut product = rater_entity();
    product.name = "Product".to_string();
    let overall = field_on(&rater, "overall", FeatureValueType::Float);
    let age = field_on(&rater, "age", FeatureValueType::Int);
    let price = field_on(&product, "price", FeatureValueType::Float);
    registry.register_resource(&overall).unwrap();
    registry.register_resource(&price).unwrap();
    registry.register_resource(&age).unwrap();
    let fields = registry.get_entity_fields("Rater").unwrap();
    assert_eq!(fields, vec![overall, age]);
    let product_fields = registry.get_entity_fields("Product").unwrap();
    assert_eq!(product_fields, vec![price]);
    assert_eq!(registry.get_entity_fields("Rate").unwrap(), Vec::<Field>::new());
}

#[test]
fn list_entities_returns_raw_values() {
    let mut registry = local_registry();
    let e = rater_entity();
    registry.register_resource(&e).unwrap();
    let raw = registry.get_entities().unwrap();
    assert_eq!(raw.len(), 1);
    assert!(raw[0].contains("Rater"));
}

#[test]
fn register_many_is_best_effort_not_transactional() {
    let e1 = {
        let mut e = rater_entity();
        e.name = "r1".to_string();
        e
    };
    let e2 = {
        let mut e = rater_entity();
        e.name = "r2".to_string();
        e
    };
    let e3 = {
        let mut e = rater_entity();
        e.name = "r3".to_string();
        e
    };
    let storage = UnreliableStorageProvider::new(Some(e2.resource_id()));
    let mut registry = FeatureRegistry { storage };
    let resources: Vec<&Entity> = vec![&e1, &e2, &e3];
    let (index, error) = registry.register_resources(&resources).unwrap_err();
    assert_eq!(index, 1);
    assert_eq!(error, GfsError::BackendError);
    // the first write is committed, the third was never attempted
    assert_eq!(registry.get_entity(&e1.resource_id()).unwrap(), e1);
    assert_eq!(
        registry.get_entity(&e3.resource_id()).unwrap_err(),
        GfsError::NotFound
    );
}
