use gfs::{
    DataFrame, DataTransformationContext, Entity, EntityType, FeatureRegistry, FeatureStore,
    FeatureValueType, Field, LocalStorageProvider, ResourceOp, SingleGraph, Topology,
    TransformationContext,
};

fn product_entity() -> Entity {
    Entity {
        name: "Product".to_string(),
        variant: None,
        entity_type: EntityType::NodeEntity {
            tlabel: "Product".to_string(),
        },
        primary_key: "asin".to_string(),
        description: None,
        created_timestamp: Some(3),
        last_updated_timestamp: None,
        tags: Vec::new(),
        owners: Vec::new(),
    }
}

fn make_field(entity: &Entity, name: &str, value_type: FeatureValueType) -> Field {
    Field {
        name: name.to_string(),
        variant: None,
        value_type,
        entity_id: entity.resource_id(),
        transformation_id: None,
        description: None,
        tags: Vec::new(),
        owners: Vec::new(),
    }
}

#[test]
fn next_id_is_monotonic_from_zero() {
    let mut ctx = TransformationContext::new();
    let mut seen = Vec::new();
    for _ in 0..5 {
        seen.push(ctx.new_data_id());
    }
    assert_eq!(seen, vec![0, 1, 2, 3, 4]);
}

#[test]
fn node_list_grows_by_one_per_operation() {
    let mut ctx = TransformationContext::new();
    let entity = product_entity();
    let price = make_field(&entity, "price", FeatureValueType::Float);
    assert_eq!(ctx.data_vec.len(), 0);
    let df = DataFrame::from_field(&mut ctx, &price);
    assert_eq!(ctx.data_vec.len(), 1);
    let df2 = df.select(&mut ctx, vec!["price".to_string()]).unwrap();
    assert_eq!(ctx.data_vec.len(), 2);
    let col = df2.col("price").unwrap();
    let _df3 = df.with_column(&mut ctx, "derived_price", col);
    assert_eq!(ctx.data_vec.len(), 3);
}

#[test]
fn anonymous_transformation_is_created_once_with_prefixed_name() {
    let mut ctx = TransformationContext::new();
    let handle = DataTransformationContext { id: 0 };
    let tid1 = handle.get_transformation_id(&mut ctx);
    let tid2 = handle.get_transformation_id(&mut ctx);
    assert_eq!(tid1, tid2);
    assert!(tid1.starts_with("Transformation/TRANSFORMATION_"));
}

#[test]
fn export_resource_appends_one_pair() {
    let mut ctx = TransformationContext::new();
    let handle = DataTransformationContext { id: 7 };
    handle.export_resource(&mut ctx, 7, "Topology/t/".to_string());
    let t = ctx.transformation.as_ref().unwrap();
    assert_eq!(t.export_resources, vec![(7u32, "Topology/t/".to_string())]);
    handle.export_resource(&mut ctx, 8, "Topology/u/".to_string());
    let t = ctx.transformation.as_ref().unwrap();
    assert_eq!(
        t.export_resources,
        vec![
            (7u32, "Topology/t/".to_string()),
            (8u32, "Topology/u/".to_string())
        ]
    );
}

#[test]
fn build_transformation_snapshots_the_context() {
    let mut ctx = TransformationContext::new();
    assert_eq!(ctx.build_transformation(None, None).unwrap(), None);
    let entity = product_entity();
    let price = make_field(&entity, "price", FeatureValueType::Float);
    let _df = DataFrame::from_field(&mut ctx, &price);
    let handle = DataTransformationContext { id: 0 };
    let _ = handle.get_transformation_id(&mut ctx);
    let built = ctx
        .build_transformation(Some("plan".to_string()), Some("v1".to_string()))
        .unwrap()
        .unwrap();
    assert_eq!(built.name, "plan");
    assert_eq!(built.variant, Some("v1".to_string()));
    assert!(!built.body.is_empty());
    // building again after more nodes yields a longer snapshot
    let _df2 = DataFrame::from_field(&mut ctx, &price);
    let rebuilt = ctx.build_transformation(None, None).unwrap().unwrap();
    assert!(rebuilt.body.len() > built.body.len());
}

#[test]
fn finalize_and_register_persists_transformation_and_exports() {
    let mut fs = FeatureStore {
        project: "demo".to_string(),
        registry: FeatureRegistry {
            storage: LocalStorageProvider::new(),
        },
    };
    let mut ctx = TransformationContext::new();
    let entity = product_entity();
    let price = make_field(&entity, "price", FeatureValueType::Float);
    let df = DataFrame::from_field(&mut ctx, &price);
    let exported = df.export(&mut ctx);
    assert_eq!(exported.len(), 1);
    let topos: Vec<&Topology> = Vec::new();
    let fields: Vec<&Field> = exported.iter().collect();
    gfs::finalize_transformation(&mut fs, &mut ctx, &fields, &topos).unwrap();
    let t = ctx.transformation.as_ref().unwrap();
    let stored = fs
        .registry
        .get_transformation(&t.resource_id())
        .unwrap();
    assert_eq!(stored.export_resources.len(), 1);
    let stored_field = fs
        .registry
        .get_field(&exported[0].resource_id())
        .unwrap();
    assert_eq!(stored_field.name, "price");
}

#[test]
fn demo_use_dataframe() {
    let entity = Entity {
        name: "node_1".to_string(),
        variant: None,
        entity_type: EntityType::NodeEntity {
            tlabel: "Product".to_string(),
        },
        primary_key: "node_1".to_string(),
        description: None,
        created_timestamp: None,
        last_updated_timestamp: None,
        tags: Vec::new(),
        owners: Vec::new(),
    };

    let col1 = Field {
        name: "feature_1".to_string(),
        variant: None,
        value_type: FeatureValueType::Int,
        entity_id: entity.resource_id(),
        transformation_id: Some("t_1".to_string()),
        description: None,
        tags: Vec::new(),
        owners: Vec::new(),
    };

    let col2 = Field {
        name: "feature_2".to_string(),
        variant: None,
        value_type: FeatureValueType::Int,
        entity_id: entity.resource_id(),
        transformation_id: Some("t_1".to_string()),
        description: None,
        tags: Vec::new(),
        owners: Vec::new(),
    };

    let col3 = Field {
        name: "feature_3".to_string(),
        variant: None,
        value_type: FeatureValueType::Int,
        entity_id: entity.resource_id(),
        transformation_id: Some("t_2".to_string()),
        description: None,
        tags: Vec::new(),
        owners: Vec::new(),
    };

    let mut context = TransformationContext::new();
    let df = DataFrame::new(&mut context, "test", vec![&col1, &col2, &col3]);
    let df2 = df
        .select(
            &mut context,
            vec![
                "col1 + col2 * avg(col3)".to_string(),
                "col1".to_string(),
            ],
        )
        .unwrap();
    let df3 = df.with_column(&mut context, "computed_col", df2.col("col0").unwrap());

    println!("{:?}", df3);
    println!("{:?}", context);

    // the serialized lineage snapshot of the whole context
    let serialized = context
        .build_transformation(None, None)
        .unwrap();
    assert!(serialized.is_none());
    let handle = DataTransformationContext { id: df.context.id };
    let _ = handle.get_transformation_id(&mut context);
    let serialized = context.build_transformation(None, None).unwrap().unwrap();
    println!("serialized = {}", serialized.body);
}

#[test]
fn single_graph_from_resolves_views_through_the_registry() {
    let mut registry = FeatureRegistry {
        storage: LocalStorageProvider::new(),
    };
    let entity = product_entity();
    let price = make_field(&entity, "price", FeatureValueType::Float);
    registry.register_resource(&entity).unwrap();
    registry.register_resource(&price).unwrap();
    let view = gfs::TableFeatureView {
        name: "product_view".to_string(),
        variant: None,
        entity_id: entity.resource_id(),
        field_ids: vec![price.resource_id()],
        online: true,
        description: None,
        created_at: None,
        updated_at: None,
        tags: Vec::new(),
        owner: None,
    };
    let meta = gfs::GraphDataset::SingleGraphDataset {
        name: "graph".to_string(),
        description: Some("demo graph".to_string()),
        feature_views: vec![gfs::FeatureView::TableFeatureView(view)],
    };
    let mut ctx = TransformationContext::new();
    let graph = SingleGraph::from(&mut ctx, &meta, &registry).unwrap();
    assert_eq!(graph.vertex_fvs.len(), 1);
    assert_eq!(graph.vertex_fvs[0].0, "Product");
    assert_eq!(graph.vertex_fvs[0].1 .0, "product_view");
    assert_eq!(graph.vertex_fvs[0].1 .1, vec![price.duplicate()]);
    assert_eq!(
        graph.vertex_entities,
        vec![("Product".to_string(), entity.resource_id())]
    );
    assert_eq!(ctx.data_vec.len(), 1);
}

#[test]
fn graph_transform_pulls_all_field_versions() {
    let mut registry = FeatureRegistry {
        storage: LocalStorageProvider::new(),
    };
    let entity = product_entity();
    let price = make_field(&entity, "price", FeatureValueType::Float);
    let mut price_v2 = make_field(&entity, "price", FeatureValueType::Float);
    price_v2.variant = Some("v2".to_string());
    registry.register_resource(&entity).unwrap();
    registry.register_resource(&price).unwrap();
    registry.register_resource(&price_v2).unwrap();
    let graph = gfs::Graph::new("demo_graph", None, vec![&entity]);
    let mut ctx = TransformationContext::new();
    let sg = graph.transform(&mut ctx, &registry).unwrap();
    assert_eq!(sg.vertex_fvs.len(), 1);
    assert_eq!(sg.vertex_fvs[0].1 .0, "Product_ALL_FIELDS");
    assert_eq!(sg.vertex_fvs[0].1 .1.len(), 2);
}
