use gfs::{
    Aggregator, DataFrameSet, DataTransformationContext, Entity, EntityType, Expression,
    FeatureRegistry, FeatureValueType, Field, GfsError, LocalStorageProvider, RandomWalkPath,
    ResourceOp, Selector, SingleGraph, TransformationContext,
};

fn person_graph(ctx: &mut TransformationContext) -> SingleGraph {
    let id = ctx.new_data_id();
    let graph = SingleGraph {
        context: DataTransformationContext { id },
        vertex_fvs: vec![(
            "Person".to_string(),
            ("person_view".to_string(), Vec::new()),
        )],
        edge_fvs: vec![(
            "knows".to_string(),
            ("knows_view".to_string(), Vec::new()),
        )],
        vertex_entities: vec![("Person".to_string(), "Entity/Person/".to_string())],
        edge_entities: vec![("knows".to_string(), "Entity/knows/".to_string())],
        topology_type: None,
    };
    graph
}

#[test]
fn vertices_by_type_is_absent_for_an_unknown_type() {
    let mut ctx = TransformationContext::new();
    let graph = person_graph(&mut ctx);
    let nodes_before = ctx.data_vec.len();
    let absent = graph.vertices_by_type(&mut ctx, "Alien");
    assert!(absent.is_none());
    assert_eq!(ctx.data_vec.len(), nodes_before);
    let present = graph.vertices_by_type(&mut ctx, "Person");
    assert!(present.is_some());
    assert_eq!(ctx.data_vec.len(), nodes_before + 1);
}

#[test]
fn edges_by_type_is_absent_for_an_unknown_type() {
    let mut ctx = TransformationContext::new();
    let graph = person_graph(&mut ctx);
    assert!(graph.edges_by_type(&mut ctx, "dislikes").is_none());
    let knows = graph.edges_by_type(&mut ctx, "knows").unwrap();
    match &knows.selector {
        Selector::DirectAccess { ltype } => assert_eq!(ltype.as_deref(), Some("knows")),
        _ => panic!("expected a direct-access selector"),
    }
}

#[test]
fn vertices_wraps_the_single_type_as_homogeneous() {
    let mut ctx = TransformationContext::new();
    let graph = person_graph(&mut ctx);
    let vertices = graph.vertices(&mut ctx);
    match &vertices.df {
        DataFrameSet::Homo((name, fields)) => {
            assert_eq!(name, "person_view");
            assert!(fields.is_empty());
        },
        DataFrameSet::Hetero(_) => panic!("expected a homogeneous frame set"),
    }
    assert_eq!(vertices.graph, graph.context.id);
}

#[test]
fn k_hop_parameter_lists_obey_the_broadcast_rule() {
    let mut ctx = TransformationContext::new();
    let graph = person_graph(&mut ctx);
    // aggregators: 1 broadcasts, k is taken per hop, anything else is rejected
    assert!(graph
        .aggregate_k_hop_neighbors(
            &mut ctx,
            3,
            vec!["knows".to_string()],
            vec![Aggregator::Mean],
            "agg".to_string()
        )
        .is_ok());
    assert!(graph
        .aggregate_k_hop_neighbors(
            &mut ctx,
            3,
            vec!["knows".to_string()],
            vec![Aggregator::Mean, Aggregator::Sum, Aggregator::Max],
            "agg".to_string()
        )
        .is_ok());
    assert_eq!(
        graph
            .aggregate_k_hop_neighbors(
                &mut ctx,
                3,
                vec!["knows".to_string()],
                vec![Aggregator::Mean, Aggregator::Sum],
                "agg".to_string()
            )
            .unwrap_err(),
        GfsError::ConfigurationError
    );
    // edge types obey the same rule: the empty list is rejected too
    assert_eq!(
        graph
            .aggregate_k_hop_neighbors(
                &mut ctx,
                3,
                vec!["knows".to_string(), "knows".to_string()],
                vec![Aggregator::Mean],
                "agg".to_string()
            )
            .unwrap_err(),
        GfsError::ConfigurationError
    );
    assert_eq!(
        graph
            .aggregate_k_hop_neighbors(
                &mut ctx,
                3,
                Vec::new(),
                vec![Aggregator::Mean],
                "agg".to_string()
            )
            .unwrap_err(),
        GfsError::ConfigurationError
    );
    // fanouts: 1 or k; an absent edge-type list means all types
    assert!(graph
        .sample_k_hop_neighbors(&mut ctx, 2, vec![10], None, false)
        .is_ok());
    assert!(graph
        .sample_k_hop_neighbors(&mut ctx, 2, vec![10, 5], None, false)
        .is_ok());
    assert_eq!(
        graph
            .sample_k_hop_neighbors(&mut ctx, 2, vec![10, 5, 2], None, false)
            .unwrap_err(),
        GfsError::ConfigurationError
    );
    // a present but empty edge-type list is rejected
    assert_eq!(
        graph
            .sample_k_hop_neighbors(&mut ctx, 2, vec![10], Some(Vec::new()), false)
            .unwrap_err(),
        GfsError::ConfigurationError
    );
}

#[test]
fn sampling_records_the_resolved_plan() {
    let mut ctx = TransformationContext::new();
    let graph = person_graph(&mut ctx);
    let sampled = graph
        .sample_k_hop_neighbors(&mut ctx, 3, vec![7], None, true)
        .unwrap();
    match &sampled.selector {
        Selector::Sampling(gfs::SamplingSpec::KHopNeighbor {
            fanouts,
            edge_types,
            replace,
        }) => {
            assert_eq!(fanouts, &vec![7, 7, 7]);
            assert!(edge_types.is_empty());
            assert!(*replace);
        },
        _ => panic!("expected a k-hop sampling selector"),
    }
}

#[test]
fn random_walk_and_aggregation_build_frame_nodes() {
    let mut ctx = TransformationContext::new();
    let graph = person_graph(&mut ctx);
    let walks = graph.random_walk(&mut ctx, RandomWalkPath { length: 4 }, "weight", None);
    assert_eq!(walks.col_names, vec!["walk".to_string()]);
    // the plan column records the probability column, hop count and restarts
    assert_eq!(walks.schema[0].expr, Some("walk(weight;4;)".to_string()));
    let walks2 = graph.random_walk_edges(
        &mut ctx,
        RandomWalkPath { length: 4 },
        "weight",
        Some(vec![100, 50]),
    );
    assert_eq!(walks2.schema[0].expr, Some("walk(weight;4;100,50)".to_string()));
    let agg = graph.aggregate_neighbors(&mut ctx, None, Aggregator::Concat, "names".to_string());
    assert_eq!(agg.col_names, vec!["names".to_string()]);
    assert_eq!(agg.schema[0].value_type, FeatureValueType::String);
    assert_eq!(agg.schema[0].expr, Some("aggregate(concat;)".to_string()));
    let agg2 = graph.aggregate_neighbors(
        &mut ctx,
        Some("knows".to_string()),
        Aggregator::Mean,
        "avg".to_string(),
    );
    assert_eq!(agg2.schema[0].value_type, FeatureValueType::Float);
    assert_eq!(agg2.schema[0].expr, Some("aggregate(mean;knows)".to_string()));
    // the k-hop plan records the resolved per-hop lists, broadcast applied
    let agg3 = graph
        .aggregate_k_hop_neighbors(
            &mut ctx,
            2,
            vec!["knows".to_string()],
            vec![Aggregator::Mean],
            "k_hop_avg".to_string(),
        )
        .unwrap();
    assert_eq!(
        agg3.schema[0].expr,
        Some("aggregate_k_hop(2;mean,mean;knows,knows)".to_string())
    );
}

#[test]
fn cypher_adapters_store_the_query_verbatim() {
    let mut ctx = TransformationContext::new();
    let graph = person_graph(&mut ctx);
    let q = graph.cypher_to_graph(&mut ctx, "MATCH (n) RETURN n");
    assert_eq!(q.query, "MATCH (n) RETURN n");
    assert_eq!(q.graph, graph.context.id);
    let df = q.cypher_to_dataframe(&mut ctx, "MATCH (n) RETURN n.embedding");
    assert_eq!(df.col_names, vec!["user".to_string(), "dims".to_string()]);
    // the node that entered the plan is a query-result node with the text
    match ctx.data_vec.last().unwrap() {
        gfs::DataNode::CypherDataFrame(node) => {
            assert_eq!(node.query, "MATCH (n) RETURN n.embedding");
            assert_eq!(node.context.id, df.context.id);
        }
        other => panic!("expected a tabular query-result node, got {:?}", other),
    }
}

#[test]
fn export_topology_records_exactly_one_export() {
    let mut ctx = TransformationContext::new();
    let graph = person_graph(&mut ctx);
    let topo = graph.export_topology(&mut ctx, "person_topology");
    assert_eq!(topo.name, "person_topology");
    assert_eq!(topo.edge_entity_ids, vec!["Entity/knows/".to_string()]);
    let t = ctx.transformation.as_ref().unwrap();
    assert_eq!(
        t.export_resources,
        vec![(graph.context.id, topo.resource_id())]
    );
    assert_eq!(topo.transformation_id, Some(t.resource_id()));
}

#[test]
fn malformed_select_expression_is_a_validation_error() {
    let mut ctx = TransformationContext::new();
    let entity = Entity {
        name: "Rater".to_string(),
        variant: None,
        entity_type: EntityType::NodeEntity {
            tlabel: "Rater".to_string(),
        },
        primary_key: "raterId".to_string(),
        description: None,
        created_timestamp: None,
        last_updated_timestamp: None,
        tags: Vec::new(),
        owners: Vec::new(),
    };
    let overall = Field {
        name: "overall".to_string(),
        variant: None,
        value_type: FeatureValueType::Float,
        entity_id: entity.resource_id(),
        transformation_id: None,
        description: None,
        tags: Vec::new(),
        owners: Vec::new(),
    };
    let df = gfs::DataFrame::from_field(&mut ctx, &overall);
    let nodes_before = ctx.data_vec.len();
    let err = df
        .select(&mut ctx, vec!["avg(overall".to_string()])
        .unwrap_err();
    assert_eq!(err, GfsError::ValidationError);
    assert_eq!(ctx.data_vec.len(), nodes_before);
    assert_eq!(Expression::new("").unwrap_err(), GfsError::ValidationError);
    assert!(Expression::new("avg(overall)").is_ok());
}

#[test]
fn dataframe_export_attributes_fields_to_the_source_entity() {
    // the end-to-end scenario: entity, raw field, frame, projection, export
    let mut registry = FeatureRegistry {
        storage: LocalStorageProvider::new(),
    };
    let rater = Entity {
        name: "Rater".to_string(),
        variant: None,
        entity_type: EntityType::NodeEntity {
            tlabel: "Rater".to_string(),
        },
        primary_key: "raterId".to_string(),
        description: None,
        created_timestamp: None,
        last_updated_timestamp: None,
        tags: Vec::new(),
        owners: Vec::new(),
    };
    let overall = Field {
        name: "overall".to_string(),
        variant: None,
        value_type: FeatureValueType::Float,
        entity_id: rater.resource_id(),
        transformation_id: None,
        description: None,
        tags: Vec::new(),
        owners: Vec::new(),
    };
    registry.register_resource(&rater).unwrap();
    registry.register_resource(&overall).unwrap();

    let mut ctx = TransformationContext::new();
    let df = gfs::DataFrame::from_field(&mut ctx, &overall);
    let projected = df.select(&mut ctx, vec!["overall".to_string()]).unwrap();
    let exported = projected.export(&mut ctx);

    assert_eq!(exported.len(), 1);
    assert_eq!(exported[0].name, "overall");
    let t = ctx.transformation.as_ref().unwrap();
    assert_eq!(exported[0].transformation_id, Some(t.resource_id()));
    assert_eq!(
        t.export_resources,
        vec![(projected.context.id, "Field/Rater/overall/".to_string())]
    );
}

#[test]
fn selection_nodes_expose_their_typed_subsets() {
    let mut ctx = TransformationContext::new();
    let id = ctx.new_data_id();
    let two_types = SingleGraph {
        context: DataTransformationContext { id },
        vertex_fvs: vec![
            (
                "Person".to_string(),
                ("person_view".to_string(), Vec::new()),
            ),
            (
                "Product".to_string(),
                ("product_view".to_string(), Vec::new()),
            ),
        ],
        edge_fvs: Vec::new(),
        vertex_entities: Vec::new(),
        edge_entities: Vec::new(),
        topology_type: None,
    };
    // two vertex types: the all-vertices view keeps them per type
    let all = two_types.vertices(&mut ctx);
    match &all.df {
        DataFrameSet::Hetero(buckets) => assert_eq!(buckets.len(), 2),
        DataFrameSet::Homo(_) => panic!("expected one table per type"),
    }
    // a typed subset can be carved out of the heterogeneous selection
    let people = all.vertices_by_type(&mut ctx, "Person").unwrap();
    match &people.df {
        DataFrameSet::Homo((name, _)) => assert_eq!(name, "person_view"),
        DataFrameSet::Hetero(_) => panic!("expected a homogeneous frame set"),
    }
    assert!(all.vertices_by_type(&mut ctx, "Alien").is_none());
    // and a homogeneous selection has no type labels to look up
    assert!(people.vertices_by_type(&mut ctx, "Person").is_none());
}
