//! Planning core of a graph feature store: a metadata registry for machine
//! learning feature definitions over graph-structured data, and a lazy
//! transformation engine that records an auditable computation plan before
//! any data materializes.

use vstd::prelude::*;

mod clock;
mod codec;
mod data_source;
mod error;
mod feature;
mod feature_registry;
mod feature_store;
mod identity;
mod provider;
mod record;
mod storage;
mod transformation;

pub use data_source::{
    DataSource, DataSourceType, OfflineDataSourceType, OnlineDataSourceType, SourceTransformation,
};
pub use codec::{decode_tokens, encode_tokens};
pub use error::GfsError;
pub use feature::{
    Entity, EntityType, EntityTypeView, EntityView, FeatureValueType, FeatureView,
    FeatureViewView, Field, FieldView, Graph, GraphDataset, GraphDatasetView, GraphView, ResourceOp,
    TableFeatureView, TableFeatureViewView, Topology, TopologyFeatureView,
    TopologyFeatureViewView, TopologyType, TopologyView, Transformation, TransformationType,
    TransformationView,
};
pub use feature_registry::FeatureRegistry;
pub use feature_store::FeatureStore;
pub use transformation::{
    finalize_transformation, Aggregator, Column, CypherResultDataFrame, CypherResultGraph,
    DataFrame, DataFrameSet, DataNode, DataTransformationContext, EdgeSelectGraph, Expression,
    InnerTransformationData, MultipleGraphsBase, RandomWalkPath, SamplingSpec, Selector,
    SingleGraph, TransformationContext, TransformationData, VertexSelectGraph,
};
pub use identity::{id_to_name, id_to_name_before_last, make_resource_id};
pub use provider::{
    DataSourceIngestion, GDBProvider, GraphDataHandler, GraphDatabaseCredentials, InfraProvider,
};
pub use storage::{
    LocalStorageProvider, ResourceLookup, StorageProvider, UnreliableStorageProvider,
};
pub use transformation::DataIdT;

verus! {

/// A resource id is a '/'-joined string key uniquely identifying one resource.
pub type ResourceId = String;

} // verus!
