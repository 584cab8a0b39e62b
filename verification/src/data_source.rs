//! Data source descriptors: where raw graph data comes from.

use vstd::prelude::*;

verus! {

/// A primary or derived data source feeding the store.
#[derive(Debug)]
pub struct DataSource {
    pub name: String,
    pub path: String,
    pub data_source_type: DataSourceType,
    /// Absent for a primary source; set for a source derived by a
    /// transformation.
    pub transformation: Option<SourceTransformation>,
}

#[derive(Debug)]
pub enum DataSourceType {
    OfflineDataSourceType(OfflineDataSourceType),
    OnlineDataSourceType(OnlineDataSourceType),
}

#[derive(Debug, PartialEq, Eq, Structural)]
pub enum OfflineDataSourceType {
    CsvSource,
    CypherSource,
    ParquetSource,
}

#[derive(Debug, PartialEq, Eq, Structural)]
pub enum OnlineDataSourceType {
    KafkaSource,
    PulsarSource,
}

/// Source-to-graph transformations.  No concrete kind is defined yet; the
/// one variant stands in until the first real transformation arrives,
/// since an uninhabited enum cannot be declared here.
#[derive(Debug, PartialEq, Eq, Structural)]
pub enum SourceTransformation {
    Unspecified,
}

} // verus!
