//! Infrastructure providers: handles for the graph database that serves a
//! deployment, and the ingestion seam its drivers implement.

use crate::data_source::DataSource;
use crate::GfsError;
use vstd::prelude::*;

verus! {

/// Reconciles serving infrastructure with the declared feature views.
/// Implementations live with the store's drivers.
pub trait InfraProvider: Sized {
    fn update_infra(
        &self,
        views_to_delete: Vec<crate::FeatureView>,
        views_to_keep: Vec<crate::FeatureView>,
    ) -> Result<(), GfsError>;
}

/// Connection credentials of a graph database.
#[derive(Debug)]
pub struct GraphDatabaseCredentials {
    pub uri: String,
    pub user: String,
    pub pass: String,
}

/// Loads and subscribes data sources into the graph database; the drivers
/// doing the I/O implement this outside the verified core.
pub trait DataSourceIngestion: Sized {
    fn ingest_data_source(&self, data_source: &DataSource) -> Result<(), GfsError>;

    fn load_offline_data_source(&self, data_source: &DataSource) -> Result<(), GfsError>;

    fn subscribe_online_data_source(&self, data_source: &DataSource) -> Result<(), GfsError>;
}

/// The handle ingestion drivers work through.
#[derive(Debug)]
pub struct GraphDataHandler {
    pub credentials: GraphDatabaseCredentials,
}

/// A graph-database-backed infrastructure provider.
#[derive(Debug)]
pub struct GDBProvider {
    pub graph_data_handler: GraphDataHandler,
}

impl GDBProvider {
    /// A provider over the given credentials.
    pub fn new(credentials: GraphDatabaseCredentials) -> (r: Result<GDBProvider, GfsError>)
        ensures
            r matches Ok(p) && p.graph_data_handler.credentials.uri@ == credentials.uri@
                && p.graph_data_handler.credentials.user@ == credentials.user@
                && p.graph_data_handler.credentials.pass@ == credentials.pass@,
    {
        Ok(GDBProvider { graph_data_handler: GraphDataHandler { credentials } })
    }
}

} // verus!
