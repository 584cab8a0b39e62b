//! The top-level feature store handle: a project name and its registry.

use crate::feature_registry::FeatureRegistry;
use crate::storage::StorageProvider;
use vstd::prelude::*;

verus! {

/// A feature store: one project and the registry persisting its
/// definitions.
pub struct FeatureStore<S: StorageProvider> {
    pub project: String,
    pub registry: FeatureRegistry<S>,
}

} // verus!
