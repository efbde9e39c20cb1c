pub mod provider_catalog;
pub mod provider_registry;
