//! Where the model catalog comes from.

use vstd::prelude::*;
use crate::mlx::catalog::{
    build_embedded_catalog, embedded_entry, is_hf_model, recommended_model_id, CatalogError,
    MlxCatalog,
};

verus! {

pub const MLX_MIRROR_BASE_URL: &'static str = "MLX_MIRROR_BASE_URL";

pub const MLX_CATALOG_URL: &'static str = "MLX_CATALOG_URL";

pub const MLX_CATALOG_PUBKEY: &'static str = "MLX_CATALOG_PUBKEY";

/// A source of the model catalog.
pub trait CatalogProvider: Send + Sync {
    fn load_catalog(&self, system_ram_gb: u64) -> Result<MlxCatalog, CatalogError>;
}

/// The catalog compiled into the app.
#[derive(Debug, Default)]
pub struct EmbeddedCatalogProvider;

impl CatalogProvider for EmbeddedCatalogProvider {
    fn load_catalog(&self, system_ram_gb: u64) -> (r: Result<MlxCatalog, CatalogError>)
        ensures
            r matches Ok(c) && c.model_seq().len() == 7 && (forall|k: int|
                0 <= k < 7 ==> is_hf_model(#[trigger] c.model_seq()[k], embedded_entry(k)))
                && c.default_id() == recommended_model_id(system_ram_gb),
    {
        build_embedded_catalog(system_ram_gb)
    }
}

} // verus!
