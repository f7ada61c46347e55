//! A catalog of AI model metadata: the records of an upstream provider are
//! normalized into a table keyed by model id, written out as a JSON snapshot,
//! and read back into a store that answers lookups by id.

pub mod build;
pub mod json;
pub mod providers;
pub mod snapshot;
pub mod text;

pub use providers::openrouter::{
    get_model as get_openrouter_model, list_model_ids as list_openrouter_model_ids, load_catalog,
    Architecture, Catalog, OpenRouterModel, Pricing, TopProvider,
};
