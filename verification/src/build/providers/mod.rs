//! The providers that the build knows, one module each, and the list of
//! those that are built.

use crate::build::{FetchError, HttpResponse, ProviderSpec, Request};
use crate::providers::Provider;
use vstd::prelude::*;

pub mod openrouter;

verus! {

/// The providers that are built, in the order in which they are built. A new
/// provider is added by adding its descriptor here.
pub fn all() -> (r: Vec<ProviderSpec>)
    ensures
        r@.len() == 1,
        r@[0].name@ == openrouter::PROVIDER_NAME@,
        r@[0].file_name@ == openrouter::SNAPSHOT_FILE@,
        r@[0].provider == Provider::OpenRouter,
{
    let mut specs: Vec<ProviderSpec> = Vec::new();
    specs.push(openrouter::descriptor());
    specs
}

/// The environment variable that may hold the credential for a provider.
pub fn credential_variable(provider: Provider) -> (r: &'static str)
    ensures
        r@ == (match provider {
            Provider::OpenRouter => openrouter::API_KEY_VARIABLE@,
        }),
{
    match provider {
        Provider::OpenRouter => openrouter::API_KEY_VARIABLE,
    }
}

/// What a provider is asked.
pub fn request(provider: Provider, credential: Option<String>) -> (r: Request)
    ensures
        r.bearer == credential,
        r.url@ == (match provider {
            Provider::OpenRouter => openrouter::CATALOG_URL@,
        }),
{
    match provider {
        Provider::OpenRouter => openrouter::request(credential),
    }
}

/// Turns a provider's answer into the text of its snapshot.
pub fn fetch(provider: Provider, response: &HttpResponse) -> (r: Result<String, FetchError>)
    ensures
        match provider {
            Provider::OpenRouter => openrouter::fetch_outcome(*response, r),
        },
{
    match provider {
        Provider::OpenRouter => openrouter::fetch_models_map_json(response),
    }
}

} // verus!
