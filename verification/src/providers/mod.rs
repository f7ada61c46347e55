//! Providers of model catalogs, one module each.

use vstd::prelude::*;

pub mod openrouter;

verus! {

/// The providers that the catalog knows.
#[derive(Debug, Clone, Copy, PartialEq, Eq, Structural)]
pub enum Provider {
    OpenRouter,
}

} // verus!
