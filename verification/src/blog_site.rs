//! The static site generator's configuration and page props.

use vstd::prelude::*;

verus! {

/// Where the generated pages point: assets, site base, and the dynamic
/// endpoint.
#[derive(Debug, Clone)]
pub struct PagesConfig {
    pub assets_url: String,
    pub base_url: String,
    pub htmx_url: String,
}

/// What the index page needs.
#[derive(Debug, Clone)]
pub struct IndexProps {
    pub assets_url: String,
    pub base_url: String,
}

} // verus!
