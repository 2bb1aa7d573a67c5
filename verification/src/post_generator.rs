//! The contract shapes and configuration of the older post generator
//! service.

use vstd::prelude::*;

use crate::refresh_blog::Post;

verus! {

/// The request to turn markdown into a post.
#[derive(Debug, Clone)]
pub struct GeneratePostRequest {
    /// The markdown source of the post.
    pub markdown_str: String,
}

/// The generated post.
#[derive(Debug, Clone)]
pub struct GeneratePostResponse {
    pub generated_post: Post,
}

/// The error body the service answers with.
#[derive(Debug, Clone)]
pub struct HttpErrResponse {
    pub error_type: String,
    pub message: String,
}

/// Where the generated pages point: assets, site base, and the dynamic
/// endpoint.
#[derive(Debug, Clone)]
pub struct GeneratorConfig {
    pub assets_url: String,
    pub base_url: String,
    pub htmx_url: String,
    pub listen_address: String,
}

} // verus!
