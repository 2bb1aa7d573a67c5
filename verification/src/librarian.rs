//! The librarian's catalogue shapes, as its clients see them.

use vstd::prelude::*;

verus! {

/// One catalogued link.
#[derive(Debug, Clone)]
pub struct Link {
    pub title: String,
    pub date: String,
    pub url: String,
    pub subtitle: String,
    pub description: String,
    pub image_url: Option<String>,
    pub image_alt: Option<String>,
    pub tags: Vec<String>,
}

/// Which page of results is wanted.
#[derive(Debug, Clone)]
pub struct PaginationRequest {
    pub page: u32,
    pub limit: u32,
}

/// A catalogue query: pagination, tags, a title fragment and a date
/// window.
#[derive(Debug, Clone)]
pub struct QueryLinksRequest {
    pub pagination: PaginationRequest,
    pub tags: Vec<String>,
    pub title_query: String,
    pub start_date: String,
    pub end_date: String,
}

/// The links a query matched.
#[derive(Debug, Clone)]
pub struct QueryLinksResponse {
    pub links: Vec<Link>,
}

/// Every tag the catalogue knows.
#[derive(Debug, Clone)]
pub struct GetTagsResponse {
    pub tags: Vec<String>,
}

} // verus!
