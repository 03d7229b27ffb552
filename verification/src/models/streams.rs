//! Records and fixed bindings for the endpoints dealing with streams.

use vstd::prelude::*;
use crate::models::Pagination;
use crate::pagination::{PageFlow, Paginator};

verus! {

/// An item in the list of streams.
#[derive(Debug, Clone)]
pub struct StreamListItem {
    /// 'id' field
    pub id: String,
    /// 'user_id' field
    pub user_id: String,
    /// 'user_name' field
    pub user_name: String,
    /// 'game_id' field
    pub game_id: String,
    /// 'type' field (carried under a spelling that is not a keyword)
    pub type_: String,
    /// 'title' field
    pub title: String,
    /// 'viewer_count' field
    pub viewer_count: u64,
    /// 'started_at' field
    pub started_at: String,
    /// 'language' field
    pub language: String,
    /// 'thumbnail_url' field
    pub thumbnail_url: String,
    /// 'tag_ids' field
    pub tag_ids: Vec<String>,
}

/// The list of streams: one page's items and its pagination block.
#[derive(Debug, Clone)]
pub struct StreamList {
    /// 'data' field
    pub data: Vec<StreamListItem>,
    /// 'pagination' field
    pub pagination: Pagination,
}

/// The path of the streams endpoint, relative to the base URL.
pub fn streams_endpoint() -> (r: &'static str)
    ensures
        r@ == "streams"@,
{
    "streams"
}

/// How many items the streams endpoint returns per request at most.
pub fn streams_maximum() -> (r: u64)
    ensures
        r == 100,
{
    100
}

/// The fixed binding of the streams endpoint on top of the aggregator: an
/// aggregation of `count` top streams, paged by the endpoint's maximum.
pub fn streams_paginator(count: u64) -> (r: Paginator)
    ensures
        r@ == PageFlow::initial(100 as nat, count as nat),
        r@.wf(),
        r@.on_schedule(),
        count == 0 ==> r@.done(),
{
    Paginator::new(streams_maximum(), count)
}

} // verus!
