//! Listing posts.

use crate::data::{CommunityId, ListingType, SortType};
use vstd::prelude::*;

verus! {

/// The query of a request for a list of posts. A field left out of the query is `None`.
#[derive(Debug, PartialEq, Eq)]
pub struct GetPosts {
    pub type_: Option<ListingType>,
    pub sort: Option<SortType>,
    pub page: Option<i64>,
    pub limit: Option<i64>,
    pub community_id: Option<CommunityId>,
    pub community_name: Option<String>,
    pub saved_only: Option<bool>,
    pub auth: Option<String>,
}

/// Where the service lists posts.
pub open spec fn posts_path() -> Seq<char> {
    seq!['/', 'p', 'o', 's', 't', '/', 'l', 'i', 's', 't']
}

/// The query for page `page` of the posts of one community, or of all if none
/// is named, drawn from `listing_type` in the order `sort_type`. Nothing else is asked.
pub open spec fn posts_query(
    page: i64,
    community_name: Option<String>,
    listing_type: Option<ListingType>,
    sort_type: Option<SortType>,
) -> GetPosts {
    GetPosts {
        type_: listing_type,
        sort: sort_type,
        page: Some(page),
        limit: None,
        community_id: None,
        community_name,
        saved_only: None,
        auth: None,
    }
}

/// The request for a list of posts: the path to ask at, and [`posts_query`].
/// The posts are the `posts` of the answer.
pub fn list_posts(
    page: i64,
    community_name: Option<String>,
    listing_type: Option<ListingType>,
    sort_type: Option<SortType>,
) -> (request: (&'static str, GetPosts))
    ensures
        request.0@ == posts_path(),
        request.1 == posts_query(page, community_name, listing_type, sort_type),
{
    let params = GetPosts {
        type_: listing_type,
        sort: sort_type,
        page: Some(page),
        limit: None,
        community_id: None,
        community_name,
        saved_only: None,
        auth: None,
    };
    proof {
        reveal_strlit("/post/list");
    }
    ("/post/list", params)
}

} // verus!
