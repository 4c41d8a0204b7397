//! Searching the instance.

use crate::data::{CommunityId, ListingType, PersonId, SearchType, SortType};
use vstd::prelude::*;

verus! {

/// The query of a search request. A field left out of the query is `None`.
#[derive(Debug, PartialEq, Eq)]
pub struct Search {
    pub q: String,
    pub community_id: Option<CommunityId>,
    pub community_name: Option<String>,
    pub creator_id: Option<PersonId>,
    pub type_: Option<SearchType>,
    pub sort: Option<SortType>,
    pub listing_type: Option<ListingType>,
    pub page: Option<i64>,
    pub limit: Option<i64>,
    pub auth: Option<String>,
}

/// Where the service answers searches.
pub open spec fn search_path() -> Seq<char> {
    seq!['/', 's', 'e', 'a', 'r', 'c', 'h']
}

/// The query for page `page` of what matches `query` among `search_type`:
/// the best of the past month first. Nothing else is asked.
pub open spec fn search_query(page: i64, query: String, search_type: Option<SearchType>) -> Search {
    Search {
        q: query,
        community_id: None,
        community_name: None,
        creator_id: None,
        type_: search_type,
        sort: Some(SortType::TopMonth),
        listing_type: None,
        page: Some(page),
        limit: None,
        auth: None,
    }
}

/// The request for a search: the path to ask at, and [`search_query`].
pub fn fetch_search(page: i64, query: String, search_type: Option<SearchType>) -> (request: (
    &'static str,
    Search,
))
    ensures
        request.0@ == search_path(),
        request.1 == search_query(page, query, search_type),
{
    let params = Search {
        q: query,
        community_id: None,
        community_name: None,
        creator_id: None,
        type_: search_type,
        sort: Some(SortType::TopMonth),
        listing_type: None,
        page: Some(page),
        limit: None,
        auth: None,
    };
    proof {
        reveal_strlit("/search");
    }
    ("/search", params)
}

} // verus!
