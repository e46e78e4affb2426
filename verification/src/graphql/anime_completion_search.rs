//! The answer to the `AnimeCompletionSearch` query: ids and titles of the
//! anime that match a search text, for shell completion.

use vstd::prelude::*;

verus! {

#[derive(Clone, Debug)]
pub struct Variables {
    pub query: String,
}

#[derive(Clone, Debug)]
pub struct ResponseData {
    pub page: Option<AnimeCompletionSearchPage>,
}

#[derive(Clone, Debug)]
pub struct AnimeCompletionSearchPage {
    pub results: Option<Vec<Option<AnimeCompletionSearchPageResults>>>,
}

#[derive(Clone, Debug)]
pub struct AnimeCompletionSearchPageResultsTitle {
    pub romaji: Option<String>,
}

#[derive(Clone, Debug)]
pub struct AnimeCompletionSearchPageResults {
    pub id: i64,
    pub title: Option<AnimeCompletionSearchPageResultsTitle>,
}

} // verus!
