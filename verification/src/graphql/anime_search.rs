//! The answer to the `AnimeSearch` query: one page of anime that match a
//! search text.

use vstd::prelude::*;

verus! {

#[derive(Clone, Debug)]
pub struct Variables {
    pub query: Option<String>,
    pub page: i64,
    pub per_page: i64,
}

#[derive(Clone, Debug)]
pub struct ResponseData {
    pub page: Option<AnimeSearchPage>,
}

#[allow(non_camel_case_types)]
#[derive(Clone, Debug)]
pub enum MediaSeason {
    WINTER,
    SPRING,
    SUMMER,
    FALL,
    Other(String),
}

#[allow(non_camel_case_types)]
#[derive(Clone, Debug)]
pub enum MediaFormat {
    TV,
    TV_SHORT,
    MOVIE,
    SPECIAL,
    OVA,
    ONA,
    MUSIC,
    MANGA,
    NOVEL,
    ONE_SHOT,
    Other(String),
}

#[derive(Clone, Debug)]
pub struct AnimeSearchPage {
    pub page_info: Option<AnimeSearchPagePageInfo>,
    pub results: Option<Vec<Option<AnimeSearchPageResults>>>,
}

#[derive(Clone, Debug)]
pub struct AnimeSearchPagePageInfo {
    pub has_next_page: Option<bool>,
}

#[derive(Clone, Debug)]
pub struct AnimeSearchPageResultsTitle {
    pub romaji: Option<String>,
    pub native: Option<String>,
}

#[derive(Clone, Debug)]
pub struct AnimeSearchPageResultsCoverImage {
    pub medium: Option<String>,
}

#[derive(Clone, Debug)]
pub struct AnimeSearchPageResults {
    pub id: i64,
    pub title: Option<AnimeSearchPageResultsTitle>,
    pub format: Option<MediaFormat>,
    pub season: Option<MediaSeason>,
    pub episodes: Option<i64>,
    pub season_year: Option<i64>,
    pub cover_image: Option<AnimeSearchPageResultsCoverImage>,
}

} // verus!
